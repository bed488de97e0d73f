use mini_service_locator::ServiceLocator;
use std::cell::RefCell;
use std::rc::Rc;

struct Counter {
    n: u64,
}

struct Label {
    y: String,
}

struct Unregistered {
    #[allow(dead_code)]
    z: u8,
}

/// A value that counts how often its destructor ran.
struct Probe {
    n: u64,
    drops: Rc<RefCell<u32>>,
}

impl Drop for Probe {
    fn drop(&mut self) {
        *self.drops.borrow_mut() += 1;
    }
}

#[test]
fn empty_lookup_is_absent() {
    let reg = ServiceLocator::default();
    assert!(reg.get::<Counter>().is_none());
    assert!(reg.get::<Label>().is_none());
    assert!(reg.get::<u32>().is_none());
}

#[test]
fn insert_then_get_reads_value() {
    let mut reg = ServiceLocator::default();
    reg.provide(Counter { n: 5 });
    let h = reg.get::<Counter>().expect("provided type must be present");
    assert_eq!(h.read().n, 5);
}

#[test]
fn type_isolation() {
    let mut reg = ServiceLocator::default();
    reg.provide(Counter { n: 1 });
    assert!(reg.get::<Label>().is_none());
    assert!(reg.get::<Unregistered>().is_none());
    reg.provide(Label { y: String::from("a") });
    assert!(reg.get::<Counter>().is_some());
    assert!(reg.get::<Label>().is_some());
    assert!(reg.get::<Unregistered>().is_none());
}

#[test]
fn handles_share_one_cell() {
    let mut reg = ServiceLocator::default();
    let h0 = reg.provide(Counter { n: 10 });
    let mut h1 = reg.get::<Counter>().unwrap();
    let h2 = reg.get::<Counter>().unwrap();
    h1.write().n = 77;
    assert_eq!(h0.read().n, 77);
    assert_eq!(h1.read().n, 77);
    assert_eq!(h2.read().n, 77);
}

#[test]
fn fingerprints_are_stable_per_type() {
    let mut reg = ServiceLocator::default();
    let h = reg.provide(Counter { n: 0 });
    let l = reg.provide(Label { y: String::new() });
    let h1 = reg.get::<Counter>().unwrap();
    let h2 = reg.get::<Counter>().unwrap();
    assert_eq!(h.fingerprint(), h1.fingerprint());
    assert_eq!(h1.fingerprint(), h2.fingerprint());
    assert_ne!(h.fingerprint(), l.fingerprint());
}

#[test]
fn concurrent_reads_then_write_visibility() {
    let mut reg = ServiceLocator::default();
    let mut h = reg.provide(Counter { n: 3 });
    {
        let g1 = h.read();
        let g2 = h.read();
        assert_eq!(g1.n, 3);
        assert_eq!(g2.n, 3);
    }
    {
        let mut g = h.write();
        g.n = 4;
    }
    assert_eq!(h.read().n, 4);
}

#[test]
fn erase_narrow_round_trip() {
    let mut reg = ServiceLocator::default();
    let h = reg.provide(Counter { n: 21 });
    let key: u64 = h.fingerprint();
    let e = reg.get_erased(key).expect("stored under its fingerprint");
    assert_eq!(e.fingerprint(), key);
    let mut back = e.narrow::<Counter>().expect("narrow to the original type");
    back.write().n = 22;
    assert_eq!(h.read().n, 22);
    assert!(e.narrow::<Label>().is_none());
    assert!(reg.get_erased(key.wrapping_add(1)).is_none());
}

#[test]
fn drop_of_last_handle_runs_destructor_once() {
    let drops = Rc::new(RefCell::new(0u32));
    let mut reg = ServiceLocator::default();
    let h = reg.provide(Probe { n: 1, drops: drops.clone() });
    let h2 = h.clone();
    drop(h);
    assert_eq!(*drops.borrow(), 0);
    assert_eq!(h2.read().n, 1);
    drop(h2);
    // the registry itself still holds the cell
    assert_eq!(*drops.borrow(), 0);
    drop(reg);
    assert_eq!(*drops.borrow(), 1);
}

#[test]
fn registry_drop_leaves_external_handles_alive() {
    let drops = Rc::new(RefCell::new(0u32));
    let mut reg = ServiceLocator::default();
    let h = reg.provide(Probe { n: 9, drops: drops.clone() });
    drop(reg);
    assert_eq!(*drops.borrow(), 0);
    assert_eq!(h.read().n, 9);
    drop(h);
    assert_eq!(*drops.borrow(), 1);
}

#[test]
fn scenario_counter_read_write_read() {
    let mut reg = ServiceLocator::default();
    reg.provide(Counter { n: 24 });
    let mut h = reg.get::<Counter>().unwrap();
    assert_eq!(h.read().n, 24);
    h.write().n = 32;
    assert_eq!(h.read().n, 32);
}

#[test]
fn scenario_two_services_and_an_absent_one() {
    struct A {
        x: u64,
    }
    struct B {
        y: String,
    }
    struct C;
    let mut reg = ServiceLocator::default();
    reg.provide(A { x: 1 });
    reg.provide(B { y: String::from("hi") });
    assert_eq!(reg.get::<A>().unwrap().read().x, 1);
    assert_eq!(reg.get::<B>().unwrap().read().y, "hi");
    assert!(reg.get::<C>().is_none());
}

#[test]
fn scenario_replacement_detaches_old_holders() {
    let mut reg = ServiceLocator::default();
    let mut h1 = reg.provide(Counter { n: 1 });
    reg.provide(Counter { n: 2 });
    let h2 = reg.get::<Counter>().unwrap();
    assert_eq!(h1.read().n, 1);
    assert_eq!(h2.read().n, 2);
    h1.write().n = 9;
    assert_eq!(h1.read().n, 9);
    assert_eq!(h2.read().n, 2);
}

#[test]
fn scenario_clone_outlives_original() {
    let drops = Rc::new(RefCell::new(0u32));
    let reg_drops = drops.clone();
    {
        let mut reg = ServiceLocator::default();
        let h = reg.provide(Probe { n: 7, drops: reg_drops });
        let h2 = h.clone();
        drop(h);
        drop(reg);
        assert_eq!(h2.read().n, 7);
        assert_eq!(*drops.borrow(), 0);
        drop(h2);
    }
    assert_eq!(*drops.borrow(), 1);
}
