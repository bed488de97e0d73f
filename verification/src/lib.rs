//! A type-indexed service registry.
//!
//! A [`ServiceLocator`] stores at most one value per concrete value type and
//! hands out shared, reference-counted handles to those values.  Each handle
//! offers scoped read and write borrows of the shared value under a
//! readers-writer discipline.

mod handle;
mod locator;
mod raw;

pub use handle::ErasedHandle;
pub use handle::Handle;
pub use locator::ServiceLocator;
