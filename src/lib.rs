//! A shared, lock-protected slot holding an optional boxed value that any
//! holder of a handle can read, mutate, replace or clear at run time.

pub mod slot;
pub mod swap;

pub use swap::{LockHold, MutexGuardRef, OnTheFlySwap, OnTheFlySwapInner, Unimplemented};
