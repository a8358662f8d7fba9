//! A handle-management layer above a stateful filesystem driver.
//!
//! The layer serializes access to one shared driver through non-blocking
//! exclusivity guards, enforces a strict containment hierarchy
//! (controller handle -> volume handle -> directory/file handles), and
//! releases every driver-level directory or file token exactly once, on
//! every exit path, without ever raising a release failure to the caller
//! whose scope is ending.

pub mod driver;
pub mod guard;
pub mod handle;
pub mod ramdrv;
