//! Bookkeeping core of a fiber runtime: the registration record that ties an
//! I/O handle to the fiber that last waited on it, the round-robin choice of
//! an event loop for a new fiber, and each loop's table of live fibers.
pub mod dispatch;
pub mod event_loop;
pub mod fiber;
pub mod registration;

pub use dispatch::spawn;
