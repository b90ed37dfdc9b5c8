//! A multiple-producer/single-consumer in-process channel, verified.
//!
//! The channel core is a state machine: a FIFO buffer of pending values, a
//! count of live sender handles, and a closed flag that is set exactly when
//! the last sender disconnects.  Every operation of the core is an ordinary
//! sequential function with a contract; a host program supplies the lock, the
//! condition variable and the threads, calls the core under the lock, and
//! performs the `WouldBlock` / wake actions the contracts call for.

pub mod channel;
pub mod laws;
