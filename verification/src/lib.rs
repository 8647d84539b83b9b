//! Byte-level passthrough between two serial endpoints.
//!
//! Two worker loops relay bytes in opposite directions between a pair of
//! serial devices, appending a verbatim copy of every chunk read from a port
//! to that port's own log file. This crate holds the verified core: parsing
//! and validation of the session configuration, and the per-iteration
//! decision logic of a forwarding loop, modelled so that the bytes logged and
//! the bytes relayed are provably exactly the bytes read, in order.
//!
//! The surrounding binary owns the operating-system resources (the serial
//! handles, the log files, the two threads and the lock that arbitrates
//! access to each handle) and drives the loop by feeding each read outcome to
//! the decision logic here.

pub mod config;
pub mod forward;
