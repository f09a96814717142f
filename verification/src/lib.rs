//! A bounded pool of long-lived worker processes that answer queries over a
//! line protocol on their standard pipes.
//!
//! The library holds the rules of the pool and leaves the processes to its
//! caller: [`slots`] and [`guard`] hand out the workers one caller at a time,
//! [`protocol`] frames requests and reads replies, [`worker`] walks one call
//! through handshake, liveness check, restart, request and reply, and
//! [`manager`] puts them together. A driver performs the input and output
//! that each stage of a call names and reports back what happened.

pub mod error;
pub mod guard;
pub mod json;
pub mod manager;
pub mod protocol;
pub mod route;
pub mod slots;
pub mod sync;
pub mod worker;
