//! The decisions behind a client's saved SSH endpoints: when to try a connection again, what a
//! finished attempt means, and how the frames read from and written to a server are reported.
//!
//! The modules hold no I/O. Each step takes what the outside reported as a plain value and says
//! what to do next.

pub mod backoff;
pub mod clock;
pub mod connect;
pub mod effects;
pub mod endpoint;
pub mod error;
mod filtering;
pub mod laws;
pub mod reader;
pub mod remote;
pub mod supervisor;
pub mod task;
pub mod transport;
