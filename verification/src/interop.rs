//! Ping tests between implementations.
pub mod harness;
pub mod host_log;
pub mod ping;
pub mod protocols;
