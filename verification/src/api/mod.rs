//! The three methods, and how a request is routed and answered.

pub mod fee;
pub mod server;
pub mod types;
