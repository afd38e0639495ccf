//! The router of a static-content service at the edge.
//!
//! For every request of a client the router decides whether the method is
//! allowed, which cache lifetime the request carries, how its path is
//! normalized, which origin is asked and when the fallback takes over,
//! whether the response gets cross-origin headers, and what is logged.
//!
//! The router does no input or output. [`invocation::handle`] and
//! [`invocation::resume`] say what is to be done; the caller sends the
//! requests, writes the logs and returns the response. What holds of every
//! invocation is stated and proved in [`laws`].

pub mod clock;
pub mod config;
pub mod http;
pub mod invocation;
pub mod laws;
pub mod log_line;
pub mod logger;
pub mod origin;
pub mod path;
pub mod pipeline;
pub mod text;
pub mod warning;
