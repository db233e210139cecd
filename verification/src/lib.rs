//! A request/response broker in front of a container runtime.
//!
//! Clients open one stream per request, send one encoded envelope and receive
//! exactly one envelope back. This library holds the broker's decisions: what
//! each request leads to, what each stream and connection does next, and how
//! the endpoint's identity is chosen. Reading, writing and awaiting are left to
//! the program around it.

pub mod connection;
pub mod endpoint;
pub mod envelope;
pub mod request;
pub mod runtime;
pub mod security;
pub mod stream;
