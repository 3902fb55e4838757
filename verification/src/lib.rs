//! Request-routing and validation front end for a pair of bytecode
//! decompilation endpoints.
//!
//! The library is the pure core of a small HTTP service: it decides which
//! endpoints are active for a given configuration, validates inbound
//! payloads, resolves the per-request decode parameter, classifies
//! failures, and builds the responses. The decompiler itself, and all of
//! the network plumbing, live outside the library; the library hands them
//! plain values and takes plain values back.

pub mod config;
pub mod decompile;
pub mod error;
pub mod response;
pub mod routing;
pub mod server;
pub mod text;
pub mod validate;
