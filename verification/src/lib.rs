//! Routing, URL rewriting and response relaying for a two-target reverse proxy.
//!
//! Every inbound request is classified by its path, turned into exactly one
//! outbound request (or an immediate error response), and the upstream outcome
//! is mapped back to what the caller sees. Nothing here performs I/O: the
//! functions take plain values and return plain values.

pub mod config;
pub mod handler;
pub mod image;
pub mod model;
pub mod relay;
pub mod resolver;
pub mod target;
pub mod text;
pub mod website;
