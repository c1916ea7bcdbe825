//! Request validation and structured error responses for a small HTTP API.
//!
//! The crate holds the decisions of the request pipeline as verified
//! functions on plain values: which handler a method and path select, which
//! fields of a login payload break which rule, how every kind of failure is
//! laid out as an error document, and which responses the interceptor
//! rewrites. Reading sockets, decoding bodies and writing JSON are left to
//! the server that embeds it.

pub mod document;
pub mod failure;
pub mod handlers;
pub mod intercept;
pub mod payload;
pub mod response;
pub mod routing;
pub mod rules;
pub mod service;
pub mod status;
pub mod validation;
