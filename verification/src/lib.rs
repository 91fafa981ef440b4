//! A route compiler for RPC-style HTTP services.
//!
//! One annotated service method is turned into a [`route::Route`], and that one
//! descriptor is rendered twice: as a server-side request handler with its
//! registration, and as a client-side stub. Both texts come from the same
//! descriptor, so they agree on verb, path template and parameter binding.

pub mod client;
pub mod derive;
pub mod error;
pub mod route;
pub mod server;
pub mod service;
pub mod syntax;
pub mod text;
pub mod web;
