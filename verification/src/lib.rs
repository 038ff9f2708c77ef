//! A small request router with a static-file fallback.
//!
//! A `pony_builder::PonyBuilder` collects routes and settings and builds a
//! `pony::Pony`. For each request the `Pony` says which handler answers it,
//! which file has to be read to answer it, or which response to send. Files
//! are read by the caller, so the routing itself touches no disk.

pub mod decode;
pub mod extensions;
pub mod handlers;
pub mod message;
pub mod paths;
pub mod pony;
pub mod pony_builder;
pub mod routes;
