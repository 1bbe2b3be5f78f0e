//! Built-in Filters
//!
//! The decisions that the built-in filters make about a request, grouped
//! by the part of the request they read.

pub mod addr;
pub mod any;
pub mod auth;
pub mod body;
pub mod cloneable;
pub mod compress;
pub mod compression;
pub mod cookie;
pub mod cors;
pub mod decompression;
pub mod ext;
pub mod fs;
pub mod header;
pub mod host;
pub mod log;
pub mod method;
pub mod mtls;
pub mod multipart;
pub mod none;
pub mod path;
pub mod query;
pub mod reply;
pub mod route;
pub mod tls;
pub mod tracing;
pub mod var;
pub mod ws;
