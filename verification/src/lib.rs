//! warp: composable request filters for HTTP services, with the routing,
//! header, CORS, authentication and static-file decisions stated and proved.
use vstd::prelude::*;

pub mod blocking;
pub mod csv;
pub mod filter;
pub mod entity;
pub mod error;
pub mod filters;
pub mod generic;
pub mod handler;
pub mod header_map;
pub mod reject;
pub mod reply;
pub mod path;
pub mod request;
pub mod route;
pub mod text;

verus! {
} // verus!
