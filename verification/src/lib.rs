//! A verified model of a small Player resource server: the player store with
//! its uniqueness rules, the HTTP route table, the handlers' status mapping,
//! and the server lifecycle, each stated as a contract and proved.
use vstd::prelude::*;

pub mod configs;
pub mod db;
pub mod endpoints;
pub mod resources;
pub mod search;
pub mod server;
pub mod store;

verus! {

/// HTTP status code for a successful read.
pub const STATUS_OK: u16 = 200;

/// HTTP status code for a successful creation.
pub const STATUS_CREATED: u16 = 201;

/// HTTP status code for a storage or search failure.
pub const STATUS_INTERNAL_SERVER_ERROR: u16 = 500;

} // verus!
