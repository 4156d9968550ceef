//! A typed client core for a multi-resource cloud-provider REST API.
//!
//! Each resource exposes CRUD-style endpoints that differ only in HTTP verb,
//! URL shape, request body, and response envelope. This crate holds the
//! generic request/response pipeline: a builder that accumulates a target URL
//! and a JSON body while carrying an operation kind, plus the executor that
//! maps an operation kind to an HTTP verb, performs the call through a
//! narrow transport interface, unwraps the provider's response envelope,
//! and — for list operations — follows cursor-based pagination.

pub mod api;
pub mod endpoint;
pub mod error;
pub mod executor;
pub mod json;
pub mod laws;
pub mod method;
pub mod request;
pub mod transport;

use vstd::prelude::*;

verus! {

/// Base URL of the provider's API, shared by all resource endpoints.
pub const ROOT_URL: &'static str = "https://api.digitalocean.com/v2";

} // verus!
