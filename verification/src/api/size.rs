//! Sizes: the packages of hardware resources a droplet can be created with.
//!
//! A size's description carries pricing fields that this crate does not
//! model (they are fractional); the decoded size value lives with the
//! caller, while the request construction is done here.

use crate::api::{root_with, spec_root_refused, spec_root_with};
use crate::error::Error;
use crate::json::JsonValue;
use crate::method::Method;
use crate::request::Request;
use vstd::prelude::*;

verus! {

/// An unbounded list request for every size, against the provider's `sizes`
/// collection.
pub fn list() -> (r: Result<Request, Error>)
    ensures
        match r {
            Ok(req) => spec_root_with("sizes"@) == Some(req.spec_url()@) && req.spec_body()
                == JsonValue::Null && req.spec_method() == (Method::List { limit: None }),
            Err(e) => spec_root_refused("sizes"@) && e is UrlParse,
        },
{
    match root_with("sizes") {
        Ok(u) => Ok(Request::new(u, Method::List { limit: None })),
        Err(e) => Err(e),
    }
}

} // verus!
