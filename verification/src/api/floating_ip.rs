//! Floating IPs: publicly accessible static IP addresses that can be mapped
//! to droplets.
//!
//! The decoded floating-IP value carries a network address and an embedded
//! droplet, which live with the caller; the request construction is done
//! here. An address parameter is taken as its text.

use crate::api::{root_with, spec_root_child_refused, spec_root_refused, spec_root_with};
use crate::endpoint::url_push;
use crate::error::Error;
use crate::json::JsonValue;
use crate::method::Method;
use crate::request::Request;
use vstd::prelude::*;
use vstd::string::StringExecFns;

verus! {

/// An unbounded list request for every floating IP.
pub fn list() -> (r: Result<Request, Error>)
    ensures
        match r {
            Ok(req) => spec_root_with("floating_ips"@) == Some(req.spec_url()@) && req.spec_body()
                == JsonValue::Null && req.spec_method() == (Method::List { limit: None }),
            Err(e) => spec_root_refused("floating_ips"@) && e is UrlParse,
        },
{
    match root_with("floating_ips") {
        Ok(u) => Ok(Request::new(u, Method::List { limit: None })),
        Err(e) => Err(e),
    }
}

/// A creation request for a floating IP assigned to the given droplet.
pub fn for_droplet(id: usize) -> (r: Result<Request, Error>)
    requires
        id as int <= i64::MAX as int,
    ensures
        match r {
            Ok(req) => spec_root_with("floating_ips"@) == Some(req.spec_url()@)
                && req.spec_method() == Method::Create && req.spec_body() is Obj && ({
                let es = req.spec_body().obj_entries();
                es.len() == 1 && es[0].0 == "droplet_id"@ && es[0].1 == JsonValue::Int(id as i64)
            }),
            Err(e) => spec_root_refused("floating_ips"@) && e is UrlParse,
        },
{
    match root_with("floating_ips") {
        Ok(u) => {
            let mut req = Request::new(u, Method::Create);
            req.set_body(
                JsonValue::Obj(
                    vec![(String::from_str("droplet_id"), JsonValue::Int(id as i64))],
                ),
            );
            Ok(req)
        },
        Err(e) => Err(e),
    }
}

/// A creation request for a floating IP reserved to the given region.
pub fn for_region(id: &str) -> (r: Result<Request, Error>)
    ensures
        match r {
            Ok(req) => spec_root_with("floating_ips"@) == Some(req.spec_url()@)
                && req.spec_method() == Method::Create && req.spec_body() is Obj && ({
                let es = req.spec_body().obj_entries();
                es.len() == 1 && es[0].0 == "region"@ && (es[0].1 matches JsonValue::Str(s) && s@
                    == id@)
            }),
            Err(e) => spec_root_refused("floating_ips"@) && e is UrlParse,
        },
{
    match root_with("floating_ips") {
        Ok(u) => {
            let mut req = Request::new(u, Method::Create);
            req.set_body(
                JsonValue::Obj(
                    vec![(String::from_str("region"), JsonValue::Str(String::from_str(id)))],
                ),
            );
            Ok(req)
        },
        Err(e) => Err(e),
    }
}

/// A get request for the floating IP with the given address text.
pub fn get(ip: &str) -> (r: Result<Request, Error>)
    ensures
        match r {
            Ok(req) => (spec_root_with("floating_ips"@) matches Some(b) && url_push(b, ip@) == Some(
                req.spec_url()@,
            )) && req.spec_method() == Method::Get && req.spec_body() == JsonValue::Null,
            Err(e) => spec_root_child_refused("floating_ips"@, ip@) && e is UrlParse,
        },
{
    match root_with("floating_ips") {
        Ok(u) => {
            match u.push_segment(ip) {
                Ok(u2) => Ok(Request::new(u2, Method::Get)),
                Err(e) => Err(e),
            }
        },
        Err(e) => Err(e),
    }
}

/// A delete request for the floating IP with the given address text.
pub fn delete(ip: &str) -> (r: Result<Request, Error>)
    ensures
        match r {
            Ok(req) => (spec_root_with("floating_ips"@) matches Some(b) && url_push(b, ip@) == Some(
                req.spec_url()@,
            )) && req.spec_method() == Method::Delete && req.spec_body() == JsonValue::Null,
            Err(e) => spec_root_child_refused("floating_ips"@, ip@) && e is UrlParse,
        },
{
    match root_with("floating_ips") {
        Ok(u) => {
            match u.push_segment(ip) {
                Ok(u2) => Ok(Request::new(u2, Method::Delete)),
                Err(e) => Err(e),
            }
        },
        Err(e) => Err(e),
    }
}

} // verus!
