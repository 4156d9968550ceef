//! Block storage volumes: expanded storage capacity that can be moved
//! between droplets within a region.
//!
//! The decoded volume value carries a fractional size field that this crate
//! does not model; it lives with the caller, while the request construction
//! is done here.

use crate::api::{root_with, spec_root_child_refused, spec_root_refused, spec_root_with};
use crate::endpoint::{push_may_refuse, query_may_refuse, url_push, url_query};
use crate::error::Error;
use crate::json::{store, JsonValue};
use crate::method::Method;
use crate::request::Request;
use vstd::prelude::*;
use vstd::string::StringExecFns;

verus! {

/// An unbounded list request for every volume.
pub fn list() -> (r: Result<Request, Error>)
    ensures
        match r {
            Ok(req) => spec_root_with("volumes"@) == Some(req.spec_url()@) && req.spec_body()
                == JsonValue::Null && req.spec_method() == (Method::List { limit: None }),
            Err(e) => spec_root_refused("volumes"@) && e is UrlParse,
        },
{
    match root_with("volumes") {
        Ok(u) => Ok(Request::new(u, Method::List { limit: None })),
        Err(e) => Err(e),
    }
}

/// A creation request for a new volume of the given name and size in GiB.
pub fn create(name: &str, size_gigabytes: usize) -> (r: Result<Request, Error>)
    requires
        size_gigabytes as int <= i64::MAX as int,
    ensures
        match r {
            Ok(req) => spec_root_with("volumes"@) == Some(req.spec_url()@) && req.spec_method()
                == Method::Create && req.spec_body() is Obj && ({
                let es = req.spec_body().obj_entries();
                &&& es.len() == 2
                &&& es[0].0 == "name"@ && (es[0].1 matches JsonValue::Str(s) && s@ == name@)
                &&& es[1].0 == "size_gigabytes"@ && es[1].1 == JsonValue::Int(
                    size_gigabytes as i64,
                )
            }),
            Err(e) => spec_root_refused("volumes"@) && e is UrlParse,
        },
{
    match root_with("volumes") {
        Ok(u) => {
            let mut req = Request::new(u, Method::Create);
            req.set_body(
                JsonValue::Obj(
                    vec![
                        (String::from_str("name"), JsonValue::Str(String::from_str(name))),
                        (
                            String::from_str("size_gigabytes"),
                            JsonValue::Int(size_gigabytes as i64),
                        ),
                    ],
                ),
            );
            Ok(req)
        },
        Err(e) => Err(e),
    }
}

/// A get request for the volume with the given identifier.
pub fn get(id: &str) -> (r: Result<Request, Error>)
    ensures
        match r {
            Ok(req) => (spec_root_with("volumes"@) matches Some(b) && url_push(b, id@) == Some(
                req.spec_url()@,
            )) && req.spec_method() == Method::Get && req.spec_body() == JsonValue::Null,
            Err(e) => spec_root_child_refused("volumes"@, id@) && e is UrlParse,
        },
{
    match root_with("volumes") {
        Ok(u) => {
            match u.push_segment(id) {
                Ok(u2) => Ok(Request::new(u2, Method::Get)),
                Err(e) => Err(e),
            }
        },
        Err(e) => Err(e),
    }
}

/// What narrowing the volume collection by name and region does to the URL:
/// two query pairs appended in turn.
pub open spec fn spec_by_name_url(name: Seq<char>, region: Seq<char>) -> Option<Seq<char>> {
    match spec_root_with("volumes"@) {
        Some(b) => match url_query(b, "name"@, name) {
            Some(u) => url_query(u, "region"@, region),
            None => None,
        },
        None => None,
    }
}

/// Why narrowing by name and region may be refused at either appended
/// query pair.
pub open spec fn spec_by_name_refused(name: Seq<char>, region: Seq<char>) -> bool {
    spec_root_refused("volumes"@) || (spec_root_with("volumes"@) matches Some(b) && (
    query_may_refuse(b, "name"@, name) || (url_query(b, "name"@, name) matches Some(u)
        && query_may_refuse(u, "region"@, region))))
}

/// A get request for the volume with the given name in the given region.
pub fn get_by_name(name: &str, region: &str) -> (r: Result<Request, Error>)
    ensures
        match r {
            Ok(req) => spec_by_name_url(name@, region@) == Some(req.spec_url()@)
                && req.spec_method() == Method::Get && req.spec_body() == JsonValue::Null,
            Err(e) => spec_by_name_refused(name@, region@) && e is UrlParse,
        },
{
    match root_with("volumes") {
        Ok(u) => {
            match u.append_query("name", name) {
                Ok(u2) => {
                    match u2.append_query("region", region) {
                        Ok(u3) => Ok(Request::new(u3, Method::Get)),
                        Err(e) => Err(e),
                    }
                },
                Err(e) => Err(e),
            }
        },
        Err(e) => Err(e),
    }
}

/// A delete request for the volume with the given identifier.
pub fn delete(id: &str) -> (r: Result<Request, Error>)
    ensures
        match r {
            Ok(req) => (spec_root_with("volumes"@) matches Some(b) && url_push(b, id@) == Some(
                req.spec_url()@,
            )) && req.spec_method() == Method::Delete && req.spec_body() == JsonValue::Null,
            Err(e) => spec_root_child_refused("volumes"@, id@) && e is UrlParse,
        },
{
    match root_with("volumes") {
        Ok(u) => {
            match u.push_segment(id) {
                Ok(u2) => Ok(Request::new(u2, Method::Delete)),
                Err(e) => Err(e),
            }
        },
        Err(e) => Err(e),
    }
}

/// A delete request for the volume with the given name in the given region.
pub fn delete_by_name(name: &str, region: &str) -> (r: Result<Request, Error>)
    ensures
        match r {
            Ok(req) => spec_by_name_url(name@, region@) == Some(req.spec_url()@)
                && req.spec_method() == Method::Delete && req.spec_body() == JsonValue::Null,
            Err(e) => spec_by_name_refused(name@, region@) && e is UrlParse,
        },
{
    match root_with("volumes") {
        Ok(u) => {
            match u.append_query("name", name) {
                Ok(u2) => {
                    match u2.append_query("region", region) {
                        Ok(u3) => Ok(Request::new(u3, Method::Delete)),
                        Err(e) => Err(e),
                    }
                },
                Err(e) => Err(e),
            }
        },
        Err(e) => Err(e),
    }
}

impl Request {
    /// Narrows a volume list request to one region by a query parameter.
    pub fn region_filter(self, region: &str) -> (r: Result<Request, Error>)
        requires
            self.spec_method() is List,
        ensures
            match r {
                Ok(req) => url_query(self.spec_url()@, "region"@, region@) == Some(req.spec_url()@)
                    && req.spec_body() == self.spec_body() && req.spec_method()
                    == self.spec_method(),
                Err(e) => query_may_refuse(self.spec_url()@, "region"@, region@) && e is UrlParse,
            },
    {
        let Request { url, body, method } = self;
        match url.append_query("region", region) {
            Ok(u) => Ok(Request { url: u, body, method }),
            Err(e) => Err(e),
        }
    }

    /// Pivots a volume GET request to the list of the volume's snapshots:
    /// the URL gains a `snapshots` segment and the request is re-tagged as
    /// an unbounded list.
    pub fn snapshots(self) -> (r: Result<Request, Error>)
        requires
            self.spec_method() is Get,
        ensures
            match r {
                Ok(req) => url_push(self.spec_url()@, "snapshots"@) == Some(req.spec_url()@)
                    && req.spec_body() == self.spec_body() && req.spec_method() == (Method::List {
                    limit: None,
                }),
                Err(e) => push_may_refuse(self.spec_url()@, "snapshots"@) && e is UrlParse,
            },
    {
        let Request { url, body, method: _ } = self;
        match url.push_segment("snapshots") {
            Ok(u) => Ok(Request { url: u, body, method: Method::List { limit: None } }),
            Err(e) => Err(e),
        }
    }

    /// Pivots a volume GET request to creating a snapshot of the volume with
    /// the given name: the URL gains a `snapshots` segment, the body is
    /// replaced by the name, and the request is re-tagged as a create.
    pub fn snapshot(self, name: &str) -> (r: Result<Request, Error>)
        requires
            self.spec_method() is Get,
        ensures
            match r {
                Ok(req) => url_push(self.spec_url()@, "snapshots"@) == Some(req.spec_url()@)
                    && req.spec_method() == Method::Create && req.spec_body() is Obj && ({
                    let es = req.spec_body().obj_entries();
                    es.len() == 1 && es[0].0 == "name"@ && (es[0].1 matches JsonValue::Str(s) && s@
                        == name@)
                }),
                Err(e) => push_may_refuse(self.spec_url()@, "snapshots"@) && e is UrlParse,
            },
    {
        let Request { url, body: _, method: _ } = self;
        match url.push_segment("snapshots") {
            Ok(u) => {
                let body = JsonValue::Obj(
                    vec![(String::from_str("name"), JsonValue::Str(String::from_str(name)))],
                );
                Ok(Request { url: u, body, method: Method::Create })
            },
            Err(e) => Err(e),
        }
    }

    /// Sets the volume's free-form description field in the body.
    pub fn description(self, val: &str) -> (r: Request)
        requires
            self.spec_body() is Null || self.spec_body() is Obj,
        ensures
            r.spec_url() == self.spec_url(),
            r.spec_method() == self.spec_method(),
            r.spec_body() is Obj,
            exists|s: String| #![auto]
                s@ == val@ && r.spec_body().obj_entries() == store(
                    self.spec_body().obj_entries(),
                    "description"@,
                    JsonValue::Str(s),
                ),
    {
        let mut this = self;
        this.body.set_field("description", JsonValue::Str(String::from_str(val)));
        this
    }

    /// Sets the region slug the volume will be created in; not to be
    /// combined with a snapshot identifier.
    pub fn region(self, val: &str) -> (r: Request)
        requires
            self.spec_body() is Null || self.spec_body() is Obj,
        ensures
            r.spec_url() == self.spec_url(),
            r.spec_method() == self.spec_method(),
            r.spec_body() is Obj,
            exists|s: String| #![auto]
                s@ == val@ && r.spec_body().obj_entries() == store(
                    self.spec_body().obj_entries(),
                    "region"@,
                    JsonValue::Str(s),
                ),
    {
        let mut this = self;
        this.body.set_field("region", JsonValue::Str(String::from_str(val)));
        this
    }

    /// Sets the identifier of the volume snapshot to create the volume from;
    /// not to be combined with a region.
    pub fn snapshot_id(self, val: &str) -> (r: Request)
        requires
            self.spec_body() is Null || self.spec_body() is Obj,
        ensures
            r.spec_url() == self.spec_url(),
            r.spec_method() == self.spec_method(),
            r.spec_body() is Obj,
            exists|s: String| #![auto]
                s@ == val@ && r.spec_body().obj_entries() == store(
                    self.spec_body().obj_entries(),
                    "snapshot_id"@,
                    JsonValue::Str(s),
                ),
    {
        let mut this = self;
        this.body.set_field("snapshot_id", JsonValue::Str(String::from_str(val)));
        this
    }
}

} // verus!
