//! Tags: labels that can be applied to resources to organize lookups and
//! actions on them.

use crate::api::{root_with, spec_root_child_refused, spec_root_refused, spec_root_with, spec_unwrap_singular, unwrap_singular};
use crate::endpoint::{push_may_refuse, url_push};
use crate::error::Error;
use crate::json::{entries, find_key, lookup, JsonValue};
use crate::method::Method;
use crate::request::Request;
use vstd::prelude::*;
use vstd::string::StringExecFns;

verus! {

/// A tag: a user-defined name next to an embedded object with statistics
/// about the resources that carry it.
#[derive(Debug, PartialEq, Eq)]
pub struct Tag {
    /// The tag's name.
    pub name: String,
    /// Key-value pairs of resource type and resource statistics, kept as the
    /// provider sent them.
    pub resources: JsonValue,
}

impl Tag {
    /// What decoding a JSON value into a tag yields: a text `name` and a
    /// `resources` field kept verbatim.
    pub open spec fn spec_from_json(v: JsonValue) -> Result<Tag, ()> {
        let es = v.obj_entries();
        if v !is Obj {
            Err(())
        } else {
            match (lookup(es, "name"@), lookup(es, "resources"@)) {
                (Some(JsonValue::Str(name)), Some(resources)) => Ok(Tag { name, resources }),
                _ => Err(()),
            }
        }
    }

    /// Decodes a JSON value into a tag; a value without the two fields is
    /// handed back inside the error.
    pub fn from_json(v: JsonValue) -> (r: Result<Tag, Error>)
        ensures
            match (r, Tag::spec_from_json(v)) {
                (Ok(a), Ok(b)) => a == b,
                (Err(e), Err(())) => e == Error::Malformed(v),
                _ => false,
            },
    {
        match v {
            JsonValue::Obj(mut fields) => {
                let name = match find_key(&fields, "name") {
                    Some(i) => {
                        match &fields[i].1 {
                            JsonValue::Str(s) => s.clone(),
                            _ => {
                                return Err(Error::Malformed(JsonValue::Obj(fields)));
                            },
                        }
                    },
                    None => {
                        return Err(Error::Malformed(JsonValue::Obj(fields)));
                    },
                };
                match find_key(&fields, "resources") {
                    Some(i) => {
                        let (_key, resources) = fields.remove(i);
                        Ok(Tag { name, resources })
                    },
                    None => Err(Error::Malformed(JsonValue::Obj(fields))),
                }
            },
            other => Err(Error::Malformed(other)),
        }
    }

    /// A creation request for a new tag with the given name.
    pub fn create(name: &str) -> (r: Result<Request, Error>)
        ensures
            match r {
                Ok(req) => spec_root_with("tags"@) == Some(req.spec_url()@) && req.spec_method()
                    == Method::Create && req.spec_body() is Obj && ({
                    let es = req.spec_body().obj_entries();
                    es.len() == 1 && es[0].0 == "name"@ && (es[0].1 matches JsonValue::Str(s) && s@
                        == name@)
                }),
                Err(e) => spec_root_refused("tags"@) && e is UrlParse,
            },
    {
        match root_with("tags") {
            Ok(u) => {
                let body = JsonValue::Obj(
                    vec![(String::from_str("name"), JsonValue::Str(String::from_str(name)))],
                );
                let mut req = Request::new(u, Method::Create);
                req.set_body(body);
                Ok(req)
            },
            Err(e) => Err(e),
        }
    }

    /// A get request for the tag with the given name.
    pub fn get(name: &str) -> (r: Result<Request, Error>)
        ensures
            match r {
                Ok(req) => (spec_root_with("tags"@) matches Some(b) && url_push(b, name@) == Some(
                    req.spec_url()@,
                )) && req.spec_method() == Method::Get && req.spec_body() == JsonValue::Null,
                Err(e) => spec_root_child_refused("tags"@, name@) && e is UrlParse,
            },
    {
        match root_with("tags") {
            Ok(u) => {
                match u.push_segment(name) {
                    Ok(u2) => Ok(Request::new(u2, Method::Get)),
                    Err(e) => Err(e),
                }
            },
            Err(e) => Err(e),
        }
    }

    /// An unbounded list request for every tag.
    pub fn list() -> (r: Result<Request, Error>)
        ensures
            match r {
                Ok(req) => spec_root_with("tags"@) == Some(req.spec_url()@) && req.spec_body()
                    == JsonValue::Null && req.spec_method() == (Method::List { limit: None }),
                Err(e) => spec_root_refused("tags"@) && e is UrlParse,
            },
    {
        match root_with("tags") {
            Ok(u) => Ok(Request::new(u, Method::List { limit: None })),
            Err(e) => Err(e),
        }
    }

    /// A delete request for the tag with the given name.
    pub fn delete(name: &str) -> (r: Result<Request, Error>)
        ensures
            match r {
                Ok(req) => (spec_root_with("tags"@) matches Some(b) && url_push(b, name@) == Some(
                    req.spec_url()@,
                )) && req.spec_method() == Method::Delete && req.spec_body() == JsonValue::Null,
                Err(e) => spec_root_child_refused("tags"@, name@) && e is UrlParse,
            },
    {
        match root_with("tags") {
            Ok(u) => {
                match u.push_segment(name) {
                    Ok(u2) => Ok(Request::new(u2, Method::Delete)),
                    Err(e) => Err(e),
                }
            },
            Err(e) => Err(e),
        }
    }
}

/// One element of a tagging payload: an object naming a resource by
/// identifier and type.
pub open spec fn resource_entry(v: JsonValue, p: (String, String)) -> bool {
    v matches JsonValue::Obj(fs) && ({
        let es = entries(fs@);
        &&& es.len() == 2
        &&& es[0].0 == "resource_id"@
        &&& es[0].1 == JsonValue::Str(p.0)
        &&& es[1].0 == "resource_type"@
        &&& es[1].1 == JsonValue::Str(p.1)
    })
}

/// A tagging body: a single `resources` field holding one entry per handed
/// pair, in order.
pub open spec fn resources_body(body: JsonValue, rs: Seq<(String, String)>) -> bool {
    &&& body is Obj
    &&& body.obj_entries().len() == 1
    &&& body.obj_entries()[0].0 == "resources"@
    &&& (body.obj_entries()[0].1 matches JsonValue::Arr(items) && items@.len() == rs.len() && (
    forall|i: int| 0 <= i < rs.len() ==> resource_entry(items@[i], rs[i])))
}

/// Builds the tagging payload out of `(identifier, type)` pairs.
fn resources_payload(resources: Vec<(String, String)>) -> (r: JsonValue)
    ensures
        resources_body(r, resources@),
{
    let ghost orig = resources@;
    let mut resources = resources;
    let total = resources.len();
    proof {
        assert(orig.len() == total);
    }
    let mut items: Vec<JsonValue> = Vec::new();
    let mut i: usize = 0;
    while resources.len() > 0
        invariant
            orig.len() <= usize::MAX,
            i + resources@.len() == orig.len(),
            resources@ == orig.skip(i as int),
            items@.len() == i,
            forall|k: int| 0 <= k < i ==> resource_entry(items@[k], orig[k]),
        decreases resources@.len(),
    {
        let (id, kind) = resources.remove(0);
        let entry_fields = vec![
            (String::from_str("resource_id"), JsonValue::Str(id)),
            (String::from_str("resource_type"), JsonValue::Str(kind)),
        ];
        proof {
            assert(entries(entry_fields@) =~= seq![
                ("resource_id"@, entry_fields@[0].1),
                ("resource_type"@, entry_fields@[1].1),
            ]);
        }
        let entry = JsonValue::Obj(entry_fields);
        proof {
            assert(resource_entry(entry, orig[i as int]));
        }
        items.push(entry);
        i = i + 1;
        proof {
            assert(resources@ =~= orig.skip(i as int));
        }
    }
    let body = JsonValue::Obj(vec![(String::from_str("resources"), JsonValue::Arr(items))]);
    proof {
        assert(resources@.len() == 0);
        assert(items@.len() == orig.len());
    }
    body
}

impl Request {
    /// Pivots a tag GET request to tagging the given resources, each a
    /// `(identifier, type)` pair: the URL gains a `resources` segment, the
    /// body lists the pairs, and the request is re-tagged as a create.
    pub fn add_resources(self, resources: Vec<(String, String)>) -> (r: Result<Request, Error>)
        requires
            self.spec_method() is Get,
        ensures
            match r {
                Ok(req) => url_push(self.spec_url()@, "resources"@) == Some(req.spec_url()@)
                    && req.spec_method() == Method::Create && resources_body(
                    req.spec_body(),
                    resources@,
                ),
                Err(e) => push_may_refuse(self.spec_url()@, "resources"@) && e is UrlParse,
            },
    {
        let Request { url, body: _, method: _ } = self;
        match url.push_segment("resources") {
            Ok(u) => Ok(Request { url: u, body: resources_payload(resources), method: Method::Create }),
            Err(e) => Err(e),
        }
    }

    /// Pivots a tag GET request to untagging the given resources, each a
    /// `(identifier, type)` pair: the URL gains a `resources` segment, the
    /// body lists the pairs, and the request is re-tagged as a delete.
    pub fn remove_resources(self, resources: Vec<(String, String)>) -> (r: Result<Request, Error>)
        requires
            self.spec_method() is Get,
        ensures
            match r {
                Ok(req) => url_push(self.spec_url()@, "resources"@) == Some(req.spec_url()@)
                    && req.spec_method() == Method::Delete && resources_body(
                    req.spec_body(),
                    resources@,
                ),
                Err(e) => push_may_refuse(self.spec_url()@, "resources"@) && e is UrlParse,
            },
    {
        let Request { url, body: _, method: _ } = self;
        match url.push_segment("resources") {
            Ok(u) => Ok(Request { url: u, body: resources_payload(resources), method: Method::Delete }),
            Err(e) => Err(e),
        }
    }
}

/// The singular envelope around one tag.
#[derive(Debug, PartialEq, Eq)]
pub struct TagResponse {
    pub tag: Tag,
}

impl TagResponse {
    /// Unwraps a response body holding one tag under `tag` and decodes it.
    pub fn from_json(body: JsonValue) -> (r: Result<TagResponse, Error>)
        ensures
            ({
                match spec_unwrap_singular(body, "tag"@) {
                    Ok(v) => match Tag::spec_from_json(v) {
                        Ok(tag) => r == Ok::<TagResponse, Error>((TagResponse { tag })),
                        Err(()) => r == Err::<TagResponse, Error>(Error::Malformed(v)),
                    },
                    Err(e) => r == Err::<TagResponse, Error>(e),
                }
            }),
    {
        match unwrap_singular(body, "tag") {
            Ok(v) => {
                match Tag::from_json(v) {
                    Ok(tag) => Ok(TagResponse { tag }),
                    Err(e) => Err(e),
                }
            },
            Err(e) => Err(e),
        }
    }

    /// The tag the envelope wraps.
    pub fn value(self) -> (r: Tag)
        ensures
            r == self.tag,
    {
        self.tag
    }
}

} // verus!
