//! Response envelope mapping and unwrapping.
//!
//! The provider wraps every substantive value in a JSON envelope: a singular
//! response holds the value under one named field, a list response holds an
//! ordered page of values under a named field next to a `links` block (with
//! the pagination cursor) and a `meta` block (with the total count across
//! pages). Each executable result type declares exactly one envelope
//! mapping; unwrapping is total for well-formed input and fails with a
//! structural-mismatch error otherwise.

pub mod custom_image;
pub mod domain_record;
pub mod floating_ip;
pub mod region;
pub mod size;
pub mod tag;
pub mod volume;

use crate::endpoint::{push_may_refuse, url_norm, url_push, ApiUrl};
use crate::error::Error;
use crate::json::{entries, find_key, lookup, JsonValue};
use vstd::prelude::*;

verus! {

/// Most items a provider-defined page may contain; the pipeline only passes
/// it through to URL construction done by resource modules.
pub const MAX_PER_PAGE: usize = 200;

/// How a result type's envelope is shaped: no value at all (delete), one
/// value under a named field, or a paged sequence of values under a named
/// field.
#[derive(Debug, PartialEq, Eq)]
pub enum EnvelopeMapping {
    Unit,
    Singular { field: String },
    Paged { field: String },
}

/// The provider's base URL extended with one resource path segment, when
/// the base parses and takes one.
pub open spec fn spec_root_with(segment: Seq<char>) -> Option<Seq<char>> {
    match url_norm(crate::ROOT_URL@) {
        Some(base) => url_push(base, segment),
        None => None,
    }
}

/// Why extending the base URL by a resource segment may be refused: the
/// base does not parse, the url crate rejects the push, or the rebuilt text
/// could overrun the crate's 32-bit serialization limit.
pub open spec fn spec_root_refused(segment: Seq<char>) -> bool {
    match url_norm(crate::ROOT_URL@) {
        Some(base) => push_may_refuse(base, segment),
        None => true,
    }
}

/// Why extending the base URL by a collection segment and then a child
/// segment may be refused.
pub open spec fn spec_root_child_refused(segment: Seq<char>, child: Seq<char>) -> bool {
    spec_root_refused(segment) || (spec_root_with(segment) matches Some(b) && push_may_refuse(
        b,
        child,
    ))
}

/// The base URL with one resource segment appended: the starting point of
/// every resource module's requests.
pub fn root_with(segment: &str) -> (r: Result<ApiUrl, Error>)
    ensures
        match r {
            Ok(u) => spec_root_with(segment@) == Some(u@),
            Err(e) => spec_root_refused(segment@) && e is UrlParse,
        },
{
    match ApiUrl::parse(crate::ROOT_URL) {
        Ok(base) => base.push_segment(segment),
        Err(e) => Err(e),
    }
}

/// What unwrapping a singular envelope yields: the value under `key`, or a
/// structural mismatch carrying the offending body.
pub open spec fn spec_unwrap_singular(body: JsonValue, key: Seq<char>) -> Result<JsonValue, Error> {
    match lookup(body.obj_entries(), key) {
        Some(v) => Ok(v),
        None => Err(Error::Malformed(body)),
    }
}

/// The pagination cursor inside a `links` block: absent or null blocks mean
/// no further page; a non-object block or a non-text cursor is a structural
/// mismatch.
pub open spec fn spec_links_next(links: JsonValue) -> Result<Option<String>, ()> {
    if links !is Obj {
        Err(())
    } else {
        match lookup(links.obj_entries(), "pages"@) {
            None => Ok(None),
            Some(JsonValue::Null) => Ok(None),
            Some(JsonValue::Obj(pf)) => match lookup(entries(pf@), "next"@) {
                None => Ok(None),
                Some(JsonValue::Null) => Ok(None),
                Some(JsonValue::Str(s)) => Ok(Some(s)),
                Some(_) => Err(()),
            },
            Some(_) => Err(()),
        }
    }
}

/// The total count inside a `meta` block; anything but a non-negative
/// integer under `total` is a structural mismatch.
pub open spec fn spec_meta_total(meta: JsonValue) -> Result<u64, ()> {
    if meta !is Obj {
        Err(())
    } else {
        match lookup(meta.obj_entries(), "total"@) {
            Some(JsonValue::Int(t)) => if t >= 0 {
                Ok(t as u64)
            } else {
                Err(())
            },
            _ => Err(()),
        }
    }
}

/// What unwrapping a list envelope yields: the page's values in order, the
/// optional cursor to the next page, and the provider's total count.
pub open spec fn spec_unwrap_list(body: JsonValue, key: Seq<char>) -> Result<
    (Seq<JsonValue>, Option<String>, u64),
    Error,
> {
    let es = body.obj_entries();
    match lookup(es, key) {
        Some(JsonValue::Arr(items)) => match lookup(es, "links"@) {
            Some(links) => match spec_links_next(links) {
                Ok(next) => match lookup(es, "meta"@) {
                    Some(meta) => match spec_meta_total(meta) {
                        Ok(total) => Ok((items@, next, total)),
                        Err(()) => Err(Error::Malformed(body)),
                    },
                    None => Err(Error::Malformed(body)),
                },
                Err(()) => Err(Error::Malformed(body)),
            },
            None => Err(Error::Malformed(body)),
        },
        _ => Err(Error::Malformed(body)),
    }
}

/// Strips a singular envelope down to the value under `field`.
pub fn unwrap_singular(body: JsonValue, field: &str) -> (r: Result<JsonValue, Error>)
    ensures
        r == spec_unwrap_singular(body, field@),
{
    match body {
        JsonValue::Obj(mut fields) => {
            match find_key(&fields, field) {
                Some(i) => {
                    let (_key, value) = fields.remove(i);
                    Ok(value)
                },
                None => Err(Error::Malformed(JsonValue::Obj(fields))),
            }
        },
        other => Err(Error::Malformed(other)),
    }
}

/// Reads the pagination cursor out of a `links` block.
fn links_next(links: &JsonValue) -> (r: Result<Option<String>, ()>)
    ensures
        r == spec_links_next(*links),
{
    match links {
        JsonValue::Obj(lf) => {
            match find_key(lf, "pages") {
                None => Ok(None),
                Some(pi) => {
                    match &lf[pi].1 {
                        JsonValue::Null => Ok(None),
                        JsonValue::Obj(pf) => {
                            match find_key(pf, "next") {
                                None => Ok(None),
                                Some(ni) => {
                                    match &pf[ni].1 {
                                        JsonValue::Null => Ok(None),
                                        JsonValue::Str(s) => Ok(Some(s.clone())),
                                        _ => Err(()),
                                    }
                                },
                            }
                        },
                        _ => Err(()),
                    }
                },
            }
        },
        _ => Err(()),
    }
}

/// Reads the total count out of a `meta` block.
fn meta_total(meta: &JsonValue) -> (r: Result<u64, ()>)
    ensures
        r == spec_meta_total(*meta),
{
    match meta {
        JsonValue::Obj(mf) => {
            match find_key(mf, "total") {
                Some(ti) => {
                    match &mf[ti].1 {
                        JsonValue::Int(t) => if *t >= 0 {
                            Ok(*t as u64)
                        } else {
                            Err(())
                        },
                        _ => Err(()),
                    }
                },
                None => Err(()),
            }
        },
        _ => Err(()),
    }
}

/// Strips a list envelope down to the page's values, the cursor to the next
/// page, and the provider's total count.
pub fn unwrap_list(body: JsonValue, field: &str) -> (r: Result<
    (Vec<JsonValue>, Option<String>, u64),
    Error,
>)
    ensures
        ({
            let s = spec_unwrap_list(body, field@);
            match (r, s) {
                (Ok(a), Ok(b)) => a.0@ == b.0 && a.1 == b.1 && a.2 == b.2,
                (Err(e), Err(f)) => e == f,
                _ => false,
            }
        }),
{
    match body {
        JsonValue::Obj(mut fields) => {
            let idx = match find_key(&fields, field) {
                Some(i) => i,
                None => {
                    return Err(Error::Malformed(JsonValue::Obj(fields)));
                },
            };
            let field_is_page = matches!(&fields[idx].1, JsonValue::Arr(_));
            if !field_is_page {
                return Err(Error::Malformed(JsonValue::Obj(fields)));
            }
            let next = match find_key(&fields, "links") {
                Some(li) => {
                    match links_next(&fields[li].1) {
                        Ok(n) => n,
                        Err(()) => {
                            return Err(Error::Malformed(JsonValue::Obj(fields)));
                        },
                    }
                },
                None => {
                    return Err(Error::Malformed(JsonValue::Obj(fields)));
                },
            };
            let total = match find_key(&fields, "meta") {
                Some(mi) => {
                    match meta_total(&fields[mi].1) {
                        Ok(t) => t,
                        Err(()) => {
                            return Err(Error::Malformed(JsonValue::Obj(fields)));
                        },
                    }
                },
                None => {
                    return Err(Error::Malformed(JsonValue::Obj(fields)));
                },
            };
            let (_key, page) = fields.remove(idx);
            match page {
                JsonValue::Arr(items) => Ok((items, next, total)),
                _ => {
                    proof {
                        assert(false);
                    }
                    Err(Error::KindMismatch)
                },
            }
        },
        other => Err(Error::Malformed(other)),
    }
}

} // verus!
