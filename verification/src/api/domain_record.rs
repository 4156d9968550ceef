//! Domain records: the individual DNS records configured for a domain.
//!
//! Requests for domain records grow out of a domain request: its URL gains a
//! `records` segment, then an optional record identifier, and the builder is
//! re-tagged for the child endpoint.

use crate::api::spec_unwrap_singular;
use crate::api::unwrap_singular;
use crate::endpoint::{dec_rep, format_usize, push_may_refuse, url_push};
use crate::error::Error;
use crate::json::{
    opt_usize_field, spec_opt_usize_field, spec_string_field, spec_usize_field, store,
    string_field, usize_field, JsonValue,
};
use crate::method::Method;
use crate::request::Request;
use vstd::prelude::*;
use vstd::string::StringExecFns;

verus! {

/// One DNS record of a domain.
#[derive(Debug, PartialEq, Eq)]
pub struct DomainRecord {
    /// A unique identifier for each domain record.
    pub id: usize,
    /// The type of the DNS record (A, CNAME, TXT, ...); the wire field is
    /// named `type`.
    pub kind: String,
    /// The name to use for the DNS record.
    pub name: String,
    /// The value to use for the DNS record.
    pub data: String,
    /// The priority for SRV and MX records.
    pub priority: Option<usize>,
    /// The port for SRV records.
    pub port: Option<usize>,
    /// The time to live for the record, in seconds.
    pub ttl: usize,
    /// The weight for SRV records.
    pub weight: Option<usize>,
}

impl DomainRecord {
    /// What decoding a JSON value into a record yields: every required field
    /// present with the right type, optional fields absent, null or typed.
    pub open spec fn spec_from_json(v: JsonValue) -> Result<DomainRecord, ()> {
        let es = v.obj_entries();
        if v !is Obj {
            Err(())
        } else {
            match (spec_usize_field(es, "id"@), spec_string_field(es, "type"@), spec_string_field(
                es,
                "name"@,
            ), spec_string_field(es, "data"@)) {
                (Ok(id), Ok(kind), Ok(name), Ok(data)) => {
                    match (spec_opt_usize_field(es, "priority"@), spec_opt_usize_field(es, "port"@),
                    spec_usize_field(es, "ttl"@), spec_opt_usize_field(es, "weight"@)) {
                        (Ok(priority), Ok(port), Ok(ttl), Ok(weight)) => Ok(
                            DomainRecord { id, kind, name, data, priority, port, ttl, weight },
                        ),
                        _ => Err(()),
                    }
                },
                _ => Err(()),
            }
        }
    }

    /// Decodes a JSON value into a record.
    pub fn from_json(v: &JsonValue) -> (r: Result<DomainRecord, ()>)
        ensures
            r == DomainRecord::spec_from_json(*v),
    {
        match v {
            JsonValue::Obj(fields) => {
                let id = match usize_field(fields, "id") {
                    Ok(x) => x,
                    Err(()) => {
                        return Err(());
                    },
                };
                let kind = match string_field(fields, "type") {
                    Ok(x) => x,
                    Err(()) => {
                        return Err(());
                    },
                };
                let name = match string_field(fields, "name") {
                    Ok(x) => x,
                    Err(()) => {
                        return Err(());
                    },
                };
                let data = match string_field(fields, "data") {
                    Ok(x) => x,
                    Err(()) => {
                        return Err(());
                    },
                };
                let priority = match opt_usize_field(fields, "priority") {
                    Ok(x) => x,
                    Err(()) => {
                        return Err(());
                    },
                };
                let port = match opt_usize_field(fields, "port") {
                    Ok(x) => x,
                    Err(()) => {
                        return Err(());
                    },
                };
                let ttl = match usize_field(fields, "ttl") {
                    Ok(x) => x,
                    Err(()) => {
                        return Err(());
                    },
                };
                let weight = match opt_usize_field(fields, "weight") {
                    Ok(x) => x,
                    Err(()) => {
                        return Err(());
                    },
                };
                Ok(DomainRecord { id, kind, name, data, priority, port, ttl, weight })
            },
            _ => Err(()),
        }
    }

    /// Decodes a whole page of values, as a list run gathers them; one value
    /// that does not decode fails the page.
    pub fn from_json_list(values: &Vec<JsonValue>) -> (r: Result<Vec<DomainRecord>, ()>)
        ensures
            match r {
                Ok(records) => all_records_decode(values@) && records@.len() == values@.len() && (
                forall|i: int|
                    0 <= i < values@.len() ==> Ok::<DomainRecord, ()>(records@[i])
                        == DomainRecord::spec_from_json(values@[i])),
                Err(()) => !all_records_decode(values@),
            },
    {
        let n = values.len();
        let mut records: Vec<DomainRecord> = Vec::new();
        let mut i: usize = 0;
        while i < n
            invariant
                n == values@.len(),
                i <= n,
                records@.len() == i,
                forall|k: int|
                    0 <= k < i ==> Ok::<DomainRecord, ()>(records@[k])
                        == DomainRecord::spec_from_json(values@[k]),
            decreases n - i,
        {
            match DomainRecord::from_json(&values[i]) {
                Ok(record) => {
                    records.push(record);
                },
                Err(()) => {
                    proof {
                        assert(!all_records_decode(values@)) by {
                            assert(DomainRecord::spec_from_json(values@[i as int]) is Err);
                        }
                    }
                    return Err(());
                },
            }
            i = i + 1;
        }
        Ok(records)
    }
}

/// Whether every value of a page decodes into a record.
pub open spec fn all_records_decode(items: Seq<JsonValue>) -> bool {
    forall|i: int| 0 <= i < items.len() ==> DomainRecord::spec_from_json(items[i]) is Ok
}

/// The singular envelope around one domain record.
#[derive(Debug, PartialEq, Eq)]
pub struct DomainRecordResponse {
    pub domain_record: DomainRecord,
}

impl DomainRecordResponse {
    /// Unwraps a response body holding one record under `domain_record` and
    /// decodes it.
    pub fn from_json(body: JsonValue) -> (r: Result<DomainRecordResponse, Error>)
        ensures
            ({
                match spec_unwrap_singular(body, "domain_record"@) {
                    Ok(v) => match DomainRecord::spec_from_json(v) {
                        Ok(rec) => r == Ok::<DomainRecordResponse, Error>(
                            (DomainRecordResponse { domain_record: rec }),
                        ),
                        Err(()) => r == Err::<DomainRecordResponse, Error>(Error::Malformed(v)),
                    },
                    Err(e) => r == Err::<DomainRecordResponse, Error>(e),
                }
            }),
    {
        match unwrap_singular(body, "domain_record") {
            Ok(v) => {
                match DomainRecord::from_json(&v) {
                    Ok(rec) => Ok(DomainRecordResponse { domain_record: rec }),
                    Err(()) => Err(Error::Malformed(v)),
                }
            },
            Err(e) => Err(e),
        }
    }

    /// The record the envelope wraps.
    pub fn value(self) -> (r: DomainRecord)
        ensures
            r == self.domain_record,
    {
        self.domain_record
    }
}

impl Request {
    /// Pivots a domain GET request to the list of that domain's records: the
    /// URL gains a `records` segment and the request is re-tagged as an
    /// unbounded list.
    pub fn records(self) -> (r: Result<Request, Error>)
        requires
            self.spec_method() is Get,
        ensures
            match r {
                Ok(req) => url_push(self.spec_url()@, "records"@) == Some(req.spec_url()@)
                    && req.spec_body() == self.spec_body() && req.spec_method() == (Method::List {
                    limit: None,
                }),
                Err(e) => push_may_refuse(self.spec_url()@, "records"@) && e is UrlParse,
            },
    {
        let Request { url, body, method: _ } = self;
        match url.push_segment("records") {
            Ok(u) => Ok(Request { url: u, body, method: Method::List { limit: None } }),
            Err(e) => Err(e),
        }
    }

    /// Builds a creation request for a new record of the given type, name
    /// and data under the same endpoint: the body is replaced by exactly
    /// those three fields.
    pub fn create(self, kind: &str, name: &str, data: &str) -> (r: Request)
        requires
            self.spec_method() is List,
        ensures
            r.spec_url() == self.spec_url(),
            r.spec_method() == Method::Create,
            r.spec_body() is Obj,
            ({
                let es = r.spec_body().obj_entries();
                &&& es.len() == 3
                &&& es[0].0 == "type"@ && (es[0].1 matches JsonValue::Str(s) && s@ == kind@)
                &&& es[1].0 == "name"@ && (es[1].1 matches JsonValue::Str(s) && s@ == name@)
                &&& es[2].0 == "data"@ && (es[2].1 matches JsonValue::Str(s) && s@ == data@)
            }),
    {
        let body = JsonValue::Obj(
            vec![
                (String::from_str("type"), JsonValue::Str(String::from_str(kind))),
                (String::from_str("name"), JsonValue::Str(String::from_str(name))),
                (String::from_str("data"), JsonValue::Str(String::from_str(data))),
            ],
        );
        Request { url: self.url, body, method: Method::Create }
    }

    /// Narrows a record list request to one record by its identifier,
    /// re-tagged as a get.
    pub fn get(self, id: usize) -> (r: Result<Request, Error>)
        requires
            self.spec_method() is List,
        ensures
            match r {
                Ok(req) => url_push(self.spec_url()@, dec_rep(id as nat)) == Some(req.spec_url()@)
                    && req.spec_body() == self.spec_body() && req.spec_method() == Method::Get,
                Err(e) => push_may_refuse(self.spec_url()@, dec_rep(id as nat)) && e is UrlParse,
            },
    {
        let Request { url, body, method: _ } = self;
        let segment = format_usize(id);
        match url.push_segment(segment.as_str()) {
            Ok(u) => Ok(Request { url: u, body, method: Method::Get }),
            Err(e) => Err(e),
        }
    }

    /// Narrows a record list request to one record by its identifier,
    /// re-tagged as an update.
    pub fn update(self, id: usize) -> (r: Result<Request, Error>)
        requires
            self.spec_method() is List,
        ensures
            match r {
                Ok(req) => url_push(self.spec_url()@, dec_rep(id as nat)) == Some(req.spec_url()@)
                    && req.spec_body() == self.spec_body() && req.spec_method() == Method::Update,
                Err(e) => push_may_refuse(self.spec_url()@, dec_rep(id as nat)) && e is UrlParse,
            },
    {
        let Request { url, body, method: _ } = self;
        let segment = format_usize(id);
        match url.push_segment(segment.as_str()) {
            Ok(u) => Ok(Request { url: u, body, method: Method::Update }),
            Err(e) => Err(e),
        }
    }

    /// Narrows a record list request to one record by its identifier,
    /// re-tagged as a delete.
    pub fn delete(self, id: usize) -> (r: Result<Request, Error>)
        requires
            self.spec_method() is List,
        ensures
            match r {
                Ok(req) => url_push(self.spec_url()@, dec_rep(id as nat)) == Some(req.spec_url()@)
                    && req.spec_body() == self.spec_body() && req.spec_method() == Method::Delete,
                Err(e) => push_may_refuse(self.spec_url()@, dec_rep(id as nat)) && e is UrlParse,
            },
    {
        let Request { url, body, method: _ } = self;
        let segment = format_usize(id);
        match url.push_segment(segment.as_str()) {
            Ok(u) => Ok(Request { url: u, body, method: Method::Delete }),
            Err(e) => Err(e),
        }
    }

    /// Sets the record's priority field in the body (SRV and MX records).
    pub fn priority(self, val: Option<usize>) -> (r: Request)
        requires
            self.spec_body() is Null || self.spec_body() is Obj,
            val matches Some(n) ==> n as int <= i64::MAX as int,
        ensures
            r.spec_url() == self.spec_url(),
            r.spec_method() == self.spec_method(),
            r.spec_body() is Obj,
            r.spec_body().obj_entries() == store(
                self.spec_body().obj_entries(),
                "priority"@,
                spec_json_opt_usize(val),
            ),
    {
        let mut this = self;
        this.body.set_field("priority", json_opt_usize(val));
        this
    }

    /// Sets the record's port field in the body (SRV records).
    pub fn port(self, val: Option<usize>) -> (r: Request)
        requires
            self.spec_body() is Null || self.spec_body() is Obj,
            val matches Some(n) ==> n as int <= i64::MAX as int,
        ensures
            r.spec_url() == self.spec_url(),
            r.spec_method() == self.spec_method(),
            r.spec_body() is Obj,
            r.spec_body().obj_entries() == store(
                self.spec_body().obj_entries(),
                "port"@,
                spec_json_opt_usize(val),
            ),
    {
        let mut this = self;
        this.body.set_field("port", json_opt_usize(val));
        this
    }

    /// Sets the record's time-to-live field in the body, in seconds.
    pub fn ttl(self, val: usize) -> (r: Request)
        requires
            self.spec_body() is Null || self.spec_body() is Obj,
            val as int <= i64::MAX as int,
        ensures
            r.spec_url() == self.spec_url(),
            r.spec_method() == self.spec_method(),
            r.spec_body() is Obj,
            r.spec_body().obj_entries() == store(
                self.spec_body().obj_entries(),
                "ttl"@,
                JsonValue::Int(val as i64),
            ),
    {
        let mut this = self;
        this.body.set_field("ttl", JsonValue::Int(val as i64));
        this
    }

    /// Sets the record's weight field in the body (SRV records).
    pub fn weight(self, val: Option<usize>) -> (r: Request)
        requires
            self.spec_body() is Null || self.spec_body() is Obj,
            val matches Some(n) ==> n as int <= i64::MAX as int,
        ensures
            r.spec_url() == self.spec_url(),
            r.spec_method() == self.spec_method(),
            r.spec_body() is Obj,
            r.spec_body().obj_entries() == store(
                self.spec_body().obj_entries(),
                "weight"@,
                spec_json_opt_usize(val),
            ),
    {
        let mut this = self;
        this.body.set_field("weight", json_opt_usize(val));
        this
    }

    /// Sets the record's type field in the body (A, MX, CNAME, ...); the
    /// wire field is named `type`.
    pub fn kind(self, val: &str) -> (r: Request)
        requires
            self.spec_body() is Null || self.spec_body() is Obj,
        ensures
            r.spec_url() == self.spec_url(),
            r.spec_method() == self.spec_method(),
            r.spec_body() is Obj,
            exists|s: String| #![auto]
                s@ == val@ && r.spec_body().obj_entries() == store(
                    self.spec_body().obj_entries(),
                    "type"@,
                    JsonValue::Str(s),
                ),
    {
        let mut this = self;
        this.body.set_field("type", JsonValue::Str(String::from_str(val)));
        this
    }

    /// Sets the record's name field in the body: the host name, alias or
    /// service being defined.
    pub fn name(self, val: &str) -> (r: Request)
        requires
            self.spec_body() is Null || self.spec_body() is Obj,
        ensures
            r.spec_url() == self.spec_url(),
            r.spec_method() == self.spec_method(),
            r.spec_body() is Obj,
            exists|s: String| #![auto]
                s@ == val@ && r.spec_body().obj_entries() == store(
                    self.spec_body().obj_entries(),
                    "name"@,
                    JsonValue::Str(s),
                ),
    {
        let mut this = self;
        this.body.set_field("name", JsonValue::Str(String::from_str(val)));
        this
    }

    /// Sets the record's data field in the body: variable data depending on
    /// the record type.
    pub fn data(self, val: &str) -> (r: Request)
        requires
            self.spec_body() is Null || self.spec_body() is Obj,
        ensures
            r.spec_url() == self.spec_url(),
            r.spec_method() == self.spec_method(),
            r.spec_body() is Obj,
            exists|s: String| #![auto]
                s@ == val@ && r.spec_body().obj_entries() == store(
                    self.spec_body().obj_entries(),
                    "data"@,
                    JsonValue::Str(s),
                ),
    {
        let mut this = self;
        this.body.set_field("data", JsonValue::Str(String::from_str(val)));
        this
    }
}

/// The JSON encoding of an optional count: a number, or null for none.
pub open spec fn spec_json_opt_usize(val: Option<usize>) -> JsonValue {
    match val {
        Some(n) => JsonValue::Int(n as i64),
        None => JsonValue::Null,
    }
}

/// Encodes an optional count as JSON.
pub fn json_opt_usize(val: Option<usize>) -> (r: JsonValue)
    requires
        val matches Some(n) ==> n as int <= i64::MAX as int,
    ensures
        r == spec_json_opt_usize(val),
{
    match val {
        Some(n) => JsonValue::Int(n as i64),
        None => JsonValue::Null,
    }
}

} // verus!
