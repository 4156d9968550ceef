//! Regions: datacenters where resources can be deployed.

use crate::api::{root_with, spec_root_refused, spec_root_with};
use crate::error::Error;
use crate::json::{
    bool_field, spec_bool_field, spec_string_field, spec_string_list_field, string_field,
    string_list_field, JsonValue,
};
use crate::method::Method;
use crate::request::Request;
use vstd::prelude::*;

verus! {

/// A region: a specific datacenter in a geographic location.
#[derive(Debug, PartialEq, Eq)]
pub struct Region {
    /// A human-readable string that is used as a unique identifier.
    pub name: String,
    /// The display name shown in the control panel and other interfaces.
    pub slug: String,
    /// The identifying slugs of the sizes available in this region.
    pub sizes: Vec<String>,
    /// Whether new resources can be created in this region.
    pub available: bool,
    /// The features available in this region.
    pub features: Vec<String>,
}

impl Region {
    /// Whether a JSON value decodes into a region: every field present with
    /// the right type.
    pub open spec fn spec_decodes(v: JsonValue) -> bool {
        let es = v.obj_entries();
        &&& v is Obj
        &&& spec_string_field(es, "name"@) is Ok
        &&& spec_string_field(es, "slug"@) is Ok
        &&& spec_string_list_field(es, "sizes"@) is Ok
        &&& spec_bool_field(es, "available"@) is Ok
        &&& spec_string_list_field(es, "features"@) is Ok
    }

    /// Decodes a JSON value into a region.
    pub fn from_json(v: &JsonValue) -> (r: Result<Region, ()>)
        ensures
            ({
                let es = v.obj_entries();
                match r {
                    Ok(reg) => Region::spec_decodes(*v) && Ok::<String, ()>(reg.name) == spec_string_field(
                        es,
                        "name"@,
                    ) && Ok::<String, ()>(reg.slug) == spec_string_field(es, "slug"@) && Ok::<Seq<String>, ()>(reg.sizes@)
                        == spec_string_list_field(es, "sizes"@) && Ok::<bool, ()>(reg.available)
                        == spec_bool_field(es, "available"@) && Ok::<Seq<String>, ()>(reg.features@)
                        == spec_string_list_field(es, "features"@),
                    Err(()) => !Region::spec_decodes(*v),
                }
            }),
    {
        match v {
            JsonValue::Obj(fields) => {
                let name = match string_field(fields, "name") {
                    Ok(x) => x,
                    Err(()) => {
                        return Err(());
                    },
                };
                let slug = match string_field(fields, "slug") {
                    Ok(x) => x,
                    Err(()) => {
                        return Err(());
                    },
                };
                let sizes = match string_list_field(fields, "sizes") {
                    Ok(x) => x,
                    Err(()) => {
                        return Err(());
                    },
                };
                let available = match bool_field(fields, "available") {
                    Ok(x) => x,
                    Err(()) => {
                        return Err(());
                    },
                };
                let features = match string_list_field(fields, "features") {
                    Ok(x) => x,
                    Err(()) => {
                        return Err(());
                    },
                };
                Ok(Region { name, slug, sizes, available, features })
            },
            _ => Err(()),
        }
    }

    /// An unbounded list request for every region, against the provider's
    /// `regions` collection.
    pub fn list() -> (r: Result<Request, Error>)
        ensures
            match r {
                Ok(req) => spec_root_with("regions"@) == Some(req.spec_url()@) && req.spec_body()
                    == JsonValue::Null && req.spec_method() == (Method::List { limit: None }),
                Err(e) => spec_root_refused("regions"@) && e is UrlParse,
            },
    {
        match root_with("regions") {
            Ok(u) => Ok(Request::new(u, Method::List { limit: None })),
            Err(e) => Err(e),
        }
    }
}

} // verus!
