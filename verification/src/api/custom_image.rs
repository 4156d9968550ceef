//! Custom images: user-supplied machine images imported from a URL.
//!
//! The decoded image value carries a creation timestamp that this crate
//! does not model; it lives with the caller, while the request construction
//! is done here.

use crate::api::{root_with, spec_root_refused, spec_root_with};
use crate::error::Error;
use crate::json::{entries, JsonValue};
use crate::method::Method;
use crate::request::Request;
use vstd::prelude::*;
use vstd::string::StringExecFns;

verus! {

/// A creation request for a custom image imported from `image_url`: the
/// body names the image, the source URL, the region, the base distribution,
/// a description, and the tags to group it under.
pub fn create(
    name: &str,
    image_url: &str,
    region: &str,
    distribution: &str,
    desc: &str,
    tags: Vec<String>,
) -> (r: Result<Request, Error>)
    ensures
        match r {
            Ok(req) => spec_root_with("images"@) == Some(req.spec_url()@) && req.spec_method()
                == Method::Create && req.spec_body() is Obj && ({
                let es = req.spec_body().obj_entries();
                &&& es.len() == 6
                &&& es[0].0 == "name"@ && (es[0].1 matches JsonValue::Str(s) && s@ == name@)
                &&& es[1].0 == "url"@ && (es[1].1 matches JsonValue::Str(s) && s@ == image_url@)
                &&& es[2].0 == "region"@ && (es[2].1 matches JsonValue::Str(s) && s@ == region@)
                &&& es[3].0 == "distribution"@ && (es[3].1 matches JsonValue::Str(s) && s@
                    == distribution@)
                &&& es[4].0 == "description"@ && (es[4].1 matches JsonValue::Str(s) && s@ == desc@)
                &&& es[5].0 == "tags"@ && (es[5].1 matches JsonValue::Arr(items) && items@.len()
                    == tags@.len() && (forall|i: int|
                    0 <= i < tags@.len() ==> items@[i] == JsonValue::Str(tags@[i])))
            }),
            Err(e) => spec_root_refused("images"@) && e is UrlParse,
        },
{
    match root_with("images") {
        Ok(u) => {
            let ghost orig = tags@;
            let mut tags = tags;
            let total = tags.len();
            proof {
                assert(orig.len() == total);
            }
            let mut tag_items: Vec<JsonValue> = Vec::new();
            let mut i: usize = 0;
            while tags.len() > 0
                invariant
                    orig.len() <= usize::MAX,
                    i + tags@.len() == orig.len(),
                    tags@ == orig.skip(i as int),
                    tag_items@.len() == i,
                    forall|k: int| 0 <= k < i ==> tag_items@[k] == JsonValue::Str(orig[k]),
                decreases tags@.len(),
            {
                let tag = tags.remove(0);
                tag_items.push(JsonValue::Str(tag));
                i = i + 1;
                proof {
                    assert(tags@ =~= orig.skip(i as int));
                }
            }
            let fields = vec![
                (String::from_str("name"), JsonValue::Str(String::from_str(name))),
                (String::from_str("url"), JsonValue::Str(String::from_str(image_url))),
                (String::from_str("region"), JsonValue::Str(String::from_str(region))),
                (
                    String::from_str("distribution"),
                    JsonValue::Str(String::from_str(distribution)),
                ),
                (String::from_str("description"), JsonValue::Str(String::from_str(desc))),
                (String::from_str("tags"), JsonValue::Arr(tag_items)),
            ];
            proof {
                assert(entries(fields@) =~= seq![
                    ("name"@, fields@[0].1),
                    ("url"@, fields@[1].1),
                    ("region"@, fields@[2].1),
                    ("distribution"@, fields@[3].1),
                    ("description"@, fields@[4].1),
                    ("tags"@, fields@[5].1),
                ]);
            }
            let mut req = Request::new(u, Method::Create);
            req.set_body(JsonValue::Obj(fields));
            Ok(req)
        },
        Err(e) => Err(e),
    }
}

} // verus!
