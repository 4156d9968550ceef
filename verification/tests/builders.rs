//! Request construction by the resource modules, against the real URL
//! machinery.

use digitalocean::api::domain_record::{DomainRecord, DomainRecordResponse};
use digitalocean::api::region::Region;
use digitalocean::api::tag::{Tag, TagResponse};
use digitalocean::api::{custom_image, floating_ip, size, volume};
use digitalocean::endpoint::ApiUrl;
use digitalocean::error::Error;
use digitalocean::json::JsonValue;
use digitalocean::method::Method;
use digitalocean::request::Request;

fn s(text: &str) -> String {
    String::from(text)
}

#[test]
fn region_list_targets_the_regions_collection() {
    let request = Region::list().unwrap();
    assert_eq!(request.url().as_str(), "https://api.digitalocean.com/v2/regions");
    assert_eq!(request.method(), &Method::List { limit: None });
    assert_eq!(request.body(), &JsonValue::Null);
}

#[test]
fn size_list_targets_the_sizes_collection() {
    let request = size::list().unwrap();
    assert_eq!(request.url().as_str(), "https://api.digitalocean.com/v2/sizes");
}

#[test]
fn tag_get_percent_encodes_the_name() {
    let request = Tag::get("my tag").unwrap();
    assert_eq!(request.url().as_str(), "https://api.digitalocean.com/v2/tags/my%20tag");
    assert_eq!(request.method(), &Method::Get);
}

#[test]
fn tag_create_carries_the_name_in_the_body() {
    let request = Tag::create("backend").unwrap();
    assert_eq!(request.url().as_str(), "https://api.digitalocean.com/v2/tags");
    assert_eq!(request.method(), &Method::Create);
    assert_eq!(
        request.body(),
        &JsonValue::Obj(vec![(s("name"), JsonValue::Str(s("backend")))])
    );
}

#[test]
fn tag_add_resources_builds_the_payload() {
    let request = Tag::get("backend")
        .unwrap()
        .add_resources(vec![(s("123"), s("droplet")), (s("456"), s("droplet"))])
        .unwrap();
    assert_eq!(
        request.url().as_str(),
        "https://api.digitalocean.com/v2/tags/backend/resources"
    );
    assert_eq!(request.method(), &Method::Create);
    let expected = JsonValue::Obj(vec![(
        s("resources"),
        JsonValue::Arr(vec![
            JsonValue::Obj(vec![
                (s("resource_id"), JsonValue::Str(s("123"))),
                (s("resource_type"), JsonValue::Str(s("droplet"))),
            ]),
            JsonValue::Obj(vec![
                (s("resource_id"), JsonValue::Str(s("456"))),
                (s("resource_type"), JsonValue::Str(s("droplet"))),
            ]),
        ]),
    )]);
    assert_eq!(request.body(), &expected);
}

#[test]
fn tag_remove_resources_is_tagged_as_delete() {
    let request = Tag::get("backend")
        .unwrap()
        .remove_resources(vec![(s("123"), s("droplet"))])
        .unwrap();
    assert_eq!(request.method(), &Method::Delete);
}

#[test]
fn domain_records_pivot_appends_the_records_segment() {
    let url = ApiUrl::parse("https://api.digitalocean.com/v2/domains/example.com").unwrap();
    let request = Request::new(url, Method::Get).records().unwrap();
    assert_eq!(
        request.url().as_str(),
        "https://api.digitalocean.com/v2/domains/example.com/records"
    );
    assert_eq!(request.method(), &Method::List { limit: None });
}

#[test]
fn domain_record_get_appends_the_decimal_identifier() {
    let url = ApiUrl::parse("https://api.digitalocean.com/v2/domains/example.com").unwrap();
    let request = Request::new(url, Method::Get).records().unwrap().get(1205).unwrap();
    assert_eq!(
        request.url().as_str(),
        "https://api.digitalocean.com/v2/domains/example.com/records/1205"
    );
    assert_eq!(request.method(), &Method::Get);
}

#[test]
fn domain_record_get_formats_identifier_zero() {
    let url = ApiUrl::parse("https://api.digitalocean.com/v2/domains/example.com").unwrap();
    let request = Request::new(url, Method::Get).records().unwrap().get(0).unwrap();
    assert_eq!(
        request.url().as_str(),
        "https://api.digitalocean.com/v2/domains/example.com/records/0"
    );
}

#[test]
fn domain_record_create_builds_the_three_field_body() {
    let url = ApiUrl::parse("https://api.digitalocean.com/v2/domains/example.com").unwrap();
    let request = Request::new(url, Method::Get)
        .records()
        .unwrap()
        .create("A", "www", "192.168.0.2");
    assert_eq!(request.method(), &Method::Create);
    assert_eq!(
        request.body(),
        &JsonValue::Obj(vec![
            (s("type"), JsonValue::Str(s("A"))),
            (s("name"), JsonValue::Str(s("www"))),
            (s("data"), JsonValue::Str(s("192.168.0.2"))),
        ])
    );
}

#[test]
fn domain_record_setters_update_the_body() {
    let url = ApiUrl::parse("https://api.digitalocean.com/v2/domains/example.com").unwrap();
    let request = Request::new(url, Method::Update)
        .kind("MX")
        .priority(Some(10))
        .ttl(3600)
        .weight(None);
    assert_eq!(
        request.body(),
        &JsonValue::Obj(vec![
            (s("type"), JsonValue::Str(s("MX"))),
            (s("priority"), JsonValue::Int(10)),
            (s("ttl"), JsonValue::Int(3600)),
            (s("weight"), JsonValue::Null),
        ])
    );
}

#[test]
fn transmute_preserves_url_and_body() {
    let url = ApiUrl::parse("https://api.digitalocean.com/v2/domains/example.com").unwrap();
    let mut request = Request::new(url, Method::Get);
    request.set_body(JsonValue::Obj(vec![(s("ttl"), JsonValue::Int(60))]));
    let before_url = s(request.url().as_str());
    let before_body = JsonValue::Obj(vec![(s("ttl"), JsonValue::Int(60))]);
    let re_tagged = request.transmute(Method::Delete);
    assert_eq!(re_tagged.url().as_str(), before_url.as_str());
    assert_eq!(re_tagged.body(), &before_body);
    assert_eq!(re_tagged.method(), &Method::Delete);
}

#[test]
fn limit_is_recorded_on_the_method() {
    let url = ApiUrl::parse("https://api.digitalocean.com/v2/volumes").unwrap();
    let request = Request::new(url, Method::List { limit: None }).limit(Some(25));
    assert_eq!(request.method(), &Method::List { limit: Some(25) });
}

#[test]
fn volume_get_by_name_carries_both_query_pairs() {
    let request = volume::get_by_name("data", "nyc1").unwrap();
    assert_eq!(
        request.url().as_str(),
        "https://api.digitalocean.com/v2/volumes?name=data&region=nyc1"
    );
    assert_eq!(request.method(), &Method::Get);
}

#[test]
fn volume_create_builds_name_and_size() {
    let request = volume::create("data", 100).unwrap();
    assert_eq!(
        request.body(),
        &JsonValue::Obj(vec![
            (s("name"), JsonValue::Str(s("data"))),
            (s("size_gigabytes"), JsonValue::Int(100)),
        ])
    );
}

#[test]
fn volume_snapshot_pivot_replaces_the_body() {
    let request = volume::get("7724db7c").unwrap().snapshot("nightly").unwrap();
    assert_eq!(
        request.url().as_str(),
        "https://api.digitalocean.com/v2/volumes/7724db7c/snapshots"
    );
    assert_eq!(request.method(), &Method::Create);
    assert_eq!(
        request.body(),
        &JsonValue::Obj(vec![(s("name"), JsonValue::Str(s("nightly")))])
    );
}

#[test]
fn floating_ip_for_droplet_names_the_droplet() {
    let request = floating_ip::for_droplet(42).unwrap();
    assert_eq!(request.url().as_str(), "https://api.digitalocean.com/v2/floating_ips");
    assert_eq!(
        request.body(),
        &JsonValue::Obj(vec![(s("droplet_id"), JsonValue::Int(42))])
    );
}

#[test]
fn custom_image_create_builds_the_full_body() {
    let request = custom_image::create(
        "rescue",
        "https://example.com/rescue.qcow2",
        "nyc1",
        "Unknown",
        "a rescue image",
        vec![s("base"), s("tools")],
    )
    .unwrap();
    assert_eq!(request.url().as_str(), "https://api.digitalocean.com/v2/images");
    assert_eq!(
        request.body(),
        &JsonValue::Obj(vec![
            (s("name"), JsonValue::Str(s("rescue"))),
            (s("url"), JsonValue::Str(s("https://example.com/rescue.qcow2"))),
            (s("region"), JsonValue::Str(s("nyc1"))),
            (s("distribution"), JsonValue::Str(s("Unknown"))),
            (s("description"), JsonValue::Str(s("a rescue image"))),
            (
                s("tags"),
                JsonValue::Arr(vec![JsonValue::Str(s("base")), JsonValue::Str(s("tools"))]),
            ),
        ])
    );
}

#[test]
fn api_url_normalizes_its_text() {
    let url = ApiUrl::parse("HTTPS://API.Example.COM/v2").unwrap();
    assert_eq!(url.as_str(), "https://api.example.com/v2");
}

#[test]
fn api_url_rejects_text_that_is_no_url() {
    assert_eq!(ApiUrl::parse("not a url"), Err(Error::UrlParse(s("not a url"))));
}

fn record_json() -> JsonValue {
    JsonValue::Obj(vec![
        (s("id"), JsonValue::Int(1205)),
        (s("type"), JsonValue::Str(s("A"))),
        (s("name"), JsonValue::Str(s("www"))),
        (s("data"), JsonValue::Str(s("192.168.0.2"))),
        (s("priority"), JsonValue::Null),
        (s("port"), JsonValue::Null),
        (s("ttl"), JsonValue::Int(3600)),
        (s("weight"), JsonValue::Null),
    ])
}

#[test]
fn domain_record_decodes_from_json() {
    let record = DomainRecord::from_json(&record_json()).unwrap();
    assert_eq!(record.id, 1205);
    assert_eq!(record.kind, s("A"));
    assert_eq!(record.name, s("www"));
    assert_eq!(record.data, s("192.168.0.2"));
    assert_eq!(record.priority, None);
    assert_eq!(record.port, None);
    assert_eq!(record.ttl, 3600);
    assert_eq!(record.weight, None);
}

#[test]
fn domain_record_rejects_a_wrongly_typed_field() {
    let body = JsonValue::Obj(vec![
        (s("id"), JsonValue::Str(s("1205"))),
        (s("type"), JsonValue::Str(s("A"))),
        (s("name"), JsonValue::Str(s("www"))),
        (s("data"), JsonValue::Str(s("192.168.0.2"))),
        (s("ttl"), JsonValue::Int(3600)),
    ]);
    assert_eq!(DomainRecord::from_json(&body), Err(()));
}

#[test]
fn domain_record_list_decodes_every_value() {
    let mut second = record_json();
    second.set_field("id", JsonValue::Int(1206));
    let records = DomainRecord::from_json_list(&vec![record_json(), second]).unwrap();
    assert_eq!(records.len(), 2);
    assert_eq!(records[0].id, 1205);
    assert_eq!(records[1].id, 1206);
}

#[test]
fn domain_record_list_fails_on_one_bad_value() {
    assert_eq!(
        DomainRecord::from_json_list(&vec![record_json(), JsonValue::Null]),
        Err(())
    );
}

#[test]
fn domain_record_response_unwraps_and_decodes() {
    let body = JsonValue::Obj(vec![(s("domain_record"), record_json())]);
    let response = DomainRecordResponse::from_json(body).unwrap();
    assert_eq!(response.value().id, 1205);
}

#[test]
fn region_decodes_with_its_string_lists() {
    let body = JsonValue::Obj(vec![
        (s("name"), JsonValue::Str(s("New York 1"))),
        (s("slug"), JsonValue::Str(s("nyc1"))),
        (
            s("sizes"),
            JsonValue::Arr(vec![JsonValue::Str(s("s-1vcpu-1gb")), JsonValue::Str(s("s-2vcpu-2gb"))]),
        ),
        (s("available"), JsonValue::Bool(true)),
        (s("features"), JsonValue::Arr(vec![JsonValue::Str(s("ipv6"))])),
    ]);
    let region = Region::from_json(&body).unwrap();
    assert_eq!(region.name, s("New York 1"));
    assert_eq!(region.slug, s("nyc1"));
    assert_eq!(region.sizes, vec![s("s-1vcpu-1gb"), s("s-2vcpu-2gb")]);
    assert!(region.available);
    assert_eq!(region.features, vec![s("ipv6")]);
}

#[test]
fn tag_response_keeps_resources_verbatim() {
    let resources = || {
        JsonValue::Obj(vec![(
            s("droplets"),
            JsonValue::Obj(vec![(s("count"), JsonValue::Int(2))]),
        )])
    };
    let body = JsonValue::Obj(vec![(
        s("tag"),
        JsonValue::Obj(vec![
            (s("name"), JsonValue::Str(s("backend"))),
            (s("resources"), resources()),
        ]),
    )]);
    let response = TagResponse::from_json(body).unwrap();
    let tag: Tag = response.value();
    assert_eq!(tag.name, s("backend"));
    assert_eq!(tag.resources, resources());
}
