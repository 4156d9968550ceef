//! Envelope unwrapping and the JSON object model.

use digitalocean::api::{unwrap_list, unwrap_singular};
use digitalocean::error::Error;
use digitalocean::json::JsonValue;

fn s(text: &str) -> String {
    String::from(text)
}

fn widget() -> JsonValue {
    JsonValue::Obj(vec![(s("id"), JsonValue::Int(1))])
}

fn singular_envelope() -> JsonValue {
    JsonValue::Obj(vec![(s("widget"), widget())])
}

fn list_envelope(next: JsonValue) -> JsonValue {
    JsonValue::Obj(vec![
        (
            s("widgets"),
            JsonValue::Arr(vec![JsonValue::Int(1), JsonValue::Int(2)]),
        ),
        (
            s("links"),
            JsonValue::Obj(vec![(s("pages"), JsonValue::Obj(vec![(s("next"), next)]))]),
        ),
        (
            s("meta"),
            JsonValue::Obj(vec![(s("total"), JsonValue::Int(7))]),
        ),
    ])
}

#[test]
fn unwrapping_a_singular_envelope_yields_exactly_the_value() {
    assert_eq!(unwrap_singular(singular_envelope(), "widget"), Ok(widget()));
}

#[test]
fn unwrapping_without_the_wrapper_field_is_a_structural_error() {
    assert_eq!(
        unwrap_singular(singular_envelope(), "gadget"),
        Err(Error::Malformed(singular_envelope()))
    );
}

#[test]
fn unwrapping_a_non_object_is_a_structural_error() {
    assert_eq!(
        unwrap_singular(JsonValue::Int(3), "widget"),
        Err(Error::Malformed(JsonValue::Int(3)))
    );
}

#[test]
fn unwrapping_a_list_envelope_yields_items_cursor_and_total() {
    let body = list_envelope(JsonValue::Str(s("https://api.example.com/v2/widgets?page=2")));
    let (items, next, total) = unwrap_list(body, "widgets").unwrap();
    assert_eq!(items, vec![JsonValue::Int(1), JsonValue::Int(2)]);
    assert_eq!(next, Some(s("https://api.example.com/v2/widgets?page=2")));
    assert_eq!(total, 7);
}

#[test]
fn a_null_cursor_means_no_further_page() {
    let body = list_envelope(JsonValue::Null);
    let (_items, next, _total) = unwrap_list(body, "widgets").unwrap();
    assert_eq!(next, None);
}

#[test]
fn an_absent_pages_block_means_no_further_page() {
    let body = JsonValue::Obj(vec![
        (s("widgets"), JsonValue::Arr(vec![])),
        (s("links"), JsonValue::Obj(vec![])),
        (s("meta"), JsonValue::Obj(vec![(s("total"), JsonValue::Int(0))])),
    ]);
    let (items, next, total) = unwrap_list(body, "widgets").unwrap();
    assert_eq!(items, Vec::<JsonValue>::new());
    assert_eq!(next, None);
    assert_eq!(total, 0);
}

#[test]
fn a_missing_links_block_is_a_structural_error() {
    let body = || {
        JsonValue::Obj(vec![
            (s("widgets"), JsonValue::Arr(vec![])),
            (s("meta"), JsonValue::Obj(vec![(s("total"), JsonValue::Int(0))])),
        ])
    };
    assert_eq!(unwrap_list(body(), "widgets"), Err(Error::Malformed(body())));
}

#[test]
fn a_missing_meta_block_is_a_structural_error() {
    let body = || {
        JsonValue::Obj(vec![
            (s("widgets"), JsonValue::Arr(vec![])),
            (s("links"), JsonValue::Obj(vec![])),
        ])
    };
    assert_eq!(unwrap_list(body(), "widgets"), Err(Error::Malformed(body())));
}

#[test]
fn a_non_text_cursor_is_a_structural_error() {
    let body = || list_envelope(JsonValue::Int(2));
    assert_eq!(unwrap_list(body(), "widgets"), Err(Error::Malformed(body())));
}

#[test]
fn a_non_array_page_field_is_a_structural_error() {
    let body = || {
        JsonValue::Obj(vec![
            (s("widgets"), JsonValue::Int(3)),
            (s("links"), JsonValue::Obj(vec![])),
            (s("meta"), JsonValue::Obj(vec![(s("total"), JsonValue::Int(0))])),
        ])
    };
    assert_eq!(unwrap_list(body(), "widgets"), Err(Error::Malformed(body())));
}

#[test]
fn set_field_appends_then_replaces() {
    let mut body = JsonValue::Null;
    body.set_field("name", JsonValue::Str(s("a")));
    body.set_field("ttl", JsonValue::Int(60));
    body.set_field("name", JsonValue::Str(s("b")));
    assert_eq!(
        body,
        JsonValue::Obj(vec![
            (s("name"), JsonValue::Str(s("b"))),
            (s("ttl"), JsonValue::Int(60)),
        ])
    );
}

#[test]
fn get_field_takes_the_first_match() {
    let body = JsonValue::Obj(vec![
        (s("a"), JsonValue::Int(1)),
        (s("a"), JsonValue::Int(2)),
    ]);
    assert_eq!(body.get_field("a"), Some(&JsonValue::Int(1)));
    assert_eq!(body.get_field("b"), None);
}
