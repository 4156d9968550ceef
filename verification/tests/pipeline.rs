//! End-to-end runs of the executor against a scripted transport.

use digitalocean::api::EnvelopeMapping;
use digitalocean::endpoint::ApiUrl;
use digitalocean::error::Error;
use digitalocean::executor::Payload;
use digitalocean::json::JsonValue;
use digitalocean::method::Method;
use digitalocean::request::Request;
use digitalocean::transport::{HttpResponse, ScriptedTransport};

fn s(text: &str) -> String {
    String::from(text)
}

fn item(n: i64) -> JsonValue {
    JsonValue::Obj(vec![(s("id"), JsonValue::Int(n))])
}

/// A list envelope page under "widgets" with the given items and cursor.
fn page(items: Vec<JsonValue>, next: Option<&str>, total: i64) -> JsonValue {
    let next_value = match next {
        Some(url) => JsonValue::Str(s(url)),
        None => JsonValue::Null,
    };
    JsonValue::Obj(vec![
        (s("widgets"), JsonValue::Arr(items)),
        (
            s("links"),
            JsonValue::Obj(vec![(
                s("pages"),
                JsonValue::Obj(vec![(s("next"), next_value)]),
            )]),
        ),
        (
            s("meta"),
            JsonValue::Obj(vec![(s("total"), JsonValue::Int(total))]),
        ),
    ])
}

fn ok(status: u16, body: JsonValue) -> Result<HttpResponse, String> {
    Ok(HttpResponse { status, body })
}

fn three_page_script() -> Vec<Result<HttpResponse, String>> {
    vec![
        ok(
            200,
            page(vec![item(1), item(2)], Some("https://api.example.com/v2/widgets?page=2"), 5),
        ),
        ok(
            200,
            page(vec![item(3), item(4)], Some("https://api.example.com/v2/widgets?page=3"), 5),
        ),
        ok(200, page(vec![item(5)], None, 5)),
    ]
}

fn list_request() -> Request {
    let url = ApiUrl::parse("https://api.example.com/v2/widgets").unwrap();
    Request::new(url, Method::List { limit: None })
}

fn paged_mapping() -> EnvelopeMapping {
    EnvelopeMapping::Paged { field: s("widgets") }
}

#[test]
fn unlimited_list_gathers_three_pages_in_order() {
    let mut transport = ScriptedTransport::new(three_page_script());
    let result = list_request().execute(&paged_mapping(), &mut transport);
    match result {
        Ok(Payload::Collection(values)) => {
            assert_eq!(values, vec![item(1), item(2), item(3), item(4), item(5)]);
        }
        other => panic!("expected a collection, got {:?}", other),
    }
    // Three GETs: every scripted page was fetched, none twice.
    assert_eq!(transport.remaining(), 0);
}

#[test]
fn limited_list_truncates_and_stops_early() {
    let mut transport = ScriptedTransport::new(three_page_script());
    let request = list_request().limit(Some(3));
    let result = request.execute(&paged_mapping(), &mut transport);
    match result {
        Ok(Payload::Collection(values)) => {
            assert_eq!(values, vec![item(1), item(2), item(3)]);
        }
        other => panic!("expected a collection, got {:?}", other),
    }
    // Only two GETs were issued: the third page was never fetched.
    assert_eq!(transport.remaining(), 1);
}

#[test]
fn limit_zero_returns_nothing_after_one_call() {
    let mut transport = ScriptedTransport::new(three_page_script());
    let request = list_request().limit(Some(0));
    let result = request.execute(&paged_mapping(), &mut transport);
    match result {
        Ok(Payload::Collection(values)) => assert_eq!(values, Vec::<JsonValue>::new()),
        other => panic!("expected a collection, got {:?}", other),
    }
    assert_eq!(transport.remaining(), 2);
}

#[test]
fn get_surfaces_non_success_status() {
    let not_found = || JsonValue::Obj(vec![(s("id"), JsonValue::Str(s("not_found")))]);
    let mut transport = ScriptedTransport::new(vec![ok(404, not_found())]);
    let url = ApiUrl::parse("https://api.example.com/v2/widgets/7").unwrap();
    let request = Request::new(url, Method::Get);
    let mapping = EnvelopeMapping::Singular { field: s("widget") };
    let result = request.execute(&mapping, &mut transport);
    assert_eq!(result, Err(Error::Status(404, not_found())));
}

#[test]
fn malformed_envelope_surfaces_structural_error() {
    let body = || JsonValue::Obj(vec![(s("gadget"), JsonValue::Obj(vec![]))]);
    let mut transport = ScriptedTransport::new(vec![ok(200, body())]);
    let url = ApiUrl::parse("https://api.example.com/v2/widgets/7").unwrap();
    let request = Request::new(url, Method::Get);
    let mapping = EnvelopeMapping::Singular { field: s("widget") };
    let result = request.execute(&mapping, &mut transport);
    assert_eq!(result, Err(Error::Malformed(body())));
}

#[test]
fn delete_issues_one_call_and_returns_unit() {
    let mut transport = ScriptedTransport::new(vec![ok(204, JsonValue::Null)]);
    let url = ApiUrl::parse("https://api.example.com/v2/widgets/7").unwrap();
    let request = Request::new(url, Method::Delete);
    let result = request.execute(&EnvelopeMapping::Unit, &mut transport);
    assert_eq!(result, Ok(Payload::Unit));
    assert_eq!(transport.remaining(), 0);
}

#[test]
fn delete_surfaces_non_success_status() {
    let mut transport = ScriptedTransport::new(vec![ok(403, JsonValue::Null)]);
    let url = ApiUrl::parse("https://api.example.com/v2/widgets/7").unwrap();
    let request = Request::new(url, Method::Delete);
    let result = request.execute(&EnvelopeMapping::Unit, &mut transport);
    assert_eq!(result, Err(Error::Status(403, JsonValue::Null)));
}

#[test]
fn create_unwraps_the_created_value() {
    let created = || JsonValue::Obj(vec![(s("widget"), item(9))]);
    let mut transport = ScriptedTransport::new(vec![ok(201, created())]);
    let url = ApiUrl::parse("https://api.example.com/v2/widgets").unwrap();
    let mut request = Request::new(url, Method::Create);
    request.set_body(item(9));
    let mapping = EnvelopeMapping::Singular { field: s("widget") };
    let result = request.execute(&mapping, &mut transport);
    assert_eq!(result, Ok(Payload::Single(item(9))));
}

#[test]
fn get_then_decode_a_domain_record() {
    let record = || {
        JsonValue::Obj(vec![
            (s("id"), JsonValue::Int(1205)),
            (s("type"), JsonValue::Str(s("CNAME"))),
            (s("name"), JsonValue::Str(s("blog"))),
            (s("data"), JsonValue::Str(s("@"))),
            (s("ttl"), JsonValue::Int(1800)),
        ])
    };
    let envelope = JsonValue::Obj(vec![(s("domain_record"), record())]);
    let mut transport = ScriptedTransport::new(vec![ok(200, envelope)]);
    let url = ApiUrl::parse("https://api.digitalocean.com/v2/domains/example.com/records/1205")
        .unwrap();
    let request = Request::new(url, Method::Get);
    let mapping = EnvelopeMapping::Singular { field: s("domain_record") };
    match request.execute(&mapping, &mut transport) {
        Ok(Payload::Single(value)) => {
            let decoded = digitalocean::api::domain_record::DomainRecord::from_json(&value)
                .unwrap();
            assert_eq!(decoded.id, 1205);
            assert_eq!(decoded.kind, s("CNAME"));
            assert_eq!(decoded.ttl, 1800);
            assert_eq!(decoded.priority, None);
        }
        other => panic!("expected a single value, got {:?}", other),
    }
}

#[test]
fn list_then_decode_every_record() {
    let record = |n: i64| {
        JsonValue::Obj(vec![
            (s("id"), JsonValue::Int(n)),
            (s("type"), JsonValue::Str(s("A"))),
            (s("name"), JsonValue::Str(s("www"))),
            (s("data"), JsonValue::Str(s("192.168.0.2"))),
            (s("ttl"), JsonValue::Int(3600)),
        ])
    };
    let envelope = JsonValue::Obj(vec![
        (s("domain_records"), JsonValue::Arr(vec![record(1), record(2)])),
        (
            s("links"),
            JsonValue::Obj(vec![(s("pages"), JsonValue::Null)]),
        ),
        (
            s("meta"),
            JsonValue::Obj(vec![(s("total"), JsonValue::Int(2))]),
        ),
    ]);
    let mut transport = ScriptedTransport::new(vec![ok(200, envelope)]);
    let url = ApiUrl::parse("https://api.digitalocean.com/v2/domains/example.com/records")
        .unwrap();
    let request = Request::new(url, Method::List { limit: None });
    let mapping = EnvelopeMapping::Paged { field: s("domain_records") };
    match request.execute(&mapping, &mut transport) {
        Ok(Payload::Collection(values)) => {
            let records =
                digitalocean::api::domain_record::DomainRecord::from_json_list(&values).unwrap();
            assert_eq!(records.len(), 2);
            assert_eq!(records[0].id, 1);
            assert_eq!(records[1].id, 2);
        }
        other => panic!("expected a collection, got {:?}", other),
    }
}

#[test]
fn transport_failure_aborts_the_call() {
    let mut transport = ScriptedTransport::new(vec![Err(s("connection reset"))]);
    let url = ApiUrl::parse("https://api.example.com/v2/widgets/7").unwrap();
    let request = Request::new(url, Method::Get);
    let mapping = EnvelopeMapping::Singular { field: s("widget") };
    let result = request.execute(&mapping, &mut transport);
    assert_eq!(result, Err(Error::Transport(s("connection reset"))));
}

#[test]
fn exhausted_transport_reports_a_transport_error() {
    let mut transport = ScriptedTransport::new(vec![]);
    let url = ApiUrl::parse("https://api.example.com/v2/widgets/7").unwrap();
    let request = Request::new(url, Method::Get);
    let mapping = EnvelopeMapping::Singular { field: s("widget") };
    let result = request.execute(&mapping, &mut transport);
    assert!(matches!(result, Err(Error::Transport(_))));
}

#[test]
fn kind_mapping_mismatch_issues_no_call() {
    let mut transport = ScriptedTransport::new(three_page_script());
    let result = list_request().execute(&EnvelopeMapping::Unit, &mut transport);
    assert_eq!(result, Err(Error::KindMismatch));
    assert_eq!(transport.remaining(), 3);
}

#[test]
fn malformed_cursor_is_a_terminal_error() {
    let script = vec![ok(200, page(vec![item(1)], Some("not a url"), 2))];
    let mut transport = ScriptedTransport::new(script);
    let result = list_request().execute(&paged_mapping(), &mut transport);
    assert_eq!(result, Err(Error::UrlParse(s("not a url"))));
}

#[test]
fn failing_page_discards_the_whole_run() {
    let script = vec![
        ok(
            200,
            page(vec![item(1), item(2)], Some("https://api.example.com/v2/widgets?page=2"), 3),
        ),
        ok(500, JsonValue::Null),
    ];
    let mut transport = ScriptedTransport::new(script);
    let result = list_request().execute(&paged_mapping(), &mut transport);
    assert_eq!(result, Err(Error::Status(500, JsonValue::Null)));
}
