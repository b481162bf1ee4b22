use rule_adapters::http::{Body, Event, Method, Operation};
use rule_adapters::splunk::{Message, SavedSearch, Splunk, SplunkCall, http_status_error};
use rule_adapters::text::decimal_text;

const CONFIG: &str = r#"{"endpoint":"https://splunk.example:8089","authorization":"abc","authorization_scheme":"Bearer"}"#;

fn ok(status: u16, body: &str) -> Event {
    Event::Response { status, body: Ok(body.as_bytes().to_vec()) }
}

#[test]
fn read_not_found_is_none() {
    let call = SplunkCall::begin(Operation::Read, CONFIG, "s1", r#"{"app":"search","savedsearch":{"enabled":true}}"#).unwrap();
    assert_eq!(call.on_response(&ok(404, "")), Ok(None));
}

#[test]
fn read_projects_first_entry() {
    let call = SplunkCall::begin(Operation::Read, CONFIG, "s1", r#"{"app":"search","savedsearch":{"enabled":true}}"#).unwrap();
    let out = call.on_response(&ok(200, r#"{"entry":[{"content":{"enabled":true}}]}"#)).unwrap().unwrap();
    let v: serde_json::Value = serde_json::from_str(&out).unwrap();
    assert_eq!(v["savedsearch"], serde_json::from_str::<serde_json::Value>(r#"{"enabled":true}"#).unwrap());
    assert_eq!(out, r#"{"app":"search","savedsearch":{"enabled":true}}"#);
    let out = call
        .on_response(&ok(200, r#"{"entry":[{"content":{"enabled":false,"cron":"* * * * *"}}]}"#))
        .unwrap()
        .unwrap();
    assert_eq!(out, r#"{"app":"search","savedsearch":{"enabled":false}}"#);
    assert!(call.on_response(&ok(200, r#"{"entry":[]}"#)).unwrap_err().starts_with("unable to parse response: "));
    assert_eq!(call.on_response(&ok(500, "")), Err("HTTP/500".to_string()));
}

#[test]
fn bad_request_reports_first_message() {
    for (op, ok_status) in [(Operation::Create, 201u16), (Operation::Update, 200u16), (Operation::Delete, 200u16)] {
        let call = SplunkCall::begin(op, CONFIG, "s1", r#"{"app":"search","savedsearch":{"search":"index=x"}}"#).unwrap();
        assert_eq!(
            call.on_response(&ok(400, r#"{"messages":[{"type":"WARN","text":"bad field"}]}"#)),
            Err("WARN: bad field".to_string())
        );
        assert_eq!(call.on_response(&ok(400, "oops")), Err("RAW_ERROR: oops".to_string()));
        assert_eq!(call.on_response(&ok(ok_status, "{}")), Ok(Some("OK".to_string())));
        assert_eq!(call.on_response(&ok(503, "")), Err("HTTP/503".to_string()));
    }
}

#[test]
fn message_envelope_needs_a_message() {
    assert_eq!(Message::first_of(r#"{"messages":[]}"#), None);
    assert_eq!(Message::first_of(r#"{"messages":[{"type":"A","text":"b"},{"type":"C"}]}"#), None);
    assert_eq!(Message::first_of(r#"{"messages":[{"type":"A","text":"b"},{"type":"C","text":"d"}]}"#), Some("A: b".to_string()));
}

#[test]
fn ping_unauthorized() {
    assert_eq!(Splunk::ping_outcome(&ok(401, "")), Err("Unauthorized".to_string()));
    assert_eq!(Splunk::ping_outcome(&ok(200, "")), Ok(true));
    assert_eq!(Splunk::ping_outcome(&ok(204, "")), Ok(true));
    assert_eq!(Splunk::ping_outcome(&ok(302, "")), Err("HTTP/302".to_string()));
    let r = Splunk::begin_ping(CONFIG).unwrap();
    assert_eq!(r.url, "https://splunk.example:8089/servicesNS/nobody/-/saved/searches/?count=1");
}

#[test]
fn malformed_config_fails_first() {
    for op in [Operation::Create, Operation::Read, Operation::Update, Operation::Delete] {
        let e = SplunkCall::begin(op, "not json", "s", r#"{"app":"a","savedsearch":{}}"#).err().unwrap();
        assert!(e.starts_with("unable to parse configuration: "));
    }
    assert!(Splunk::begin_ping("{").unwrap_err().starts_with("unable to parse configuration: "));
}

#[test]
fn create_request_shape() {
    let call = SplunkCall::begin(Operation::Create, CONFIG, "my search", r#"{"app":"search","user":"admin","savedsearch":{"search":"index=x","is_scheduled":true}}"#).unwrap();
    assert!(call.probe.is_none());
    let r = &call.request;
    assert_eq!(r.method, Method::Post);
    assert_eq!(r.url, "https://splunk.example:8089/servicesNS/admin/search/saved/searches/");
    assert_eq!(r.headers[0], ("Authorization".to_string(), "Bearer abc".to_string()));
    assert_eq!(r.query, vec![("output_mode".to_string(), "json".to_string())]);
    assert_eq!(r.connect_timeout, Some(60));
    match &r.body {
        Body::Form(f) => {
            assert!(f.contains(&("name".to_string(), "my search".to_string())));
            assert!(f.contains(&("search".to_string(), "index=x".to_string())));
            assert!(f.contains(&("is_scheduled".to_string(), "true".to_string())));
        }
        _ => panic!("form expected"),
    }
}

#[test]
fn read_and_delete_check_the_app_first() {
    let call = SplunkCall::begin(Operation::Delete, CONFIG, "s1", r#"{"app":"search","savedsearch":{}}"#).unwrap();
    let probe = call.probe.as_ref().unwrap();
    assert_eq!(probe.url, "https://splunk.example:8089/services/apps/local/search");
    assert_eq!(call.request.method, Method::Delete);
    assert_eq!(call.request.url, "https://splunk.example:8089/servicesNS/nobody/search/saved/searches/s1");
    assert_eq!(call.on_response(&ok(404, "")), Ok(None));
    assert_eq!(call.on_response(&ok(204, "")), Ok(None));
    assert_eq!(Splunk::target_app_outcome("search", &ok(200, "")), Ok(()));
    assert_eq!(Splunk::target_app_outcome("search", &ok(404, "")), Err("target app 'search' not found".to_string()));
    assert_eq!(Splunk::target_app_outcome("search", &ok(500, "")), Err("unable to check target app: HTTP/500".to_string()));
    let read = SplunkCall::begin(Operation::Read, CONFIG, "s1", r#"{"app":"search","savedsearch":{"a":1,"b":2}}"#).unwrap();
    assert_eq!(
        read.request.query,
        vec![
            ("f".to_string(), "a".to_string()),
            ("f".to_string(), "b".to_string()),
            ("output_mode".to_string(), "json".to_string())
        ]
    );
}

#[test]
fn saved_search_round_trip_text() {
    let s = SavedSearch::from_json(r#"{"app":"a\"b","savedsearch":{"k":"v"}}"#, "e: ").unwrap();
    assert_eq!(s.to_json(), r#"{"app":"a\"b","savedsearch":{"k":"v"}}"#);
    assert!(SavedSearch::from_json(r#"{"savedsearch":{}}"#, "e: ").unwrap_err().starts_with("e: "));
}

#[test]
fn decimal_rendering() {
    assert_eq!(decimal_text(0), "0");
    assert_eq!(decimal_text(404), "404");
    assert_eq!(decimal_text(u64::MAX), u64::MAX.to_string());
    assert_eq!(http_status_error(201), "HTTP/201");
}

#[test]
fn urls_are_normalized_and_encoded() {
    let cfg = r#"{"endpoint":"HTTPS://Splunk.Example:8089","authorization":"abc","authorization_scheme":"Splunk"}"#;
    let call = SplunkCall::begin(Operation::Update, cfg, "my search", r#"{"app":"search","savedsearch":{}}"#).unwrap();
    assert_eq!(call.request.url, "https://splunk.example:8089/servicesNS/nobody/search/saved/searches/my%20search");
    assert_eq!(call.request.headers[0].1, "Splunk abc");
    let bad = r#"{"endpoint":"not a url","authorization":"abc","authorization_scheme":"Splunk"}"#;
    assert!(SplunkCall::begin(Operation::Update, bad, "s", r#"{"app":"search","savedsearch":{}}"#).is_err());
}

#[test]
fn empty_name_is_refused() {
    for op in [Operation::Create, Operation::Read, Operation::Update, Operation::Delete] {
        let r = SplunkCall::begin(op, CONFIG, "", r#"{"app":"search","savedsearch":{}}"#);
        assert_eq!(r.err(), Some("saved search name is empty".to_string()));
    }
}
