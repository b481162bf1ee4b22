use rule_adapters::http::{Body, Event, Method, Operation, Request};
use rule_adapters::props::{get, project};
use rule_adapters::sentinel::{CloudError, Sentinel, SentinelCall, SentinelRule, resolve_rule_id};
use std::collections::HashMap;

const CONFIG: &str = r#"{"client_id":"cid","client_secret":"sec","tenant_id":"tn","resource_group_name":"rg","subscription_id":"sub","workspace_name":"ws"}"#;

fn prop(v: &Vec<(String, String)>, k: &str) -> Option<String> {
    get(v, &k.to_string())
}

fn ok(status: u16, body: &str) -> Event {
    Event::Response { status, body: Ok(body.as_bytes().to_vec()) }
}

#[test]
fn defaults_fill_missing_fields_only() {
    let mut rule = SentinelRule::from_json(
        r#"{"kind":"Scheduled","properties":{"enabled":false,"query":"x","queryPeriod":"PT1H"}}"#,
        "e: ",
    )
    .unwrap();
    rule.default_properties();
    let p = &rule.properties;
    assert_eq!(prop(p, "enabled").as_deref(), Some("false"));
    assert_eq!(prop(p, "query").as_deref(), Some("\"x\""));
    assert_eq!(prop(p, "queryPeriod").as_deref(), Some("\"PT1H\""));
    assert_eq!(prop(p, "queryFrequency").as_deref(), Some("\"PT5H\""));
    assert_eq!(prop(p, "suppressionDuration").as_deref(), Some("\"PT5H\""));
    assert_eq!(prop(p, "suppressionEnabled").as_deref(), Some("false"));
    assert_eq!(prop(p, "triggerOperator").as_deref(), Some("\"GreaterThan\""));
    assert_eq!(prop(p, "triggerThreshold").as_deref(), Some("0"));
    assert_eq!(p.len(), 8);
}

#[test]
fn defaults_on_empty_properties() {
    let mut rule = SentinelRule::from_json(r#"{"kind":"Scheduled","properties":{}}"#, "e: ").unwrap();
    rule.default_properties();
    assert_eq!(rule.properties.len(), 7);
    assert_eq!(prop(&rule.properties, "enabled").as_deref(), Some("true"));
}

#[test]
fn rule_id_resolution() {
    assert_eq!(resolve_rule_id(&Some("abc".to_string()), "name"), "abc");
    assert_eq!(resolve_rule_id(&None, "name"), "name");
    for op in [Operation::Create, Operation::Read, Operation::Update, Operation::Delete] {
        let with = SentinelCall::begin(op, CONFIG, "nm", r#"{"ruleId":"r1","kind":"Scheduled","properties":{}}"#).unwrap();
        assert_eq!(with.rule_id, "r1");
        assert!(with.url.ends_with("/alertRules/r1"));
        let without = SentinelCall::begin(op, CONFIG, "nm", r#"{"kind":"Scheduled","properties":{}}"#).unwrap();
        assert_eq!(without.rule_id, "nm");
    }
}

#[test]
fn empty_identifier_is_refused() {
    let r = SentinelCall::begin(Operation::Read, CONFIG, "", r#"{"kind":"Scheduled","properties":{}}"#);
    assert!(r.is_err());
}

#[test]
fn projection_keeps_requested_remote_keys() {
    let d = vec![("a".to_string(), "1".to_string()), ("b".to_string(), "2".to_string())];
    let r = vec![("b".to_string(), "3".to_string()), ("c".to_string(), "4".to_string())];
    let p = project(&d, &r);
    assert_eq!(p, vec![("b".to_string(), "3".to_string())]);
    assert!(project(&Vec::new(), &r).is_empty());
}

#[test]
fn malformed_config_fails_before_any_request() {
    for op in [Operation::Create, Operation::Read, Operation::Update, Operation::Delete] {
        let e = SentinelCall::begin(op, "{not json", "n", r#"{"kind":"Scheduled","properties":{}}"#).err().unwrap();
        assert!(e.starts_with("unable to parse configuration: "));
        let e = SentinelCall::begin(op, r#"{"client_id":"x"}"#, "n", "also bad").err().unwrap();
        assert!(e.starts_with("unable to parse configuration: "));
    }
    assert!(Sentinel::parse_configuration("[]").is_err());
}

#[test]
fn config_defaults_and_optional_fields() {
    let c = Sentinel::parse_configuration(r#"{"client_id":"cid","client_secret":"sec","tenant_id":"tn","resource_group_name":"rg","subscription_id":"sub","workspace_name":"ws","api_version":null,"timeout":5}"#).unwrap();
    assert_eq!(c.api_version, None);
    assert_eq!(c.timeout, Some(5));
    assert!(Sentinel::parse_configuration(r#"{"client_id":"cid","client_secret":"sec","tenant_id":"tn","resource_group_name":"rg","subscription_id":"sub","workspace_name":"ws","timeout":"x"}"#).is_err());
}

#[test]
fn credentials_request_shape() {
    let c = Sentinel::parse_configuration(CONFIG).unwrap();
    let r = c.credentials_request();
    assert_eq!(r.method, Method::Post);
    assert_eq!(r.url, "https://login.microsoftonline.com/tn/oauth2/token");
    match r.body {
        Body::Form(f) => {
            assert_eq!(f[0], ("grant_type".to_string(), "client_credentials".to_string()));
            assert_eq!(f[3], ("resource".to_string(), "https://management.azure.com".to_string()));
        }
        _ => panic!("form expected"),
    }
}

#[test]
fn token_extraction() {
    assert_eq!(Sentinel::token_from_response(&ok(200, r#"{"access_token":"tok","x":1}"#)), Ok("tok".to_string()));
    assert!(Sentinel::token_from_response(&ok(200, "{}")).unwrap_err().starts_with("unable to parse azure authz response: "));
    assert_eq!(
        Sentinel::token_from_response(&ok(401, r#"{"error":{"code":"Bad","message":"denied"}}"#)),
        Err("Bad: denied".to_string())
    );
    assert_eq!(Sentinel::token_from_response(&Event::Failed("dns".to_string())), Err("dns".to_string()));
}

#[test]
fn cloud_error_extraction() {
    assert_eq!(CloudError::from_slices(&br#"{"error":{"code":"C","message":"m"}}"#.to_vec()), "C: m");
    assert_eq!(CloudError::from_slices(&b"plain failure".to_vec()), "plain failure");
    assert_eq!(CloudError::from_slices(&vec![0xff, 0xfe]), "response body is not valid UTF-8");
}

#[test]
fn create_sends_defaulted_rule_with_display_name() {
    let call = SentinelCall::begin(Operation::Create, CONFIG, "My Rule", r#"{"ruleId":"r1","kind":"Scheduled","properties":{"query":"q"}}"#).unwrap();
    let req = call.on_credentials(&ok(200, r#"{"access_token":"T"}"#)).unwrap();
    assert_eq!(req.method, Method::Put);
    assert_eq!(
        req.url,
        "https://management.azure.com/subscriptions/sub/resourceGroups/rg/providers/Microsoft.OperationalInsights/workspaces/ws/providers/Microsoft.SecurityInsights/alertRules/r1"
    );
    assert_eq!(req.headers[0], ("Authorization".to_string(), "Bearer T".to_string()));
    assert_eq!(req.query[0], ("api-version".to_string(), "2023-11-01".to_string()));
    assert_eq!(req.connect_timeout, Some(60));
    let body = match &req.body {
        Body::Json(j) => j.clone(),
        _ => panic!("json expected"),
    };
    let v: serde_json::Value = serde_json::from_str(&body).unwrap();
    assert_eq!(v["ruleId"], "r1");
    assert_eq!(v["kind"], "Scheduled");
    assert_eq!(v["properties"]["displayName"], "My Rule");
    assert_eq!(v["properties"]["query"], "q");
    assert_eq!(v["properties"]["triggerThreshold"], 0);
    assert_eq!(v["properties"]["enabled"], true);
    assert!(v.get("etag").is_none());
}

#[test]
fn write_and_delete_status_mapping() {
    let call = SentinelCall::begin(Operation::Update, CONFIG, "n", r#"{"kind":"Scheduled","properties":{}}"#).unwrap();
    assert_eq!(call.on_response(&ok(201, "")), Ok(Some(String::new())));
    assert_eq!(call.on_response(&ok(400, r#"{"error":{"code":"BadRequest","message":"no"}}"#)), Err("BadRequest: no".to_string()));
    let del = SentinelCall::begin(Operation::Delete, CONFIG, "n", r#"{"kind":"Scheduled","properties":{}}"#).unwrap();
    assert_eq!(del.on_response(&ok(200, "")), Ok(Some(String::new())));
    assert_eq!(del.on_response(&ok(204, "")), Ok(None));
    assert_eq!(del.on_response(&ok(404, "")), Ok(None));
    assert_eq!(del.on_response(&ok(500, "boom")), Err("boom".to_string()));
    assert_eq!(
        del.on_response(&Event::Response { status: 500, body: Err("reset".to_string()) }),
        Err("invalid UTF-8 response: reset".to_string())
    );
}

#[test]
fn read_projects_remote_properties() {
    let call = SentinelCall::begin(Operation::Read, CONFIG, "n", r#"{"kind":"Scheduled","etag":"e1","properties":{"enabled":true,"query":"a"}}"#).unwrap();
    let remote = r#"{"kind":"Scheduled","properties":{"enabled":false,"query":"b","lastModifiedUtc":"now"}}"#;
    let out = call.on_response(&ok(200, remote)).unwrap().unwrap();
    assert_eq!(out, r#"{"etag":"e1","kind":"Scheduled","properties":{"enabled":false,"query":"b"}}"#);
    assert_eq!(call.on_response(&ok(404, "")), Ok(None));
    assert!(call.on_response(&ok(200, "nonsense")).unwrap_err().starts_with("unable to parse response: "));
}

#[test]
fn ping_mapping() {
    let c = Sentinel::parse_configuration(CONFIG).unwrap();
    let r = c.ping_request("T");
    assert!(r.url.ends_with("/resourcegroups/rg/providers/Microsoft.OperationalInsights/workspaces/ws/providers/Microsoft.SecurityInsights/alertRules"));
    assert_eq!(Sentinel::ping_outcome(&ok(200, "")), Ok(true));
    assert_eq!(Sentinel::ping_outcome(&ok(204, "")), Ok(true));
    assert_eq!(Sentinel::ping_outcome(&ok(401, "{}")), Err("Unauthorized".to_string()));
    assert_eq!(Sentinel::ping_outcome(&ok(403, r#"{"error":{"code":"Forbidden","message":"x"}}"#)), Err("Forbidden: x".to_string()));
}

fn upsert(store: &mut HashMap<String, String>, req: &Request) {
    if req.method == Method::Put {
        if let Body::Json(j) = &req.body {
            store.insert(req.url.clone(), j.clone());
        }
    }
}

#[test]
fn create_twice_same_state_as_once() {
    let params = r#"{"kind":"Scheduled","properties":{"query":"q"}}"#;
    let mut once = HashMap::new();
    let c1 = SentinelCall::begin(Operation::Create, CONFIG, "rule", params).unwrap();
    let q1 = c1.on_credentials(&ok(200, r#"{"access_token":"A"}"#)).unwrap();
    upsert(&mut once, &q1);
    let mut twice = once.clone();
    let c2 = SentinelCall::begin(Operation::Create, CONFIG, "rule", params).unwrap();
    let q2 = c2.on_credentials(&ok(200, r#"{"access_token":"B"}"#)).unwrap();
    upsert(&mut twice, &q2);
    assert_eq!(once, twice);
    assert_eq!(once.len(), 1);
}

#[test]
fn rule_url_is_parsed() {
    let c = Sentinel::parse_configuration(r#"{"client_id":"c","client_secret":"s","tenant_id":"t","resource_group_name":"my rg","subscription_id":"sub","workspace_name":"ws"}"#).unwrap();
    let u = c.rule_url("r 1").unwrap();
    assert!(u.contains("/resourceGroups/my%20rg/"));
    assert!(u.ends_with("/alertRules/r%201"));
}
