//! Microsoft Sentinel analytics rules, reached through the Azure management
//! API with a token from the Azure identity endpoint.

use vstd::prelude::*;
use crate::props::{Entry, entries_view, keys_unique, lookup, fill_default, set_entry};
use vstd::utf8::{decode_utf8, valid_utf8};
use crate::http::{Body, Event, Method, Operation, Request, parse_url, url_parsed};
use crate::props::{proj_seq, project, put_seq, fill_seq};
use crate::json::{
    json_object_of, json_quoted, object_text, opt_text, string_field, opt_string_ok,
    opt_string_field, opt_u64_ok, opt_u64_field, has_prefix, object_members, string_member,
    optional_string_member, optional_u64_member, field_error, quoted, write_object,
};

verus! {

pub const AZURE_AUTH_DEFAULT_ENDPOINT: &'static str = "https://login.microsoftonline.com";

pub const AZURE_MGT_ENDPOINT: &'static str = "https://management.azure.com";

pub const DEFAULT_API_VERSION: &'static str = "2023-11-01";

pub const DEFAULT_TIMEOUT: u64 = 60;

pub const CONFIG_ERROR: &'static str = "unable to parse configuration: ";

pub const RULE_ERROR: &'static str = "unable to parse rule: ";

/// Connection settings of a Sentinel workspace.
#[derive(Debug)]
pub struct Sentinel {
    pub client_id: String,
    pub client_secret: String,
    pub tenant_id: String,
    pub api_version: Option<String>,
    pub resource_group_name: String,
    pub subscription_id: String,
    pub workspace_name: String,
    pub timeout: Option<u64>,
}

/// The settings document holds every required member as a string and the
/// optional ones as `null`, absent, or of their type.
pub open spec fn sentinel_doc_ok(m: Seq<Entry>) -> bool {
    &&& string_field(m, "client_id"@) is Some
    &&& string_field(m, "client_secret"@) is Some
    &&& string_field(m, "tenant_id"@) is Some
    &&& opt_string_ok(m, "api_version"@)
    &&& string_field(m, "resource_group_name"@) is Some
    &&& string_field(m, "subscription_id"@) is Some
    &&& string_field(m, "workspace_name"@) is Some
    &&& opt_u64_ok(m, "timeout"@)
}

impl Sentinel {
    /// The settings were read from the document members `m`.
    pub open spec fn read_from(&self, m: Seq<Entry>) -> bool {
        &&& string_field(m, "client_id"@) == Some(self.client_id@)
        &&& string_field(m, "client_secret"@) == Some(self.client_secret@)
        &&& string_field(m, "tenant_id"@) == Some(self.tenant_id@)
        &&& opt_string_field(m, "api_version"@) == opt_text(self.api_version)
        &&& string_field(m, "resource_group_name"@) == Some(self.resource_group_name@)
        &&& string_field(m, "subscription_id"@) == Some(self.subscription_id@)
        &&& string_field(m, "workspace_name"@) == Some(self.workspace_name@)
        &&& opt_u64_field(m, "timeout"@) == self.timeout
    }

    /// Reads the settings from a JSON document.
    pub fn parse_configuration(config: &str) -> (r: Result<Sentinel, String>)
        ensures
            r is Ok <==> (json_object_of(config@) matches Some(m) && sentinel_doc_ok(m)),
            r matches Ok(c) ==> c.read_from(json_object_of(config@)->0),
            r matches Err(e) ==> has_prefix(e@, CONFIG_ERROR@),
    {
        let m = match object_members(config) {
            Some(m) => m,
            None => {
                let e = crate::text::concat2(CONFIG_ERROR, "expected a JSON object");
                assert(e@.subrange(0, CONFIG_ERROR@.len() as int) =~= CONFIG_ERROR@);
                return Err(e);
            },
        };
        let client_id = match string_member(&m, "client_id") {
            Some(v) => v,
            None => return Err(field_error(CONFIG_ERROR, "client_id")),
        };
        let client_secret = match string_member(&m, "client_secret") {
            Some(v) => v,
            None => return Err(field_error(CONFIG_ERROR, "client_secret")),
        };
        let tenant_id = match string_member(&m, "tenant_id") {
            Some(v) => v,
            None => return Err(field_error(CONFIG_ERROR, "tenant_id")),
        };
        let api_version = match optional_string_member(&m, "api_version") {
            Ok(v) => v,
            Err(()) => return Err(field_error(CONFIG_ERROR, "api_version")),
        };
        let resource_group_name = match string_member(&m, "resource_group_name") {
            Some(v) => v,
            None => return Err(field_error(CONFIG_ERROR, "resource_group_name")),
        };
        let subscription_id = match string_member(&m, "subscription_id") {
            Some(v) => v,
            None => return Err(field_error(CONFIG_ERROR, "subscription_id")),
        };
        let workspace_name = match string_member(&m, "workspace_name") {
            Some(v) => v,
            None => return Err(field_error(CONFIG_ERROR, "workspace_name")),
        };
        let timeout = match optional_u64_member(&m, "timeout") {
            Ok(v) => v,
            Err(()) => return Err(field_error(CONFIG_ERROR, "timeout")),
        };
        Ok(
            Sentinel {
                client_id,
                client_secret,
                tenant_id,
                api_version,
                resource_group_name,
                subscription_id,
                workspace_name,
                timeout,
            },
        )
    }
}

/// Kinds of analytics rule.
#[derive(Clone, Copy, Debug, PartialEq, Eq, Structural)]
pub enum RuleType {
    Scheduled,
}

/// An analytics rule: identifier, revision tag, kind and properties (each
/// property value as JSON text).
#[derive(Debug)]
pub struct SentinelRule {
    pub rule_id: Option<String>,
    pub etag: Option<String>,
    pub kind: RuleType,
    pub properties: Vec<(String, String)>,
}

/// The rule document is a JSON object with a known kind and an object of
/// properties.
pub open spec fn rule_doc_ok(m: Seq<Entry>) -> bool {
    &&& opt_string_ok(m, "ruleId"@)
    &&& opt_string_ok(m, "etag"@)
    &&& string_field(m, "kind"@) == Some("Scheduled"@)
    &&& lookup(m, "properties"@) matches Some(t) && json_object_of(t) is Some
}

/// The property members of a rule document.
pub open spec fn doc_properties(m: Seq<Entry>) -> Seq<Entry> {
    json_object_of(lookup(m, "properties"@)->0)->0
}

/// The value a defaultable property takes when the rule leaves it out.
pub open spec fn rule_default(k: Seq<char>) -> Option<Seq<char>> {
    if k == "queryFrequency"@ || k == "queryPeriod"@ || k == "suppressionDuration"@ {
        Some("\"PT5H\""@)
    } else if k == "suppressionEnabled"@ {
        Some("false"@)
    } else if k == "enabled"@ {
        Some("true"@)
    } else if k == "triggerOperator"@ {
        Some("\"GreaterThan\""@)
    } else if k == "triggerThreshold"@ {
        Some("0"@)
    } else {
        None
    }
}

/// The properties after defaulting, in order: missing defaults are
/// appended in a fixed order.
pub open spec fn defaulted(p: Seq<Entry>) -> Seq<Entry> {
    let p1 = fill_seq(p, "queryFrequency"@, "\"PT5H\""@);
    let p2 = fill_seq(p1, "queryPeriod"@, "\"PT5H\""@);
    let p3 = fill_seq(p2, "suppressionDuration"@, "\"PT5H\""@);
    let p4 = fill_seq(p3, "suppressionEnabled"@, "false"@);
    let p5 = fill_seq(p4, "enabled"@, "true"@);
    let p6 = fill_seq(p5, "triggerOperator"@, "\"GreaterThan\""@);
    fill_seq(p6, "triggerThreshold"@, "0"@)
}

/// The properties of a rule as written for caller name `name`.
pub open spec fn written(p: Seq<Entry>, name: Seq<char>) -> Seq<Entry> {
    defaulted(put_seq(p, "displayName"@, json_quoted(name)))
}

/// A property after defaulting: its own value, else its default.
pub open spec fn with_default(props: Seq<Entry>, k: Seq<char>) -> Option<Seq<char>> {
    match lookup(props, k) {
        Some(v) => Some(v),
        None => rule_default(k),
    }
}

/// The member list that a rule is written as.
pub open spec fn rule_members(rule_id: Option<Seq<char>>, etag: Option<Seq<char>>, props: Seq<Entry>) -> Seq<Entry> {
    let id_part: Seq<Entry> = match rule_id {
        Some(i) => seq![("ruleId"@, json_quoted(i))],
        None => Seq::empty(),
    };
    let etag_part: Seq<Entry> = match etag {
        Some(t) => seq![("etag"@, json_quoted(t))],
        None => Seq::empty(),
    };
    id_part + etag_part + seq![("kind"@, "\"Scheduled\""@), ("properties"@, object_text(props))]
}

/// The identifier a call acts on: the rule's own, else the caller's name.
pub open spec fn resolved_id(rule_id: Option<Seq<char>>, name: Seq<char>) -> Seq<char> {
    match rule_id {
        Some(i) => i,
        None => name,
    }
}

/// Picks the rule's own identifier when it has one, else `name`.
pub fn resolve_rule_id(rule_id: &Option<String>, name: &str) -> (r: String)
    ensures
        r@ == resolved_id(opt_text(*rule_id), name@),
{
    match rule_id {
        Some(i) => i.clone(),
        None => String::from_str(name),
    }
}

impl SentinelRule {
    pub open spec fn wf(&self) -> bool {
        keys_unique(entries_view(self.properties@))
    }

    /// The rule was read from the document members `m`.
    pub open spec fn read_from(&self, m: Seq<Entry>) -> bool {
        &&& opt_text(self.rule_id) == opt_string_field(m, "ruleId"@)
        &&& opt_text(self.etag) == opt_string_field(m, "etag"@)
        &&& entries_view(self.properties@) == doc_properties(m)
    }

    /// Reads a rule from a JSON document; errors begin with `prefix`.
    pub fn from_json(text: &str, prefix: &str) -> (r: Result<SentinelRule, String>)
        ensures
            r is Ok <==> (json_object_of(text@) matches Some(m) && rule_doc_ok(m)),
            r matches Ok(rule) ==> rule.read_from(json_object_of(text@)->0) && rule.wf(),
            r matches Err(e) ==> has_prefix(e@, prefix@),
    {
        let m = match object_members(text) {
            Some(m) => m,
            None => {
                let e = crate::text::concat2(prefix, "expected a JSON object");
                assert(e@.subrange(0, prefix@.len() as int) =~= prefix@);
                return Err(e);
            },
        };
        let rule_id = match optional_string_member(&m, "ruleId") {
            Ok(v) => v,
            Err(()) => return Err(field_error(prefix, "ruleId")),
        };
        let etag = match optional_string_member(&m, "etag") {
            Ok(v) => v,
            Err(()) => return Err(field_error(prefix, "etag")),
        };
        let kind_ok = match string_member(&m, "kind") {
            Some(k) => k == String::from_str("Scheduled"),
            None => false,
        };
        if !kind_ok {
            return Err(field_error(prefix, "kind"));
        }
        let props_text = crate::props::get(&m, &String::from_str("properties"));
        let properties = match props_text {
            Some(t) => match object_members(t.as_str()) {
                Some(p) => p,
                None => return Err(field_error(prefix, "properties")),
            },
            None => return Err(field_error(prefix, "properties")),
        };
        Ok(SentinelRule { rule_id, etag, kind: RuleType::Scheduled, properties })
    }

    /// Fills each defaultable property the rule leaves out; present values
    /// stay as they are.
    pub fn default_properties(&mut self)
        ensures
            forall|k: Seq<char>|
                #![trigger lookup(entries_view(final(self).properties@), k)]
                lookup(entries_view(final(self).properties@), k) == with_default(
                    entries_view(old(self).properties@),
                    k,
                ),
            entries_view(final(self).properties@) == defaulted(entries_view(old(self).properties@)),
            final(self).rule_id == old(self).rule_id,
            final(self).etag == old(self).etag,
            final(self).kind == old(self).kind,
            old(self).wf() ==> final(self).wf(),
    {
        proof {
            reveal_strlit("queryFrequency");
            reveal_strlit("queryPeriod");
            reveal_strlit("suppressionDuration");
            reveal_strlit("suppressionEnabled");
            reveal_strlit("enabled");
            reveal_strlit("triggerOperator");
            reveal_strlit("triggerThreshold");
        }
        let ghost p0 = entries_view(self.properties@);
        fill_default(&mut self.properties, String::from_str("queryFrequency"), String::from_str("\"PT5H\""));
        fill_default(&mut self.properties, String::from_str("queryPeriod"), String::from_str("\"PT5H\""));
        fill_default(&mut self.properties, String::from_str("suppressionDuration"), String::from_str("\"PT5H\""));
        fill_default(&mut self.properties, String::from_str("suppressionEnabled"), String::from_str("false"));
        fill_default(&mut self.properties, String::from_str("enabled"), String::from_str("true"));
        fill_default(&mut self.properties, String::from_str("triggerOperator"), String::from_str("\"GreaterThan\""));
        fill_default(&mut self.properties, String::from_str("triggerThreshold"), String::from_str("0"));
        assert forall|k: Seq<char>|
            #[trigger] lookup(entries_view(self.properties@), k) == with_default(p0, k) by {
        }
    }

    /// The members this rule is written as, in order: `ruleId` and `etag`
    /// where set, then `kind` and `properties`.
    pub fn members(&self) -> (r: Vec<(String, String)>)
        ensures
            entries_view(r@) == rule_members(
                opt_text(self.rule_id),
                opt_text(self.etag),
                entries_view(self.properties@),
            ),
    {
        let mut r: Vec<(String, String)> = Vec::new();
        match &self.rule_id {
            Some(i) => r.push((String::from_str("ruleId"), quoted(i.as_str()))),
            None => {},
        }
        match &self.etag {
            Some(t) => r.push((String::from_str("etag"), quoted(t.as_str()))),
            None => {},
        }
        r.push((String::from_str("kind"), String::from_str("\"Scheduled\"")));
        r.push((String::from_str("properties"), write_object(&self.properties)));
        assert(entries_view(r@) =~= rule_members(
            opt_text(self.rule_id),
            opt_text(self.etag),
            entries_view(self.properties@),
        ));
        r
    }

    /// The rule as a JSON document.
    pub fn to_json(&self) -> (r: String)
        ensures
            r@ == object_text(
                rule_members(
                    opt_text(self.rule_id),
                    opt_text(self.etag),
                    entries_view(self.properties@),
                ),
            ),
    {
        write_object(&self.members())
    }
}

pub const RESPONSE_ERROR: &'static str = "unable to parse response: ";

pub const AUTHZ_ERROR: &'static str = "unable to parse azure authz response: ";

pub const AUTHZ_BODY_ERROR: &'static str = "azure authz invalid UTF-8 response: ";

pub const BODY_ERROR: &'static str = "invalid UTF-8 response: ";

pub const READ_BODY_ERROR: &'static str = "response: invalid UTF-8 sequence, ";

pub const NOT_TEXT: &'static str = "response body is not valid UTF-8";

pub const UNAUTHORIZED: &'static str = "Unauthorized";

pub const EMPTY_ID: &'static str = "rule identifier is empty";

/// The message of an Azure error envelope `{"error":{"code","message"}}`.
pub open spec fn cloud_envelope(t: Seq<char>) -> Option<Seq<char>> {
    match json_object_of(t) {
        Some(m) => match lookup(m, "error"@) {
            Some(et) => match json_object_of(et) {
                Some(em) => match (string_field(em, "code"@), string_field(em, "message"@)) {
                    (Some(c), Some(msg)) => Some(c + ": "@ + msg),
                    _ => None,
                },
                None => None,
            },
            None => None,
        },
        None => None,
    }
}

/// The message reported for an error response body: the envelope's code and
/// message, else the body as text; bytes that are not text are a decode
/// failure.
pub open spec fn cloud_error_text(b: Seq<u8>) -> Seq<char> {
    if valid_utf8(b) {
        match cloud_envelope(decode_utf8(b)) {
            Some(x) => x,
            None => decode_utf8(b),
        }
    } else {
        NOT_TEXT@
    }
}

/// The message for an error response whose body was or was not read.
pub open spec fn body_message(body: Result<Vec<u8>, String>) -> Seq<char> {
    match body {
        Ok(b) => cloud_error_text(b@),
        Err(e) => BODY_ERROR@ + e@,
    }
}

/// An Azure error envelope.
#[derive(Debug)]
pub struct CloudError {
    pub code: String,
    pub message: String,
}

impl CloudError {
    /// Reads an error envelope from JSON text.
    pub fn from_text(t: &str) -> (r: Option<CloudError>)
        ensures
            match r {
                Some(c) => cloud_envelope(t@) == Some(c.code@ + ": "@ + c.message@),
                None => cloud_envelope(t@) is None,
            },
    {
        let m = object_members(t)?;
        let et = crate::props::get(&m, &String::from_str("error"))?;
        let em = object_members(et.as_str())?;
        let code = string_member(&em, "code")?;
        let message = string_member(&em, "message")?;
        Some(CloudError { code, message })
    }

    /// The message for an error response body.
    pub fn from_slices(body: &Vec<u8>) -> (r: String)
        ensures
            r@ == cloud_error_text(body@),
    {
        match crate::json::utf8_text(body) {
            Some(t) => match CloudError::from_text(t.as_str()) {
                Some(c) => {
                    let mut s = c.code;
                    s.append(": ");
                    s.append(c.message.as_str());
                    s
                },
                None => t,
            },
            None => String::from_str(NOT_TEXT),
        }
    }
}

/// The message for an error response.
pub fn error_of_body(body: &Result<Vec<u8>, String>) -> (r: String)
    ensures
        r@ == body_message(*body),
{
    match body {
        Ok(b) => CloudError::from_slices(b),
        Err(e) => crate::text::concat2(BODY_ERROR, e.as_str()),
    }
}

/// The operation writes the rule (creation and update are the same upsert).
pub open spec fn writes(op: Operation) -> bool {
    op == Operation::Create || op == Operation::Update
}

/// The address of the rule `id` in a workspace.
pub open spec fn rule_url_text(sub: Seq<char>, rg: Seq<char>, ws: Seq<char>, id: Seq<char>) -> Seq<
    char,
> {
    AZURE_MGT_ENDPOINT@ + "/subscriptions/"@ + sub + "/resourceGroups/"@ + rg
        + "/providers/Microsoft.OperationalInsights/workspaces/"@ + ws
        + "/providers/Microsoft.SecurityInsights/alertRules/"@ + id
}

/// The address of a workspace's rule collection.
pub open spec fn rules_url_text(sub: Seq<char>, rg: Seq<char>, ws: Seq<char>) -> Seq<char> {
    AZURE_MGT_ENDPOINT@ + "/subscriptions/"@ + sub + "/resourcegroups/"@ + rg
        + "/providers/Microsoft.OperationalInsights/workspaces/"@ + ws
        + "/providers/Microsoft.SecurityInsights/alertRules"@
}

/// The token in a successful identity response body.
pub open spec fn authz_token(b: Seq<u8>) -> Option<Seq<char>> {
    if valid_utf8(b) {
        match json_object_of(decode_utf8(b)) {
            Some(m) => string_field(m, "access_token"@),
            None => None,
        }
    } else {
        None
    }
}

/// What the identity exchange yields for an event: the token, or the message.
pub open spec fn token_outcome(ev: Event, r: Result<String, String>) -> bool {
    match ev {
        Event::Failed(e) => r matches Err(x) && x@ == e@,
        Event::Response { status, body } => if status == 200 {
            match body {
                Err(e) => r matches Err(x) && x@ == AUTHZ_BODY_ERROR@ + e@,
                Ok(b) => match authz_token(b@) {
                    Some(t) => r matches Ok(x) && x@ == t,
                    None => r matches Err(x) && has_prefix(x@, AUTHZ_ERROR@),
                },
            }
        } else {
            r matches Err(x) && x@ == body_message(body)
        },
    }
}

impl Sentinel {
    pub open spec fn api_version_or_default(&self) -> Seq<char> {
        match self.api_version {
            Some(v) => v@,
            None => DEFAULT_API_VERSION@,
        }
    }

    pub open spec fn timeout_or_default(&self) -> u64 {
        match self.timeout {
            Some(t) => t,
            None => DEFAULT_TIMEOUT,
        }
    }

    /// The client-credentials request for a management-API token.
    pub fn credentials_request(&self) -> (r: Request)
        ensures
            r.method == Method::Post,
            r.url@ == AZURE_AUTH_DEFAULT_ENDPOINT@ + "/"@ + self.tenant_id@ + "/oauth2/token"@,
            r.query@.len() == 0,
            r.headers@.len() == 0,
            r.body matches Body::Form(f) && entries_view(f@) == seq![
                ("grant_type"@, "client_credentials"@),
                ("client_id"@, self.client_id@),
                ("client_secret"@, self.client_secret@),
                ("resource"@, AZURE_MGT_ENDPOINT@),
            ],
            r.connect_timeout is None,
    {
        let mut url = String::from_str(AZURE_AUTH_DEFAULT_ENDPOINT);
        url.append("/");
        url.append(self.tenant_id.as_str());
        url.append("/oauth2/token");
        let form = vec![
            (String::from_str("grant_type"), String::from_str("client_credentials")),
            (String::from_str("client_id"), self.client_id.clone()),
            (String::from_str("client_secret"), self.client_secret.clone()),
            (String::from_str("resource"), String::from_str(AZURE_MGT_ENDPOINT)),
        ];
        assert(entries_view(form@) =~= seq![
            ("grant_type"@, "client_credentials"@),
            ("client_id"@, self.client_id@),
            ("client_secret"@, self.client_secret@),
            ("resource"@, AZURE_MGT_ENDPOINT@),
        ]);
        Request {
            method: Method::Post,
            url,
            query: Vec::new(),
            headers: Vec::new(),
            body: Body::Form(form),
            connect_timeout: None,
        }
    }

    /// Reads the access token from the identity endpoint's answer.
    pub fn token_from_response(ev: &Event) -> (r: Result<String, String>)
        ensures
            token_outcome(*ev, r),
    {
        match ev {
            Event::Failed(e) => Err(e.clone()),
            Event::Response { status, body } => {
                if *status == 200 {
                    match body {
                        Err(e) => Err(crate::text::concat2(AUTHZ_BODY_ERROR, e.as_str())),
                        Ok(b) => {
                            let parsed = match crate::json::utf8_text(b) {
                                Some(t) => match object_members(t.as_str()) {
                                    Some(m) => string_member(&m, "access_token"),
                                    None => None,
                                },
                                None => None,
                            };
                            match parsed {
                                Some(t) => Ok(t),
                                None => Err(field_error(AUTHZ_ERROR, "access_token")),
                            }
                        },
                    }
                } else {
                    Err(error_of_body(body))
                }
            },
        }
    }

    /// The address of the rule `id`, parsed.
    pub fn rule_url(&self, id: &str) -> (r: Result<String, String>)
        ensures
            crate::http::text_result(r) == url_parsed(
                rule_url_text(
                    self.subscription_id@,
                    self.resource_group_name@,
                    self.workspace_name@,
                    id@,
                ),
            ),
    {
        let mut u = String::from_str(AZURE_MGT_ENDPOINT);
        u.append("/subscriptions/");
        u.append(self.subscription_id.as_str());
        u.append("/resourceGroups/");
        u.append(self.resource_group_name.as_str());
        u.append("/providers/Microsoft.OperationalInsights/workspaces/");
        u.append(self.workspace_name.as_str());
        u.append("/providers/Microsoft.SecurityInsights/alertRules/");
        u.append(id);
        parse_url(u.as_str())
    }

    /// The address of the workspace's rule collection.
    pub fn rules_url(&self) -> (r: String)
        ensures
            r@ == rules_url_text(
                self.subscription_id@,
                self.resource_group_name@,
                self.workspace_name@,
            ),
    {
        let mut u = String::from_str(AZURE_MGT_ENDPOINT);
        u.append("/subscriptions/");
        u.append(self.subscription_id.as_str());
        u.append("/resourcegroups/");
        u.append(self.resource_group_name.as_str());
        u.append("/providers/Microsoft.OperationalInsights/workspaces/");
        u.append(self.workspace_name.as_str());
        u.append("/providers/Microsoft.SecurityInsights/alertRules");
        u
    }

    /// An authenticated management-API request.
    pub fn client(&self, method: Method, url: String, token: &str, json: Option<String>, timeout: bool) -> (r: Request)
        ensures
            r.method == method,
            r.url == url,
            entries_view(r.query@) == seq![("api-version"@, self.api_version_or_default())],
            entries_view(r.headers@) == seq![("Authorization"@, "Bearer "@ + token@)] + (if json is Some {
                seq![("Content-Type"@, "application/json"@)]
            } else {
                Seq::empty()
            }),
            match json {
                Some(j) => r.body matches Body::Json(t) && t@ == j@,
                None => r.body is Empty,
            },
            r.connect_timeout == (if timeout {
                Some(self.timeout_or_default())
            } else {
                None
            }),
    {
        let version = match &self.api_version {
            Some(v) => v.clone(),
            None => String::from_str(DEFAULT_API_VERSION),
        };
        let query = vec![(String::from_str("api-version"), version)];
        let mut headers = vec![
            (String::from_str("Authorization"), crate::text::concat2("Bearer ", token)),
        ];
        let body = match json {
            Some(j) => {
                headers.push((String::from_str("Content-Type"), String::from_str("application/json")));
                Body::Json(j)
            },
            None => Body::Empty,
        };
        let connect_timeout = if timeout {
            Some(
                match self.timeout {
                    Some(t) => t,
                    None => DEFAULT_TIMEOUT,
                },
            )
        } else {
            None
        };
        assert(entries_view(query@) =~= seq![("api-version"@, self.api_version_or_default())]);
        assert(entries_view(headers@) =~= seq![("Authorization"@, "Bearer "@ + token@)] + (if body is Json {
            seq![("Content-Type"@, "application/json"@)]
        } else {
            Seq::<Entry>::empty()
        }));
        Request { method, url, query, headers, body, connect_timeout }
    }

    /// The request that checks access to the workspace's rules.
    pub fn ping_request(&self, token: &str) -> (r: Request)
        ensures
            r.method == Method::Get,
            r.url@ == rules_url_text(
                self.subscription_id@,
                self.resource_group_name@,
                self.workspace_name@,
            ),
            entries_view(r.query@) == seq![("api-version"@, self.api_version_or_default())],
            entries_view(r.headers@) == seq![("Authorization"@, "Bearer "@ + token@)],
            r.body is Empty,
            r.connect_timeout is None,
    {
        let r = self.client(Method::Get, self.rules_url(), token, None, false);
        assert(entries_view(r.headers@) =~= seq![("Authorization"@, "Bearer "@ + token@)]);
        r
    }

    /// The answer to a ping: reachable on any 2xx, unauthorized on 401, else
    /// the error.
    pub fn ping_outcome(ev: &Event) -> (r: Result<bool, String>)
        ensures
            match *ev {
                Event::Failed(e) => r matches Err(x) && x@ == e@,
                Event::Response { status, body } => if 200 <= status < 300 {
                    r == Ok::<bool, String>(true)
                } else if status == 401 {
                    r matches Err(x) && x@ == UNAUTHORIZED@
                } else {
                    r matches Err(x) && x@ == body_message(body)
                },
            },
    {
        match ev {
            Event::Failed(e) => Err(e.clone()),
            Event::Response { status, body } => {
                if 200 <= *status && *status < 300 {
                    Ok(true)
                } else if *status == 401 {
                    Err(String::from_str(UNAUTHORIZED))
                } else {
                    Err(error_of_body(body))
                }
            },
        }
    }
}

/// The members of a settings document, where it is one.
pub open spec fn config_doc(config: Seq<char>) -> Seq<Entry> {
    json_object_of(config)->0
}

/// The address a call on rule `id` targets, by the settings document `cm`.
pub open spec fn doc_rule_url(cm: Seq<Entry>, id: Seq<char>) -> Seq<char> {
    rule_url_text(
        string_field(cm, "subscription_id"@)->0,
        string_field(cm, "resource_group_name"@)->0,
        string_field(cm, "workspace_name"@)->0,
        id,
    )
}

/// The identifier a call with rule document `pm` and caller name `name` uses.
pub open spec fn doc_rule_id(pm: Seq<Entry>, name: Seq<char>) -> Seq<char> {
    resolved_id(opt_string_field(pm, "ruleId"@), name)
}

/// The property a written rule carries: the caller's name as display name,
/// the document's own value, else the default.
pub open spec fn written_property(props: Seq<Entry>, name: Seq<char>, k: Seq<char>) -> Option<
    Seq<char>,
> {
    if k == "displayName"@ {
        Some(json_quoted(name))
    } else {
        with_default(props, k)
    }
}

/// The documents allow a call: settings and rule read, a non-empty
/// identifier, a valid address.
pub open spec fn call_ok(config: Seq<char>, name: Seq<char>, params: Seq<char>) -> bool {
    &&& json_object_of(config) matches Some(cm) && sentinel_doc_ok(cm)
    &&& json_object_of(params) matches Some(pm) && rule_doc_ok(pm)
    &&& doc_rule_id(json_object_of(params)->0, name).len() > 0
    &&& url_parsed(doc_rule_url(config_doc(config), doc_rule_id(json_object_of(params)->0, name))) is Ok
}

/// One rule operation against a workspace, between its steps: the
/// settings, the rule as it will be sent (or as desired, for a read), the
/// identifier and the address.
#[derive(Debug)]
pub struct SentinelCall {
    pub config: Sentinel,
    pub operation: Operation,
    pub rule: SentinelRule,
    pub rule_id: String,
    pub url: String,
}

/// What a write reports for an event.
pub open spec fn write_outcome(ev: Event, r: Result<Option<String>, String>) -> bool {
    match ev {
        Event::Failed(e) => r matches Err(x) && x@ == e@,
        Event::Response { status, body } => if status == 200 || status == 201 {
            r matches Ok(Some(x)) && x@.len() == 0
        } else {
            r matches Err(x) && x@ == body_message(body)
        },
    }
}

/// What a deletion reports for an event.
pub open spec fn delete_outcome(ev: Event, r: Result<Option<String>, String>) -> bool {
    match ev {
        Event::Failed(e) => r matches Err(x) && x@ == e@,
        Event::Response { status, body } => if status == 200 || status == 201 {
            r matches Ok(Some(x)) && x@.len() == 0
        } else if status == 204 || status == 404 {
            r matches Ok(None)
        } else {
            r matches Err(x) && x@ == body_message(body)
        },
    }
}

/// The remote rule document in a response body, where the body is one.
pub open spec fn remote_doc(b: Seq<u8>) -> Option<Seq<Entry>> {
    if valid_utf8(b) {
        match json_object_of(decode_utf8(b)) {
            Some(m) => if rule_doc_ok(m) {
                Some(m)
            } else {
                None
            },
            None => None,
        }
    } else {
        None
    }
}

/// What a read reports for an event: on success, the desired rule with
/// its properties restricted to those the remote rule has, remote values.
pub open spec fn read_outcome(desired: SentinelRule, ev: Event, r: Result<Option<String>, String>) -> bool {
    match ev {
        Event::Failed(e) => r matches Err(x) && x@ == e@,
        Event::Response { status, body } => if status == 200 || status == 201 {
            match body {
                Err(e) => r matches Err(x) && x@ == READ_BODY_ERROR@ + e@,
                Ok(b) => match remote_doc(b@) {
                    Some(rm) => r matches Ok(Some(x)) && x@ == object_text(
                        rule_members(
                            opt_text(desired.rule_id),
                            opt_text(desired.etag),
                            proj_seq(entries_view(desired.properties@), doc_properties(rm)),
                        ),
                    ),
                    None => r matches Err(x) && has_prefix(x@, RESPONSE_ERROR@),
                },
            }
        } else if status == 404 {
            r matches Ok(None)
        } else {
            r matches Err(x) && x@ == body_message(body)
        },
    }
}

impl SentinelCall {
    /// The call was begun for `operation` with these documents: settings
    /// and rule as read, the identifier resolved, the address parsed, and
    /// for writes the display name set and the defaults filled.
    pub open spec fn begun(
        &self,
        operation: Operation,
        config: Seq<char>,
        name: Seq<char>,
        params: Seq<char>,
    ) -> bool {
        let pm = json_object_of(params)->0;
        &&& self.config.read_from(config_doc(config))
        &&& self.operation == operation
        &&& self.rule_id@ == doc_rule_id(pm, name)
        &&& url_parsed(doc_rule_url(config_doc(config), self.rule_id@)) == Ok::<
            Seq<char>,
            Seq<char>,
        >(self.url@)
        &&& opt_text(self.rule.rule_id) == opt_string_field(pm, "ruleId"@)
        &&& opt_text(self.rule.etag) == opt_string_field(pm, "etag"@)
        &&& self.rule.wf()
        &&& if writes(operation) {
            &&& entries_view(self.rule.properties@) == written(doc_properties(pm), name)
            &&& forall|k: Seq<char>|
                #![trigger lookup(entries_view(self.rule.properties@), k)]
                lookup(entries_view(self.rule.properties@), k) == written_property(
                    doc_properties(pm),
                    name,
                    k,
                )
        } else {
            entries_view(self.rule.properties@) == doc_properties(pm)
        }
    }

    /// `req` is the operation's request, authorized by `token`.
    pub open spec fn sent(&self, token: Seq<char>, req: Request) -> bool {
        &&& req.url == self.url
        &&& entries_view(req.headers@)[0] == ("Authorization"@, "Bearer "@ + token)
        &&& req.method == (if writes(self.operation) {
            Method::Put
        } else if self.operation == Operation::Read {
            Method::Get
        } else {
            Method::Delete
        })
        &&& if writes(self.operation) {
            req.body matches Body::Json(j) && j@ == object_text(
                rule_members(
                    opt_text(self.rule.rule_id),
                    opt_text(self.rule.etag),
                    entries_view(self.rule.properties@),
                ),
            )
        } else {
            req.body is Empty
        }
        &&& entries_view(req.query@) == seq![("api-version"@, self.config.api_version_or_default())]
        &&& req.connect_timeout == Some(self.config.timeout_or_default())
    }

    /// Reads the settings and the rule and fixes what the call will send;
    /// nothing is sent before both documents are read.
    pub fn begin(operation: Operation, config: &str, name: &str, params: &str) -> (r: Result<
        SentinelCall,
        String,
    >)
        ensures
            r is Ok <==> call_ok(config@, name@, params@),
            !(json_object_of(config@) matches Some(cm) && sentinel_doc_ok(cm)) ==> (r matches Err(
                e,
            ) && has_prefix(e@, CONFIG_ERROR@)),
            (json_object_of(config@) matches Some(cm) && sentinel_doc_ok(cm)) && !(json_object_of(
                params@,
            ) matches Some(pm) && rule_doc_ok(pm)) ==> (r matches Err(e) && has_prefix(
                e@,
                RULE_ERROR@,
            )),
            (json_object_of(config@) matches Some(cm) && sentinel_doc_ok(cm)) && (json_object_of(
                params@,
            ) matches Some(pm) && rule_doc_ok(pm)) && doc_rule_id(json_object_of(params@)->0, name@).len()
                == 0 ==> (r matches Err(e) && e@ == EMPTY_ID@),
            r matches Ok(call) ==> call.begun(operation, config@, name@, params@),
    {
        let config = Sentinel::parse_configuration(config)?;
        let mut rule = SentinelRule::from_json(params, RULE_ERROR)?;
        let ghost props0 = entries_view(rule.properties@);
        let writing = operation == Operation::Create || operation == Operation::Update;
        if writing {
            set_entry(&mut rule.properties, String::from_str("displayName"), quoted(name));
            rule.default_properties();
            proof {
                reveal_strlit("displayName");
                reveal_strlit("queryFrequency");
                reveal_strlit("queryPeriod");
                reveal_strlit("suppressionDuration");
                reveal_strlit("suppressionEnabled");
                reveal_strlit("enabled");
                reveal_strlit("triggerOperator");
                reveal_strlit("triggerThreshold");
            }
            assert(entries_view(rule.properties@) == written(props0, name@));
            assert forall|k: Seq<char>|
                #[trigger] lookup(entries_view(rule.properties@), k) == written_property(
                    props0,
                    name@,
                    k,
                ) by {}
        }
        let rule_id = resolve_rule_id(&rule.rule_id, name);
        if rule_id.as_str().is_empty() {
            return Err(String::from_str(EMPTY_ID));
        }
        let url = config.rule_url(rule_id.as_str())?;
        Ok(SentinelCall { config, operation, rule, rule_id, url })
    }

    /// The request for a management-API token.
    pub fn credentials_request(&self) -> (r: Request)
        ensures
            r.method == Method::Post,
            r.url@ == AZURE_AUTH_DEFAULT_ENDPOINT@ + "/"@ + self.config.tenant_id@ + "/oauth2/token"@,
            r.body matches Body::Form(f) && entries_view(f@) == seq![
                ("grant_type"@, "client_credentials"@),
                ("client_id"@, self.config.client_id@),
                ("client_secret"@, self.config.client_secret@),
                ("resource"@, AZURE_MGT_ENDPOINT@),
            ],
            r.connect_timeout is None,
    {
        self.config.credentials_request()
    }

    /// Given the identity endpoint's answer, the request for the operation
    /// itself: writes PUT the rule as JSON, reads GET, deletions DELETE.
    pub fn on_credentials(&self, ev: &Event) -> (r: Result<Request, String>)
        ensures
            match Sentinel::token_from_response_spec(*ev) {
                Some(t) => r matches Ok(req) && self.sent(t, req),
                None => r is Err && token_outcome(*ev, Err(r->Err_0)),
            },
    {
        let token = Sentinel::token_from_response(ev)?;
        let writing = self.operation == Operation::Create || self.operation == Operation::Update;
        if writing {
            let json = self.rule.to_json();
            Ok(self.config.client(Method::Put, self.url.clone(), token.as_str(), Some(json), true))
        } else if self.operation == Operation::Read {
            Ok(self.config.client(Method::Get, self.url.clone(), token.as_str(), None, true))
        } else {
            Ok(self.config.client(Method::Delete, self.url.clone(), token.as_str(), None, true))
        }
    }

    /// What the operation reports, given the answer to its request.
    pub fn on_response(&self, ev: &Event) -> (r: Result<Option<String>, String>)
        ensures
            writes(self.operation) ==> write_outcome(*ev, r),
            self.operation == Operation::Read ==> read_outcome(self.rule, *ev, r),
            self.operation == Operation::Delete ==> delete_outcome(*ev, r),
    {
        match ev {
            Event::Failed(e) => Err(e.clone()),
            Event::Response { status, body } => {
                let status = *status;
                let writing = self.operation == Operation::Create || self.operation
                    == Operation::Update;
                if writing {
                    if status == 200 || status == 201 {
                        Ok(Some(String::new()))
                    } else {
                        Err(error_of_body(body))
                    }
                } else if self.operation == Operation::Read {
                    if status == 200 || status == 201 {
                        match body {
                            Err(e) => Err(crate::text::concat2(READ_BODY_ERROR, e.as_str())),
                            Ok(b) => self.read_reply(b),
                        }
                    } else if status == 404 {
                        Ok(None)
                    } else {
                        Err(error_of_body(body))
                    }
                } else {
                    if status == 200 || status == 201 {
                        Ok(Some(String::new()))
                    } else if status == 204 || status == 404 {
                        Ok(None)
                    } else {
                        Err(error_of_body(body))
                    }
                }
            },
        }
    }

    /// The desired rule with its properties restricted to the remote rule's.
    fn read_reply(&self, b: &Vec<u8>) -> (r: Result<Option<String>, String>)
        ensures
            match remote_doc(b@) {
                Some(rm) => r matches Ok(Some(x)) && x@ == object_text(
                    rule_members(
                        opt_text(self.rule.rule_id),
                        opt_text(self.rule.etag),
                        proj_seq(entries_view(self.rule.properties@), doc_properties(rm)),
                    ),
                ),
                None => r matches Err(x) && has_prefix(x@, RESPONSE_ERROR@),
            },
    {
        let text = match crate::json::utf8_text(b) {
            Some(t) => t,
            None => {
                let e = crate::text::concat2(RESPONSE_ERROR, NOT_TEXT);
                assert(e@.subrange(0, RESPONSE_ERROR@.len() as int) =~= RESPONSE_ERROR@);
                return Err(e);
            },
        };
        let remote = SentinelRule::from_json(text.as_str(), RESPONSE_ERROR)?;
        let filtered = project(&self.rule.properties, &remote.properties);
        let reply = SentinelRule {
            rule_id: self.rule.rule_id.clone(),
            etag: self.rule.etag.clone(),
            kind: self.rule.kind,
            properties: filtered,
        };
        Ok(Some(reply.to_json()))
    }
}

impl Sentinel {
    /// The token an identity answer carries, where it carries one.
    pub open spec fn token_from_response_spec(ev: Event) -> Option<Seq<char>> {
        match ev {
            Event::Response { status, body } => if status == 200 {
                match body {
                    Ok(b) => authz_token(b@),
                    Err(_) => None,
                }
            } else {
                None
            },
            Event::Failed(_) => None,
        }
    }
}

/// A backend that keeps rule documents by address and treats PUT as an
/// upsert: the state after it receives `req`.
pub open spec fn upsert(store: Map<Seq<char>, Seq<char>>, req: Request) -> Map<Seq<char>, Seq<char>> {
    if req.method == Method::Put {
        match req.body {
            Body::Json(j) => store.insert(req.url@, j@),
            _ => store,
        }
    } else {
        store
    }
}

/// Writing a rule twice with the same settings, name and rule document
/// leaves an upsert backend as writing it once, whatever tokens authorized
/// the two requests.
pub proof fn lemma_write_idempotent(
    store: Map<Seq<char>, Seq<char>>,
    operation: Operation,
    config: Seq<char>,
    name: Seq<char>,
    params: Seq<char>,
    first: SentinelCall,
    second: SentinelCall,
    t1: Seq<char>,
    t2: Seq<char>,
    q1: Request,
    q2: Request,
)
    requires
        writes(operation),
        first.begun(operation, config, name, params),
        second.begun(operation, config, name, params),
        first.sent(t1, q1),
        second.sent(t2, q2),
    ensures
        upsert(upsert(store, q1), q2) == upsert(store, q1),
{
    assert(first.url@ == second.url@);
    assert(q1.url@ == q2.url@);
    assert(q1.body->Json_0@ == q2.body->Json_0@);
    assert(upsert(upsert(store, q1), q2) =~= upsert(store, q1));
}

} // verus!
