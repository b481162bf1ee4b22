//! Splunk saved searches, reached through the REST API with a pre-shared
//! authorization token.

use vstd::prelude::*;
use vstd::utf8::{decode_utf8, valid_utf8};
use crate::props::{Entry, entries_view, keys_unique, lookup, put_seq, proj_seq, project, set_entry};
use crate::http::{Body, Event, Method, Operation, Request, join_url, parse_url, text_result, url_joined, url_parsed};
use crate::json::{
    json_array_of, json_object_of, json_quoted, json_string_of, object_text, opt_text,
    string_field, opt_string_ok, opt_string_field, opt_u64_ok, opt_u64_field, has_prefix,
    object_members, array_elements, string_member, string_value, optional_string_member,
    optional_u64_member, field_error, quoted, write_object,
};
use crate::text::{decimal, decimal_text, concat2};

verus! {

pub const CONFIG_ERROR: &'static str = "unable to parse configuration: ";

pub const SEARCH_ERROR: &'static str = "unable to parse detection url: ";

pub const RESPONSE_ERROR: &'static str = "unable to parse response: ";

pub const NOT_TEXT: &'static str = "response body is not valid UTF-8";

pub const DEFAULT_TIMEOUT: u64 = 60;

pub const EMPTY_NAME: &'static str = "saved search name is empty";

/// Connection settings of a Splunk instance.
#[derive(Debug)]
pub struct Splunk {
    pub endpoint: String,
    pub authorization: String,
    pub authorization_scheme: String,
    pub timeout: Option<u64>,
}

/// The settings document holds the three strings and, optionally, a
/// timeout.
pub open spec fn splunk_doc_ok(m: Seq<Entry>) -> bool {
    &&& string_field(m, "endpoint"@) is Some
    &&& string_field(m, "authorization"@) is Some
    &&& string_field(m, "authorization_scheme"@) is Some
    &&& opt_u64_ok(m, "timeout"@)
}

impl Splunk {
    /// The settings were read from the document members `m`.
    pub open spec fn read_from(&self, m: Seq<Entry>) -> bool {
        &&& string_field(m, "endpoint"@) == Some(self.endpoint@)
        &&& string_field(m, "authorization"@) == Some(self.authorization@)
        &&& string_field(m, "authorization_scheme"@) == Some(self.authorization_scheme@)
        &&& opt_u64_field(m, "timeout"@) == self.timeout
    }

    pub open spec fn timeout_or_default(&self) -> u64 {
        match self.timeout {
            Some(t) => t,
            None => DEFAULT_TIMEOUT,
        }
    }

    /// The value of the `Authorization` header.
    pub open spec fn auth_header(&self) -> Seq<char> {
        self.authorization_scheme@ + " "@ + self.authorization@
    }

    /// Reads the settings from a JSON document.
    pub fn parse_configuration(config: &str) -> (r: Result<Splunk, String>)
        ensures
            r is Ok <==> (json_object_of(config@) matches Some(m) && splunk_doc_ok(m)),
            r matches Ok(c) ==> c.read_from(json_object_of(config@)->0),
            r matches Err(e) ==> has_prefix(e@, CONFIG_ERROR@),
    {
        let m = match object_members(config) {
            Some(m) => m,
            None => {
                let e = concat2(CONFIG_ERROR, "expected a JSON object");
                assert(e@.subrange(0, CONFIG_ERROR@.len() as int) =~= CONFIG_ERROR@);
                return Err(e);
            },
        };
        let endpoint = match string_member(&m, "endpoint") {
            Some(v) => v,
            None => return Err(field_error(CONFIG_ERROR, "endpoint")),
        };
        let authorization = match string_member(&m, "authorization") {
            Some(v) => v,
            None => return Err(field_error(CONFIG_ERROR, "authorization")),
        };
        let authorization_scheme = match string_member(&m, "authorization_scheme") {
            Some(v) => v,
            None => return Err(field_error(CONFIG_ERROR, "authorization_scheme")),
        };
        let timeout = match optional_u64_member(&m, "timeout") {
            Ok(v) => v,
            Err(()) => return Err(field_error(CONFIG_ERROR, "timeout")),
        };
        Ok(Splunk { endpoint, authorization, authorization_scheme, timeout })
    }

    /// An authorized request with the configured connect timeout.
    pub fn request(&self, method: Method, url: String, query: Vec<(String, String)>, body: Body) -> (r: Request)
        ensures
            r.method == method,
            r.url == url,
            r.query == query,
            entries_view(r.headers@) == seq![("Authorization"@, self.auth_header())],
            r.body == body,
            r.connect_timeout == Some(self.timeout_or_default()),
    {
        let mut auth = self.authorization_scheme.clone();
        auth.append(" ");
        auth.append(self.authorization.as_str());
        let headers = vec![(String::from_str("Authorization"), auth)];
        assert(entries_view(headers@) =~= seq![("Authorization"@, self.auth_header())]);
        let connect_timeout = Some(
            match self.timeout {
                Some(t) => t,
                None => DEFAULT_TIMEOUT,
            },
        );
        Request { method, url, query, headers, body, connect_timeout }
    }
}

/// The saved-search collection of an app, as seen by a user.
pub open spec fn searches_base(endpoint: Seq<char>, app: Option<Seq<char>>, user: Option<Seq<char>>) -> Seq<char> {
    let u = match user {
        Some(u) => u,
        None => "nobody"@,
    };
    let a = match app {
        Some(a) => a,
        None => "-"@,
    };
    endpoint + "/servicesNS/"@ + u + "/"@ + a + "/saved/searches/"@
}

/// The address of an installed app.
pub open spec fn app_url_text(endpoint: Seq<char>, app: Seq<char>) -> Seq<char> {
    endpoint + "/services/apps/local/"@ + app
}

impl Splunk {
    /// The address `path` resolves to under the saved-search collection.
    pub fn searches_url(&self, path: &str, app: Option<&str>, user: &Option<String>) -> (r: Result<String, String>)
        ensures
            text_result(r) == url_joined(
                searches_base(self.endpoint@, match app { Some(a) => Some(a@), None => None }, opt_text(*user)),
                path@,
            ),
    {
        let mut base = self.endpoint.clone();
        base.append("/servicesNS/");
        match user {
            Some(u) => base.append(u.as_str()),
            None => base.append("nobody"),
        }
        base.append("/");
        match app {
            Some(a) => base.append(a),
            None => base.append("-"),
        }
        base.append("/saved/searches/");
        join_url(base.as_str(), path)
    }

    /// The request that checks that `app` is installed.
    pub fn target_app_request(&self, app: &str) -> (r: Result<Request, String>)
        ensures
            match url_parsed(app_url_text(self.endpoint@, app@)) {
                Ok(u) => r matches Ok(req) && req.url@ == u && req.method == Method::Get
                    && req.query@.len() == 0 && req.body is Empty
                    && entries_view(req.headers@) == seq![("Authorization"@, self.auth_header())]
                    && req.connect_timeout == Some(self.timeout_or_default()),
                Err(e) => r matches Err(x) && x@ == e,
            },
    {
        let mut u = self.endpoint.clone();
        u.append("/services/apps/local/");
        u.append(app);
        let url = parse_url(u.as_str())?;
        Ok(self.request(Method::Get, url, Vec::new(), Body::Empty))
    }

    /// What the app check reports: success on 200, a missing app on 404.
    pub fn target_app_outcome(app: &str, ev: &Event) -> (r: Result<(), String>)
        ensures
            match *ev {
                Event::Failed(e) => r matches Err(x) && x@ == e@,
                Event::Response { status, body } => if status == 200 {
                    r is Ok
                } else if status == 404 {
                    r matches Err(x) && x@ == "target app '"@ + app@ + "' not found"@
                } else {
                    r matches Err(x) && x@ == "unable to check target app: HTTP/"@ + decimal(status as nat)
                },
            },
    {
        match ev {
            Event::Failed(e) => Err(e.clone()),
            Event::Response { status, body: _ } => {
                if *status == 200 {
                    Ok(())
                } else if *status == 404 {
                    let mut s = String::from_str("target app '");
                    s.append(app);
                    s.append("' not found");
                    Err(s)
                } else {
                    let d = decimal_text(*status as u64);
                    Err(concat2("unable to check target app: HTTP/", d.as_str()))
                }
            },
        }
    }
}

/// A saved search as the caller describes it: the app and user that own
/// it, and its settings (each value as JSON text).
#[derive(Debug)]
pub struct SavedSearch {
    pub app: String,
    pub user: Option<String>,
    pub savedsearch: Vec<(String, String)>,
}

/// The search document names an app and holds an object of settings.
pub open spec fn search_doc_ok(m: Seq<Entry>) -> bool {
    &&& string_field(m, "app"@) is Some
    &&& opt_string_ok(m, "user"@)
    &&& lookup(m, "savedsearch"@) matches Some(t) && json_object_of(t) is Some
}

/// The settings members of a search document.
pub open spec fn doc_settings(m: Seq<Entry>) -> Seq<Entry> {
    json_object_of(lookup(m, "savedsearch"@)->0)->0
}

/// The member list a saved search is written as: `app`, `user` where set,
/// then `savedsearch`.
pub open spec fn search_members(app: Seq<char>, user: Option<Seq<char>>, settings: Seq<Entry>) -> Seq<Entry> {
    let user_part: Seq<Entry> = match user {
        Some(u) => seq![("user"@, json_quoted(u))],
        None => Seq::empty(),
    };
    seq![("app"@, json_quoted(app))] + user_part + seq![("savedsearch"@, object_text(settings))]
}

/// How a setting is sent in a form: a string as itself, anything else as
/// its JSON text.
pub open spec fn form_value(t: Seq<char>) -> Seq<char> {
    match json_string_of(t) {
        Some(s) => s,
        None => t,
    }
}

pub open spec fn form_seq(s: Seq<Entry>) -> Seq<Entry> {
    s.map_values(|e: Entry| (e.0, form_value(e.1)))
}

/// One `f` field per setting, naming it.
pub open spec fn field_names(s: Seq<Entry>) -> Seq<Entry> {
    s.map_values(|e: Entry| ("f"@, e.0))
}

/// The query of a read: one `f` per setting, then the output mode.
pub open spec fn filter_query(s: Seq<Entry>) -> Seq<Entry> {
    field_names(s).push(("output_mode"@, "json"@))
}

impl SavedSearch {
    pub open spec fn wf(&self) -> bool {
        keys_unique(entries_view(self.savedsearch@))
    }

    /// The search was read from the document members `m`.
    pub open spec fn read_from(&self, m: Seq<Entry>) -> bool {
        &&& string_field(m, "app"@) == Some(self.app@)
        &&& opt_text(self.user) == opt_string_field(m, "user"@)
        &&& entries_view(self.savedsearch@) == doc_settings(m)
    }

    /// Reads a saved search from a JSON document; errors begin with
    /// `prefix`.
    pub fn from_json(text: &str, prefix: &str) -> (r: Result<SavedSearch, String>)
        ensures
            r is Ok <==> (json_object_of(text@) matches Some(m) && search_doc_ok(m)),
            r matches Ok(s) ==> s.read_from(json_object_of(text@)->0) && s.wf(),
            r matches Err(e) ==> has_prefix(e@, prefix@),
    {
        let m = match object_members(text) {
            Some(m) => m,
            None => {
                let e = concat2(prefix, "expected a JSON object");
                assert(e@.subrange(0, prefix@.len() as int) =~= prefix@);
                return Err(e);
            },
        };
        let app = match string_member(&m, "app") {
            Some(v) => v,
            None => return Err(field_error(prefix, "app")),
        };
        let user = match optional_string_member(&m, "user") {
            Ok(v) => v,
            Err(()) => return Err(field_error(prefix, "user")),
        };
        let savedsearch = match crate::props::get(&m, &String::from_str("savedsearch")) {
            Some(t) => match object_members(t.as_str()) {
                Some(p) => p,
                None => return Err(field_error(prefix, "savedsearch")),
            },
            None => return Err(field_error(prefix, "savedsearch")),
        };
        Ok(SavedSearch { app, user, savedsearch })
    }

    /// The search as a JSON document.
    pub fn to_json(&self) -> (r: String)
        ensures
            r@ == object_text(
                search_members(self.app@, opt_text(self.user), entries_view(self.savedsearch@)),
            ),
    {
        let mut m: Vec<(String, String)> = Vec::new();
        m.push((String::from_str("app"), quoted(self.app.as_str())));
        match &self.user {
            Some(u) => m.push((String::from_str("user"), quoted(u.as_str()))),
            None => {},
        }
        m.push((String::from_str("savedsearch"), write_object(&self.savedsearch)));
        assert(entries_view(m@) =~= search_members(
            self.app@,
            opt_text(self.user),
            entries_view(self.savedsearch@),
        ));
        write_object(&m)
    }

    /// The settings as form fields.
    pub fn form(&self) -> (r: Vec<(String, String)>)
        ensures
            entries_view(r@) == form_seq(entries_view(self.savedsearch@)),
    {
        let ghost s = entries_view(self.savedsearch@);
        let mut r: Vec<(String, String)> = Vec::new();
        let mut i: usize = 0;
        while i < self.savedsearch.len()
            invariant
                s == entries_view(self.savedsearch@),
                i <= s.len(),
                entries_view(r@) == form_seq(s).subrange(0, i as int),
            decreases s.len() - i,
        {
            let k = self.savedsearch[i].0.clone();
            let t = self.savedsearch[i].1.clone();
            assert(s[i as int] == (k@, t@));
            let ghost r0 = entries_view(r@);
            let v = match string_value(t.as_str()) {
                Some(v) => v,
                None => t.clone(),
            };
            assert(v@ == form_value(t@));
            let ghost kv = (k@, v@);
            r.push((k, v));
            assert(entries_view(r@) =~= r0.push(kv));
            assert(entries_view(r@) =~= form_seq(s).subrange(0, i + 1));
            i = i + 1;
        }
        assert(form_seq(s).subrange(0, s.len() as int) =~= form_seq(s));
        r
    }

    /// The query of a read: one `f` per setting, then the output mode.
    pub fn filter(&self) -> (r: Vec<(String, String)>)
        ensures
            entries_view(r@) == filter_query(entries_view(self.savedsearch@)),
    {
        let ghost s = entries_view(self.savedsearch@);
        let mut r: Vec<(String, String)> = Vec::new();
        let mut i: usize = 0;
        while i < self.savedsearch.len()
            invariant
                s == entries_view(self.savedsearch@),
                i <= s.len(),
                entries_view(r@) == field_names(s).subrange(0, i as int),
            decreases s.len() - i,
        {
            let ghost r0 = entries_view(r@);
            let name = self.savedsearch[i].0.clone();
            assert(s[i as int].0 == name@);
            r.push((String::from_str("f"), name));
            proof {
                reveal_strlit("f");
            }
            assert(entries_view(r@) =~= r0.push(("f"@, s[i as int].0)));
            assert(entries_view(r@) =~= field_names(s).subrange(0, i + 1));
            i = i + 1;
        }
        assert(field_names(s).subrange(0, s.len() as int) =~= field_names(s));
        r.push((String::from_str("output_mode"), String::from_str("json")));
        assert(entries_view(r@) =~= filter_query(s));
        r
    }
}

/// The text of one message object: its type and text.
pub open spec fn message_of(t: Seq<char>) -> Option<Seq<char>> {
    match json_object_of(t) {
        Some(mm) => match (string_field(mm, "type"@), string_field(mm, "text"@)) {
            (Some(a), Some(b)) => Some(a + ": "@ + b),
            _ => None,
        },
        None => None,
    }
}

/// The first message of a `{"messages":[{type,text},...]}` envelope, when
/// the whole list is well-formed and not empty.
pub open spec fn messages_envelope(t: Seq<char>) -> Option<Seq<char>> {
    match json_object_of(t) {
        Some(m) => match lookup(m, "messages"@) {
            Some(at) => match json_array_of(at) {
                Some(els) => if els.len() > 0 && forall|i: int|
                    0 <= i < els.len() ==> #[trigger] message_of(els[i]) is Some {
                    message_of(els[0])
                } else {
                    None
                },
                None => None,
            },
            None => None,
        },
        None => None,
    }
}

/// The message for a rejected request's body.
pub open spec fn bad_request_text(b: Seq<u8>) -> Seq<char> {
    if valid_utf8(b) {
        match messages_envelope(decode_utf8(b)) {
            Some(x) => x,
            None => "RAW_ERROR: "@ + decode_utf8(b),
        }
    } else {
        NOT_TEXT@
    }
}

/// The message for a rejected request.
pub open spec fn bad_request_message(body: Result<Vec<u8>, String>) -> Seq<char> {
    match body {
        Ok(b) => bad_request_text(b@),
        Err(e) => e@,
    }
}

/// A status with no meaning of its own for the operation.
pub open spec fn http_code(status: u16) -> Seq<char> {
    "HTTP/"@ + decimal(status as nat)
}

/// A message of a `messages` envelope.
#[derive(Debug)]
pub struct Message {
    pub kind: String,
    pub text: String,
}

impl Message {
    /// Reads one message object, as `type: text`.
    pub fn from_text(t: &str) -> (r: Option<String>)
        ensures
            opt_text(r) == message_of(t@),
    {
        let mm = object_members(t)?;
        let kind = string_member(&mm, "type")?;
        let text = string_member(&mm, "text")?;
        let m = Message { kind, text };
        let mut s = m.kind;
        s.append(": ");
        s.append(m.text.as_str());
        Some(s)
    }

    /// Every element is a message object.
    fn all_well_formed(els: &Vec<String>) -> (r: bool)
        ensures
            r <==> forall|j: int|
                0 <= j < els@.len() ==> #[trigger] message_of(crate::json::texts_view(els@)[j]) is Some,
    {
        let ghost es = crate::json::texts_view(els@);
        let mut i: usize = 0;
        while i < els.len()
            invariant
                es == crate::json::texts_view(els@),
                i <= els@.len(),
                forall|j: int| 0 <= j < i ==> #[trigger] message_of(es[j]) is Some,
            decreases els@.len() - i,
        {
            if Message::from_text(els[i].as_str()).is_none() {
                assert(message_of(es[i as int]) is None);
                return false;
            }
            i = i + 1;
        }
        true
    }

    /// The first message of an envelope.
    pub fn first_of(t: &str) -> (r: Option<String>)
        ensures
            opt_text(r) == messages_envelope(t@),
    {
        let m = object_members(t)?;
        let at = crate::props::get(&m, &String::from_str("messages"))?;
        let els = array_elements(at.as_str())?;
        if els.len() == 0 {
            return None;
        }
        let first = Message::from_text(els[0].as_str());
        if !Message::all_well_formed(&els) {
            return None;
        }
        first
    }

    /// The message for a rejected request's body.
    pub fn from_body(body: &Result<Vec<u8>, String>) -> (r: String)
        ensures
            r@ == bad_request_message(*body),
    {
        match body {
            Err(e) => e.clone(),
            Ok(b) => match crate::json::utf8_text(b) {
                Some(t) => match Message::first_of(t.as_str()) {
                    Some(x) => x,
                    None => concat2("RAW_ERROR: ", t.as_str()),
                },
                None => String::from_str(NOT_TEXT),
            },
        }
    }
}

/// The message for a status with no meaning of its own.
pub fn http_status_error(status: u16) -> (r: String)
    ensures
        r@ == http_code(status),
{
    let d = decimal_text(status as u64);
    concat2("HTTP/", d.as_str())
}

/// The settings of the first entry of a search listing, when every entry
/// is an object with an object of settings and there is one.
pub open spec fn entry_content(t: Seq<char>) -> Option<Seq<Entry>> {
    match json_object_of(t) {
        Some(m) => match lookup(m, "content"@) {
            Some(c) => json_object_of(c),
            None => None,
        },
        None => None,
    }
}

pub open spec fn search_content(t: Seq<char>) -> Option<Seq<Entry>> {
    match json_object_of(t) {
        Some(m) => match lookup(m, "entry"@) {
            Some(at) => match json_array_of(at) {
                Some(els) => if els.len() > 0 && forall|i: int|
                    0 <= i < els.len() ==> #[trigger] entry_content(els[i]) is Some {
                    entry_content(els[0])
                } else {
                    None
                },
                None => None,
            },
            None => None,
        },
        None => None,
    }
}

fn entry_content_of(t: &str) -> (r: Option<Vec<(String, String)>>)
    ensures
        match r {
            Some(v) => entry_content(t@) == Some(entries_view(v@)),
            None => entry_content(t@) is None,
        },
{
    let m = object_members(t)?;
    let c = crate::props::get(&m, &String::from_str("content"))?;
    object_members(c.as_str())
}

fn all_entries(els: &Vec<String>) -> (r: bool)
    ensures
        r <==> forall|j: int|
            0 <= j < els@.len() ==> #[trigger] entry_content(crate::json::texts_view(els@)[j]) is Some,
{
    let ghost es = crate::json::texts_view(els@);
    let mut i: usize = 0;
    while i < els.len()
        invariant
            es == crate::json::texts_view(els@),
            i <= els@.len(),
            forall|j: int| 0 <= j < i ==> #[trigger] entry_content(es[j]) is Some,
        decreases els@.len() - i,
    {
        if entry_content_of(els[i].as_str()).is_none() {
            assert(entry_content(es[i as int]) is None);
            return false;
        }
        i = i + 1;
    }
    true
}

/// Reads the settings of the first entry of a search listing.
pub fn search_content_of(t: &str) -> (r: Option<Vec<(String, String)>>)
    ensures
        match r {
            Some(v) => search_content(t@) == Some(entries_view(v@)),
            None => search_content(t@) is None,
        },
{
    let m = object_members(t)?;
    let at = crate::props::get(&m, &String::from_str("entry"))?;
    let els = array_elements(at.as_str())?;
    if els.len() == 0 {
        return None;
    }
    let first = entry_content_of(els[0].as_str());
    if !all_entries(&els) {
        return None;
    }
    first
}

/// What a write reports: success on 200 or 201 once the body reads as
/// text, the first message on 400, the status otherwise.
pub open spec fn write_outcome(ev: Event, r: Result<Option<String>, String>) -> bool {
    match ev {
        Event::Failed(e) => r matches Err(x) && x@ == e@,
        Event::Response { status, body } => if status == 200 || status == 201 {
            match body {
                Ok(b) => if valid_utf8(b@) {
                    r matches Ok(Some(x)) && x@ == "OK"@
                } else {
                    r matches Err(x) && x@ == NOT_TEXT@
                },
                Err(e) => r matches Err(x) && x@ == e@,
            }
        } else if status == 400 {
            r matches Err(x) && x@ == bad_request_message(body)
        } else {
            r matches Err(x) && x@ == http_code(status)
        },
    }
}

/// What a deletion reports.
pub open spec fn delete_outcome(ev: Event, r: Result<Option<String>, String>) -> bool {
    match ev {
        Event::Response { status, body } => if status == 204 || status == 404 {
            r matches Ok(None)
        } else {
            write_outcome(ev, r)
        },
        Event::Failed(e) => write_outcome(ev, r),
    }
}

/// What a read reports: on success the desired search with its settings
/// restricted to those the remote search has, remote values.
pub open spec fn read_outcome(desired: SavedSearch, ev: Event, r: Result<Option<String>, String>) -> bool {
    match ev {
        Event::Failed(e) => r matches Err(x) && x@ == e@,
        Event::Response { status, body } => if status == 200 || status == 201 {
            match body {
                Err(e) => r matches Err(x) && x@ == e@,
                Ok(b) => if !valid_utf8(b@) {
                    r matches Err(x) && x@ == NOT_TEXT@
                } else {
                    match search_content(decode_utf8(b@)) {
                        Some(c) => r matches Ok(Some(x)) && x@ == object_text(
                            search_members(
                                desired.app@,
                                opt_text(desired.user),
                                proj_seq(entries_view(desired.savedsearch@), c),
                            ),
                        ),
                        None => r matches Err(x) && has_prefix(x@, RESPONSE_ERROR@),
                    }
                },
            }
        } else if status == 404 {
            r matches Ok(None)
        } else {
            r matches Err(x) && x@ == http_code(status)
        },
    }
}

/// The documents allow a call: settings and search read, and the addresses
/// it needs valid.
pub open spec fn call_ok(operation: Operation, config: Seq<char>, name: Seq<char>, params: Seq<char>) -> bool {
    &&& json_object_of(config) matches Some(cm) && splunk_doc_ok(cm)
    &&& json_object_of(params) matches Some(pm) && search_doc_ok(pm)
    &&& name.len() > 0
    &&& {
        let cm = json_object_of(config)->0;
        let pm = json_object_of(params)->0;
        let endpoint = string_field(cm, "endpoint"@)->0;
        let app = string_field(pm, "app"@)->0;
        &&& (probes(operation) ==> url_parsed(app_url_text(endpoint, app)) is Ok)
        &&& url_joined(
            searches_base(endpoint, Some(app), opt_string_field(pm, "user"@)),
            target_path(operation, name),
        ) is Ok
    }
}

/// Reads and deletions first check that the app exists.
pub open spec fn probes(operation: Operation) -> bool {
    operation == Operation::Read || operation == Operation::Delete
}

/// The path of the call under the saved-search collection: the collection
/// itself for creation, the named search otherwise.
pub open spec fn target_path(operation: Operation, name: Seq<char>) -> Seq<char> {
    if operation == Operation::Create {
        Seq::empty()
    } else {
        name
    }
}

/// One operation on a saved search, between its steps.
#[derive(Debug)]
pub struct SplunkCall {
    pub config: Splunk,
    pub operation: Operation,
    pub search: SavedSearch,
    /// The app check to make first, for reads and deletions.
    pub probe: Option<Request>,
    /// The request of the operation itself.
    pub request: Request,
}

impl SplunkCall {
    /// The call was begun for `operation` with these documents.
    pub open spec fn begun(&self, operation: Operation, config: Seq<char>, name: Seq<char>, params: Seq<char>) -> bool {
        let cm = json_object_of(config)->0;
        let pm = json_object_of(params)->0;
        let c = self.config;
        let req = self.request;
        &&& c.read_from(cm)
        &&& self.operation == operation
        &&& self.search.app@ == string_field(pm, "app"@)->0
        &&& opt_text(self.search.user) == opt_string_field(pm, "user"@)
        &&& entries_view(self.search.savedsearch@) == (if operation == Operation::Create {
            put_seq(doc_settings(pm), "name"@, json_quoted(name))
        } else {
            doc_settings(pm)
        })
        &&& self.search.wf()
        &&& match self.probe {
            Some(p) => probes(operation) && url_parsed(app_url_text(c.endpoint@, self.search.app@))
                == Ok::<Seq<char>, Seq<char>>(p.url@) && p.method == Method::Get && p.body is Empty
                && entries_view(p.headers@) == seq![("Authorization"@, c.auth_header())],
            None => !probes(operation),
        }
        &&& url_joined(
            searches_base(c.endpoint@, Some(self.search.app@), opt_text(self.search.user)),
            target_path(operation, name),
        ) == Ok::<Seq<char>, Seq<char>>(req.url@)
        &&& req.method == (if operation == Operation::Read {
            Method::Get
        } else if operation == Operation::Delete {
            Method::Delete
        } else {
            Method::Post
        })
        &&& entries_view(req.query@) == (if operation == Operation::Read {
            filter_query(entries_view(self.search.savedsearch@))
        } else {
            seq![("output_mode"@, "json"@)]
        })
        &&& if probes(operation) {
            req.body is Empty
        } else {
            req.body matches Body::Form(f) && entries_view(f@) == form_seq(
                entries_view(self.search.savedsearch@),
            )
        }
        &&& entries_view(req.headers@) == seq![("Authorization"@, c.auth_header())]
        &&& req.connect_timeout == Some(c.timeout_or_default())
    }

    /// Reads the settings and the search and fixes the requests of the
    /// call; nothing is sent before both documents are read.
    pub fn begin(operation: Operation, config: &str, name: &str, params: &str) -> (r: Result<
        SplunkCall,
        String,
    >)
        ensures
            r is Ok <==> call_ok(operation, config@, name@, params@),
            !(json_object_of(config@) matches Some(cm) && splunk_doc_ok(cm)) ==> (r matches Err(
                e,
            ) && has_prefix(e@, CONFIG_ERROR@)),
            (json_object_of(config@) matches Some(cm) && splunk_doc_ok(cm)) && !(json_object_of(
                params@,
            ) matches Some(pm) && search_doc_ok(pm)) ==> (r matches Err(e) && has_prefix(
                e@,
                (if operation == Operation::Read {
                    RESPONSE_ERROR@
                } else {
                    SEARCH_ERROR@
                }),
            )),
            (json_object_of(config@) matches Some(cm) && splunk_doc_ok(cm)) && (json_object_of(
                params@,
            ) matches Some(pm) && search_doc_ok(pm)) && name@.len() == 0 ==> (r matches Err(e) && e@
                == EMPTY_NAME@),
            r matches Ok(call) ==> call.begun(operation, config@, name@, params@),
    {
        let config = Splunk::parse_configuration(config)?;
        let prefix = if operation == Operation::Read {
            RESPONSE_ERROR
        } else {
            SEARCH_ERROR
        };
        let mut search = SavedSearch::from_json(params, prefix)?;
        if name.is_empty() {
            return Err(String::from_str(EMPTY_NAME));
        }
        let probing = operation == Operation::Read || operation == Operation::Delete;
        let probe = if probing {
            Some(config.target_app_request(search.app.as_str())?)
        } else {
            None
        };
        if operation == Operation::Create {
            set_entry(&mut search.savedsearch, String::from_str("name"), quoted(name));
        }
        let path = if operation == Operation::Create {
            ""
        } else {
            name
        };
        proof {
            reveal_strlit("");
        }
        assert(path@ =~= target_path(operation, name@));
        let url = config.searches_url(path, Some(search.app.as_str()), &search.user)?;
        let request = if operation == Operation::Read {
            config.request(Method::Get, url, search.filter(), Body::Empty)
        } else {
            let query = vec![(String::from_str("output_mode"), String::from_str("json"))];
            assert(entries_view(query@) =~= seq![("output_mode"@, "json"@)]);
            if operation == Operation::Delete {
                config.request(Method::Delete, url, query, Body::Empty)
            } else {
                config.request(Method::Post, url, query, Body::Form(search.form()))
            }
        };
        Ok(SplunkCall { config, operation, search, probe, request })
    }

    /// What the operation reports, given the answer to its request.
    pub fn on_response(&self, ev: &Event) -> (r: Result<Option<String>, String>)
        ensures
            self.operation == Operation::Create ==> write_outcome(*ev, r),
            self.operation == Operation::Update ==> write_outcome(*ev, r),
            self.operation == Operation::Delete ==> delete_outcome(*ev, r),
            self.operation == Operation::Read ==> read_outcome(self.search, *ev, r),
    {
        match ev {
            Event::Failed(e) => Err(e.clone()),
            Event::Response { status, body } => {
                let status = *status;
                if self.operation == Operation::Read {
                    if status == 200 || status == 201 {
                        match body {
                            Err(e) => Err(e.clone()),
                            Ok(b) => self.read_reply(b),
                        }
                    } else if status == 404 {
                        Ok(None)
                    } else {
                        Err(http_status_error(status))
                    }
                } else {
                    if (status == 204 || status == 404) && self.operation == Operation::Delete {
                        Ok(None)
                    } else if status == 200 || status == 201 {
                        match body {
                            Err(e) => Err(e.clone()),
                            Ok(b) => match crate::json::utf8_text(b) {
                                Some(_) => Ok(Some(String::from_str("OK"))),
                                None => Err(String::from_str(NOT_TEXT)),
                            },
                        }
                    } else if status == 400 {
                        Err(Message::from_body(body))
                    } else {
                        Err(http_status_error(status))
                    }
                }
            },
        }
    }

    fn read_reply(&self, b: &Vec<u8>) -> (r: Result<Option<String>, String>)
        ensures
            if !valid_utf8(b@) {
                r matches Err(x) && x@ == NOT_TEXT@
            } else {
                match search_content(decode_utf8(b@)) {
                    Some(c) => r matches Ok(Some(x)) && x@ == object_text(
                        search_members(
                            self.search.app@,
                            opt_text(self.search.user),
                            proj_seq(entries_view(self.search.savedsearch@), c),
                        ),
                    ),
                    None => r matches Err(x) && has_prefix(x@, RESPONSE_ERROR@),
                }
            },
    {
        let text = match crate::json::utf8_text(b) {
            Some(t) => t,
            None => return Err(String::from_str(NOT_TEXT)),
        };
        let content = match search_content_of(text.as_str()) {
            Some(c) => c,
            None => {
                let e = concat2(RESPONSE_ERROR, "expected a search listing with an entry");
                assert(e@.subrange(0, RESPONSE_ERROR@.len() as int) =~= RESPONSE_ERROR@);
                return Err(e);
            },
        };
        let filtered = project(&self.search.savedsearch, &content);
        let reply = SavedSearch {
            app: self.search.app.clone(),
            user: self.search.user.clone(),
            savedsearch: filtered,
        };
        Ok(Some(reply.to_json()))
    }
}

impl Splunk {
    /// Reads the settings and builds the request that lists one saved search.
    pub fn begin_ping(config: &str) -> (r: Result<Request, String>)
        ensures
            !(json_object_of(config@) matches Some(cm) && splunk_doc_ok(cm)) ==> (r matches Err(
                e,
            ) && has_prefix(e@, CONFIG_ERROR@)),
            (json_object_of(config@) matches Some(cm) && splunk_doc_ok(cm)) ==> {
                let endpoint = string_field(json_object_of(config@)->0, "endpoint"@)->0;
                match url_joined(searches_base(endpoint, None, None), "?count=1"@) {
                    Ok(u) => r matches Ok(req) && req.url@ == u && req.method == Method::Get
                        && req.body is Empty && req.query@.len() == 0,
                    Err(e) => r matches Err(x) && x@ == e,
                }
            },
    {
        let c = Splunk::parse_configuration(config)?;
        let url = c.searches_url("?count=1", None, &None)?;
        Ok(c.request(Method::Get, url, Vec::new(), Body::Empty))
    }

    /// The answer to a ping: reachable on any 2xx, unauthorized on 401.
    pub fn ping_outcome(ev: &Event) -> (r: Result<bool, String>)
        ensures
            match *ev {
                Event::Failed(e) => r matches Err(x) && x@ == e@,
                Event::Response { status, body: _ } => if 200 <= status < 300 {
                    r == Ok::<bool, String>(true)
                } else if status == 401 {
                    r matches Err(x) && x@ == "Unauthorized"@
                } else {
                    r matches Err(x) && x@ == http_code(status)
                },
            },
    {
        match ev {
            Event::Failed(e) => Err(e.clone()),
            Event::Response { status, body: _ } => {
                if 200 <= *status && *status < 300 {
                    Ok(true)
                } else if *status == 401 {
                    Err(String::from_str("Unauthorized"))
                } else {
                    Err(http_status_error(*status))
                }
            },
        }
    }
}

} // verus!
