//! Requests the adapters ask to have sent, and what comes back.

use vstd::prelude::*;

verus! {

/// HTTP methods the adapters use.
#[derive(Clone, Copy, Debug, PartialEq, Eq, Structural)]
pub enum Method {
    Get,
    Post,
    Put,
    Delete,
}

/// Rule operations.
#[derive(Clone, Copy, Debug, PartialEq, Eq, Structural)]
pub enum Operation {
    Create,
    Read,
    Update,
    Delete,
}

/// A request body.
#[derive(Clone, Debug)]
pub enum Body {
    Empty,
    /// JSON text, sent as `application/json`.
    Json(String),
    /// Name/value pairs, sent form-encoded.
    Form(Vec<(String, String)>),
}

/// One HTTP request, fully described.
#[derive(Clone, Debug)]
pub struct Request {
    pub method: Method,
    pub url: String,
    pub query: Vec<(String, String)>,
    pub headers: Vec<(String, String)>,
    pub body: Body,
    /// Connect timeout in seconds, where one is set.
    pub connect_timeout: Option<u64>,
}

/// What a sent request produced.
#[derive(Debug)]
pub enum Event {
    /// A response: its status, and its body or the message of the failure to
    /// read it.
    Response { status: u16, body: Result<Vec<u8>, String> },
    /// The request could not be carried out (DNS, TLS, refused, timeout).
    Failed(String),
}

/// The abstract form of a textual result.
pub open spec fn text_result(r: Result<String, String>) -> Result<Seq<char>, Seq<char>> {
    match r {
        Ok(t) => Ok(t@),
        Err(e) => Err(e@),
    }
}

/// The serialization of the URL that a text parses to, or the parser's
/// message.
pub uninterp spec fn url_parsed(s: Seq<char>) -> Result<Seq<char>, Seq<char>>;

/// The serialization of `path` resolved against the URL `base`, or the
/// message of whichever step failed.
pub uninterp spec fn url_joined(base: Seq<char>, path: Seq<char>) -> Result<Seq<char>, Seq<char>>;

/// Relies on `url::Url::parse`, its serialization and its error's message.
#[verifier::external_body]
pub(crate) fn parse_url(s: &str) -> (r: Result<String, String>)
    ensures
        text_result(r) == url_parsed(s@),
{
    url::Url::parse(s).map(|u| u.as_str().to_string()).map_err(|e| e.to_string())
}

/// Relies on `url::Url::parse` of `base`, then `Url::join` with `path`.
#[verifier::external_body]
pub(crate) fn join_url(base: &str, path: &str) -> (r: Result<String, String>)
    ensures
        text_result(r) == url_joined(base@, path@),
{
    url::Url::parse(base).and_then(|u| u.join(path)).map(|u| u.as_str().to_string()).map_err(
        |e| e.to_string(),
    )
}

} // verus!
