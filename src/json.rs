//! JSON documents as the adapters read and write them. Decoding goes through
//! serde_json; a property value is carried as its compact JSON text.

use vstd::prelude::*;
use vstd::utf8::{decode_utf8, valid_utf8};
use crate::props::{Entry, entries_view, keys_unique, lookup};

verus! {

/// The members of a JSON object text, values as compact JSON text, keys in
/// ascending order; `None` when the text is not a JSON object.
pub uninterp spec fn json_object_of(s: Seq<char>) -> Option<Seq<Entry>>;

/// The elements of a JSON array text, each as compact JSON text; `None` when
/// the text is not a JSON array.
pub uninterp spec fn json_array_of(s: Seq<char>) -> Option<Seq<Seq<char>>>;

/// The string that a JSON string text denotes; `None` for any other text.
pub uninterp spec fn json_string_of(s: Seq<char>) -> Option<Seq<char>>;

/// The integer that a JSON number text denotes, where it fits in `u64`.
pub uninterp spec fn json_u64_of(s: Seq<char>) -> Option<u64>;

/// The JSON string text (quoted and escaped) of a string.
pub uninterp spec fn json_quoted(s: Seq<char>) -> Seq<char>;

pub open spec fn texts_view(v: Seq<String>) -> Seq<Seq<char>> {
    v.map_values(|t: String| t@)
}

/// Relies on `serde_json::from_str` into `serde_json::Map<String, Value>`
/// (ordered by key) and on `Value`'s `Display`, which writes compact JSON.
#[verifier::external_body]
pub(crate) fn object_members(s: &str) -> (r: Option<Vec<(String, String)>>)
    ensures
        r is None ==> json_object_of(s@) is None,
        r matches Some(v) ==> json_object_of(s@) == Some(entries_view(v@)),
        r matches Some(v) ==> keys_unique(entries_view(v@)),
{
    let m = serde_json::from_str::<serde_json::Map<String, serde_json::Value>>(s).ok()?;
    Some(m.into_iter().map(|(k, v)| (k, v.to_string())).collect())
}

/// Relies on `serde_json::from_str` into `Vec<Value>` and on `Value`'s
/// `Display`.
#[verifier::external_body]
pub(crate) fn array_elements(s: &str) -> (r: Option<Vec<String>>)
    ensures
        r is None ==> json_array_of(s@) is None,
        r matches Some(v) ==> json_array_of(s@) == Some(texts_view(v@)),
{
    let v = serde_json::from_str::<Vec<serde_json::Value>>(s).ok()?;
    Some(v.into_iter().map(|e| e.to_string()).collect())
}

/// Relies on `serde_json::from_str` into `String`.
#[verifier::external_body]
pub(crate) fn string_value(s: &str) -> (r: Option<String>)
    ensures
        r is None ==> json_string_of(s@) is None,
        r matches Some(t) ==> json_string_of(s@) == Some(t@),
{
    serde_json::from_str::<String>(s).ok()
}

/// Relies on `serde_json::from_str` into `u64`.
#[verifier::external_body]
pub(crate) fn u64_value(s: &str) -> (r: Option<u64>)
    ensures
        r == json_u64_of(s@),
{
    serde_json::from_str::<u64>(s).ok()
}

/// Relies on `Value::String`'s `Display`, which writes the quoted, escaped
/// string.
#[verifier::external_body]
pub(crate) fn quoted(s: &str) -> (r: String)
    ensures
        r@ == json_quoted(s@),
{
    serde_json::Value::String(s.to_string()).to_string()
}

/// Relies on `String::from_utf8`, which fails exactly on bytes that are not
/// UTF-8.
#[verifier::external_body]
pub(crate) fn utf8_text(b: &Vec<u8>) -> (r: Option<String>)
    ensures
        r is Some <==> valid_utf8(b@),
        r matches Some(t) ==> t@ == decode_utf8(b@),
{
    String::from_utf8(b.clone()).ok()
}

/// The text `null`.
pub open spec fn null_text() -> Seq<char> {
    "null"@
}

/// The JSON text of one member: quoted key, colon, value text.
pub open spec fn member_text(e: Entry) -> Seq<char> {
    json_quoted(e.0) + ":"@ + e.1
}

/// Member texts joined by commas.
pub open spec fn members_text(s: Seq<Entry>) -> Seq<char>
    decreases s.len(),
{
    if s.len() == 0 {
        Seq::empty()
    } else if s.len() == 1 {
        member_text(s[0])
    } else {
        members_text(s.drop_last()) + ","@ + member_text(s.last())
    }
}

/// The JSON object text with the given members, in their order.
pub open spec fn object_text(s: Seq<Entry>) -> Seq<char> {
    "{"@ + members_text(s) + "}"@
}

/// Writes the members `v` as a JSON object text.
pub fn write_object(v: &Vec<(String, String)>) -> (r: String)
    ensures
        r@ == object_text(entries_view(v@)),
{
    let ghost s = entries_view(v@);
    let mut body = String::new();
    let mut i: usize = 0;
    while i < v.len()
        invariant
            s == entries_view(v@),
            i <= s.len(),
            body@ == members_text(s.subrange(0, i as int)),
        decreases s.len() - i,
    {
        proof {
            let pre = s.subrange(0, i + 1);
            assert(pre.drop_last() =~= s.subrange(0, i as int));
        }
        if i > 0 {
            body.append(",");
        }
        let key = quoted(v[i].0.as_str());
        body.append(key.as_str());
        body.append(":");
        body.append(v[i].1.as_str());
        i = i + 1;
    }
    proof {
        assert(s.subrange(0, s.len() as int) =~= s);
    }
    let mut r = String::from_str("{");
    r.append(body.as_str());
    r.append("}");
    r
}

/// A member's value when it is present and not `null`.
pub open spec fn present(m: Seq<Entry>, k: Seq<char>) -> Option<Seq<char>> {
    match lookup(m, k) {
        Some(t) => if t == null_text() {
            None
        } else {
            Some(t)
        },
        None => None,
    }
}

/// Looks up a member, treating `null` as absent.
pub fn present_member(m: &Vec<(String, String)>, k: &str) -> (r: Option<String>)
    ensures
        match r {
            Some(t) => present(entries_view(m@), k@) == Some(t@),
            None => present(entries_view(m@), k@) is None,
        },
{
    match crate::props::get(m, &String::from_str(k)) {
        Some(t) => {
            if t == String::from_str("null") {
                None
            } else {
                Some(t)
            }
        },
        None => None,
    }
}

/// The view of an optional text.
pub open spec fn opt_text(o: Option<String>) -> Option<Seq<char>> {
    match o {
        Some(t) => Some(t@),
        None => None,
    }
}

/// A member that must hold a JSON string: the string, if it does.
pub open spec fn string_field(m: Seq<Entry>, k: Seq<char>) -> Option<Seq<char>> {
    match lookup(m, k) {
        Some(t) => json_string_of(t),
        None => None,
    }
}

/// An optional string member is absent, `null`, or a JSON string.
pub open spec fn opt_string_ok(m: Seq<Entry>, k: Seq<char>) -> bool {
    match present(m, k) {
        Some(t) => json_string_of(t) is Some,
        None => true,
    }
}

/// The value of an optional string member.
pub open spec fn opt_string_field(m: Seq<Entry>, k: Seq<char>) -> Option<Seq<char>> {
    match present(m, k) {
        Some(t) => json_string_of(t),
        None => None,
    }
}

/// An optional integer member is absent, `null`, or a `u64`.
pub open spec fn opt_u64_ok(m: Seq<Entry>, k: Seq<char>) -> bool {
    match present(m, k) {
        Some(t) => json_u64_of(t) is Some,
        None => true,
    }
}

/// The value of an optional integer member.
pub open spec fn opt_u64_field(m: Seq<Entry>, k: Seq<char>) -> Option<u64> {
    match present(m, k) {
        Some(t) => json_u64_of(t),
        None => None,
    }
}

/// Reads a member that must hold a JSON string.
pub fn string_member(m: &Vec<(String, String)>, k: &str) -> (r: Option<String>)
    ensures
        opt_text(r) == string_field(entries_view(m@), k@),
{
    match crate::props::get(m, &String::from_str(k)) {
        Some(t) => string_value(t.as_str()),
        None => None,
    }
}

/// Reads an optional string member; `Err` when it holds something else.
pub fn optional_string_member(m: &Vec<(String, String)>, k: &str) -> (r: Result<
    Option<String>,
    (),
>)
    ensures
        r is Ok <==> opt_string_ok(entries_view(m@), k@),
        r matches Ok(o) ==> opt_text(o) == opt_string_field(entries_view(m@), k@),
{
    match present_member(m, k) {
        Some(t) => match string_value(t.as_str()) {
            Some(v) => Ok(Some(v)),
            None => Err(()),
        },
        None => Ok(None),
    }
}

/// Reads an optional integer member; `Err` when it holds something else.
pub fn optional_u64_member(m: &Vec<(String, String)>, k: &str) -> (r: Result<Option<u64>, ()>)
    ensures
        r is Ok <==> opt_u64_ok(entries_view(m@), k@),
        r matches Ok(o) ==> o == opt_u64_field(entries_view(m@), k@),
{
    match present_member(m, k) {
        Some(t) => match u64_value(t.as_str()) {
            Some(v) => Ok(Some(v)),
            None => Err(()),
        },
        None => Ok(None),
    }
}

/// `s` begins with `p`.
pub open spec fn has_prefix(s: Seq<char>, p: Seq<char>) -> bool {
    p.len() <= s.len() && s.subrange(0, p.len() as int) == p
}

/// The message for a member that is missing or of the wrong type.
pub open spec fn field_message(k: Seq<char>) -> Seq<char> {
    "missing or invalid field `"@ + k + "`"@
}

/// Writes `prefix` followed by the message for the member `k`.
pub fn field_error(prefix: &str, k: &str) -> (r: String)
    ensures
        r@ == prefix@ + field_message(k@),
        has_prefix(r@, prefix@),
{
    let mut s = String::from_str(prefix);
    s.append("missing or invalid field `");
    s.append(k);
    s.append("`");
    assert(s@.subrange(0, prefix@.len() as int) =~= prefix@);
    s
}

} // verus!
