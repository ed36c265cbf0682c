//! Request frames of the Binance WebSocket API.
//!
//! A frame is a JSON object with the members `id`, `method` and `params`,
//! written compactly with its keys in sorted order, as serde_json writes a
//! `json!` object. Every value inside a frame (the id, strings, string
//! lists, a property's new value) is written by serde_json itself; the
//! library lays out the frame's three members around them.

use vstd::prelude::*;
use crate::text::{digit_char, signed_decimal, views};

verus! {

#[verifier::external_type_specification]
#[verifier::external_body]
pub struct ExJsonError(serde_json::Error);

/// A lower-case hexadecimal digit.
pub open spec fn hex_digit(d: nat) -> char {
    if d < 10 {
        digit_char(d)
    } else {
        (d - 10 + 97) as char
    }
}

/// How serde_json writes one character inside a JSON string: quote and
/// backslash escaped, the named control escapes, other control characters
/// as `\u00XX`, everything else as itself.
pub open spec fn json_escape_char(c: char) -> Seq<char> {
    if c == '"' {
        seq!['\\', '"']
    } else if c == '\\' {
        seq!['\\', '\\']
    } else if c == '\u{8}' {
        seq!['\\', 'b']
    } else if c == '\t' {
        seq!['\\', 't']
    } else if c == '\n' {
        seq!['\\', 'n']
    } else if c == '\u{c}' {
        seq!['\\', 'f']
    } else if c == '\r' {
        seq!['\\', 'r']
    } else if (c as int) < 0x20 {
        seq!['\\', 'u', '0', '0', hex_digit((c as nat) / 16), hex_digit((c as nat) % 16)]
    } else {
        seq![c]
    }
}

/// The escaped contents of a JSON string.
pub open spec fn json_escape(s: Seq<char>) -> Seq<char>
    decreases s.len(),
{
    if s.len() == 0 {
        Seq::<char>::empty()
    } else {
        json_escape(s.drop_last()) + json_escape_char(s.last())
    }
}

/// A JSON string literal holding `s`.
pub open spec fn json_quoted(s: Seq<char>) -> Seq<char> {
    seq!['"'] + json_escape(s) + seq!['"']
}

/// Calls `serde_json::to_string` on a `str`. The contract claims what the
/// serializer's source shows for a string: serializing into a byte vector
/// cannot fail, and the text is the string quoted and escaped by the table
/// in `format_escaped_str_contents` and `write_char_escape`.
#[verifier::external_body]
fn serde_quote(s: &str) -> (r: Result<String, serde_json::Error>)
    ensures
        r is Ok,
        r matches Ok(t) ==> t@ == json_quoted(s@),
{
    serde_json::to_string(s)
}

/// Appends `s` as a JSON string literal.
pub fn push_json_string(out: &mut String, s: &str)
    ensures
        final(out)@ == old(out)@ + json_quoted(s@),
{
    match serde_quote(s) {
        Ok(t) => out.append(t.as_str()),
        Err(_) => {},
    }
}

/// A JSON array of strings, compactly written.
pub open spec fn json_string_items(v: Seq<Seq<char>>) -> Seq<char>
    decreases v.len(),
{
    if v.len() == 0 {
        Seq::<char>::empty()
    } else if v.len() == 1 {
        json_quoted(v[0])
    } else {
        json_string_items(v.drop_last()).push(',') + json_quoted(v.last())
    }
}

/// A JSON array of strings.
pub open spec fn json_string_array(v: Seq<Seq<char>>) -> Seq<char> {
    seq!['['] + json_string_items(v) + seq![']']
}

/// Calls `serde_json::to_string` on a `Vec<String>`. The contract claims
/// what the serializer's source shows for a sequence of strings written
/// compactly: `[`, the strings quoted as for a `str` and separated by `,`,
/// then `]`; writing into a byte vector cannot fail.
#[verifier::external_body]
fn serde_string_list(v: &Vec<String>) -> (r: Result<String, serde_json::Error>)
    ensures
        r is Ok,
        r matches Ok(t) ==> t@ == json_string_array(views(v@)),
{
    serde_json::to_string(v)
}

/// Calls `serde_json::to_string` on an `i64`. The contract claims what the
/// serializer's source shows: the number written by `itoa`, that is in
/// decimal with a leading `-` when negative; writing into a byte vector
/// cannot fail.
#[verifier::external_body]
fn serde_integer(n: i64) -> (r: Result<String, serde_json::Error>)
    ensures
        r is Ok,
        r matches Ok(t) ==> t@ == signed_decimal(n as int),
{
    serde_json::to_string(&n)
}

/// The compact JSON text serde_json writes for the JSON value that `text`
/// holds; `None` when `text` is not JSON.
pub uninterp spec fn json_compact_text(text: Seq<char>) -> Option<Seq<char>>;

/// Parses the text with `serde_json::from_str::<serde_json::Value>` and
/// writes the value back with its `to_string`. The contract only names the
/// outcome: it is a function of the text alone.
#[verifier::external_body]
fn compact_json(text: &str) -> (r: Option<String>)
    ensures
        match r {
            Some(t) => json_compact_text(text@) == Some(t@),
            None => json_compact_text(text@) is None,
        },
{
    match serde_json::from_str::<serde_json::Value>(text) {
        Ok(v) => Some(v.to_string()),
        Err(_) => None,
    }
}

/// An operation of the Binance WebSocket API.
pub enum BinanceApiOperation {
    /// Subscribe to the named streams.
    Subscribe(Vec<String>),
    /// Unsubscribe from the named streams.
    Unsubscribe(Vec<String>),
    /// List the current subscriptions.
    ListSubscriptions,
    /// Read a property.
    GetProperty(String),
    /// Set a property; the second field is the new value as JSON text,
    /// sent as serde_json writes that value.
    SetProperty(String, String),
}

/// The mathematical form of an operation.
pub enum ApiOperationView {
    Subscribe(Seq<Seq<char>>),
    Unsubscribe(Seq<Seq<char>>),
    ListSubscriptions,
    GetProperty(Seq<char>),
    SetProperty(Seq<char>, Seq<char>),
}

impl View for BinanceApiOperation {
    type V = ApiOperationView;

    open spec fn view(&self) -> ApiOperationView {
        match self {
            BinanceApiOperation::Subscribe(v) => ApiOperationView::Subscribe(views(v@)),
            BinanceApiOperation::Unsubscribe(v) => ApiOperationView::Unsubscribe(views(v@)),
            BinanceApiOperation::ListSubscriptions => ApiOperationView::ListSubscriptions,
            BinanceApiOperation::GetProperty(p) => ApiOperationView::GetProperty(p@),
            BinanceApiOperation::SetProperty(p, v) => ApiOperationView::SetProperty(p@, v@),
        }
    }
}

/// The method name of an operation.
pub open spec fn method_name(op: ApiOperationView) -> Seq<char> {
    match op {
        ApiOperationView::Subscribe(_) => "SUBSCRIBE"@,
        ApiOperationView::Unsubscribe(_) => "UNSUBSCRIBE"@,
        ApiOperationView::ListSubscriptions => "LIST_SUBSCRIPTIONS"@,
        ApiOperationView::GetProperty(_) => "GET_PROPERTY"@,
        ApiOperationView::SetProperty(_, _) => "SET_PROPERTY"@,
    }
}

/// Whether the operation can be sent: a new property value must be JSON.
pub open spec fn request_valid(op: ApiOperationView) -> bool {
    match op {
        ApiOperationView::SetProperty(_, v) => json_compact_text(v) is Some,
        _ => true,
    }
}

/// The JSON text of an operation's parameters.
pub open spec fn params_text(op: ApiOperationView) -> Seq<char> {
    match op {
        ApiOperationView::Subscribe(v) => json_string_array(v),
        ApiOperationView::Unsubscribe(v) => json_string_array(v),
        ApiOperationView::ListSubscriptions => "null"@,
        ApiOperationView::GetProperty(p) => json_quoted(p),
        ApiOperationView::SetProperty(p, v) => seq!['{'] + json_quoted(p) + seq![':'] + json_compact_text(
            v,
        ).unwrap() + seq!['}'],
    }
}

/// The request frame for an operation with the given request id: an
/// object with the members `id`, `method` and `params`, in the order
/// serde_json's sorted maps write them.
pub open spec fn request_text(op: ApiOperationView, id: i64) -> Seq<char> {
    "{\"id\":"@ + signed_decimal(id as int) + ",\"method\":"@ + json_quoted(method_name(op))
        + ",\"params\":"@ + params_text(op) + seq!['}']
}

/// Writes the request frame for `op` with request id `id` (the client uses
/// the clock in milliseconds since the Unix epoch, read by the caller);
/// `None` when the new value of a property is not JSON.
pub fn create_binance_api_request(op: &BinanceApiOperation, id: i64) -> (r: Option<String>)
    ensures
        r is Some <==> request_valid(op@),
        r matches Some(t) ==> t@ == request_text(op@, id),
{
    let mut out = String::new();
    out.append("{\"id\":");
    match serde_integer(id) {
        Ok(t) => out.append(t.as_str()),
        Err(_) => {},
    }
    out.append(",\"method\":");
    match op {
        BinanceApiOperation::Subscribe(_) => push_json_string(&mut out, "SUBSCRIBE"),
        BinanceApiOperation::Unsubscribe(_) => push_json_string(&mut out, "UNSUBSCRIBE"),
        BinanceApiOperation::ListSubscriptions => push_json_string(&mut out, "LIST_SUBSCRIPTIONS"),
        BinanceApiOperation::GetProperty(_) => push_json_string(&mut out, "GET_PROPERTY"),
        BinanceApiOperation::SetProperty(_, _) => push_json_string(&mut out, "SET_PROPERTY"),
    }
    out.append(",\"params\":");
    match op {
        BinanceApiOperation::Subscribe(v) | BinanceApiOperation::Unsubscribe(v) => match serde_string_list(v) {
            Ok(t) => out.append(t.as_str()),
            Err(_) => {},
        },
        BinanceApiOperation::ListSubscriptions => out.append("null"),
        BinanceApiOperation::GetProperty(p) => push_json_string(&mut out, p.as_str()),
        BinanceApiOperation::SetProperty(p, v) => {
            let value = match compact_json(v.as_str()) {
                Some(t) => t,
                None => {
                    return None;
                },
            };
            out.push('{');
            push_json_string(&mut out, p.as_str());
            out.push(':');
            out.append(value.as_str());
            out.push('}');
        },
    }
    out.push('}');
    assert(out@ =~= request_text(op@, id));
    Some(out)
}

/// A subscription and an unsubscription name their streams alike: the
/// parameters of either are the JSON array of the given stream names, in
/// order, one quoted name per entry.
pub proof fn law_stream_requests_carry_their_streams(v: Seq<Seq<char>>)
    ensures
        params_text(ApiOperationView::Unsubscribe(v)) == json_string_array(v),
        params_text(ApiOperationView::Subscribe(v)) == json_string_array(v),
        params_text(ApiOperationView::Unsubscribe(v)) == params_text(ApiOperationView::Subscribe(v)),
        v.len() > 0 ==> json_string_array(v) == seq!['['] + json_string_items(v.drop_last()) + (
        if v.len() > 1 { seq![','] } else { Seq::<char>::empty() }) + json_quoted(v.last()) + seq![']'],
{
    if v.len() == 1 {
        assert(v.drop_last().len() == 0);
        assert(json_string_items(v.drop_last()) =~= Seq::<char>::empty());
        assert(v[0] == v.last());
        assert(json_string_array(v) =~= seq!['['] + json_string_items(v.drop_last()) + Seq::<char>::empty()
            + json_quoted(v.last()) + seq![']']);
    } else if v.len() > 1 {
        assert(json_string_array(v) =~= seq!['['] + json_string_items(v.drop_last()) + seq![',']
            + json_quoted(v.last()) + seq![']']);
    }
}

/// Every frame names its own method and carries its own parameters: the
/// five operations have five different method names, a property read
/// sends the property's name, a property write sends a one-member object
/// from the name to the value, and a listing sends `null`.
pub proof fn law_frames_name_method_and_parameters(p: Seq<char>, value: Seq<char>, v: Seq<Seq<char>>)
    ensures
        method_name(ApiOperationView::Subscribe(v)) == "SUBSCRIBE"@,
        method_name(ApiOperationView::Unsubscribe(v)) == "UNSUBSCRIBE"@,
        method_name(ApiOperationView::ListSubscriptions) == "LIST_SUBSCRIPTIONS"@,
        method_name(ApiOperationView::GetProperty(p)) == "GET_PROPERTY"@,
        method_name(ApiOperationView::SetProperty(p, value)) == "SET_PROPERTY"@,
        params_text(ApiOperationView::ListSubscriptions) == "null"@,
        params_text(ApiOperationView::GetProperty(p)) == json_quoted(p),
        json_compact_text(value) matches Some(c) ==> params_text(ApiOperationView::SetProperty(p, value))
            == seq!['{'] + json_quoted(p) + seq![':'] + c + seq!['}'],
        request_valid(ApiOperationView::SetProperty(p, value)) <==> json_compact_text(value) is Some,
        request_valid(ApiOperationView::Subscribe(v)) && request_valid(ApiOperationView::Unsubscribe(v))
            && request_valid(ApiOperationView::ListSubscriptions) && request_valid(ApiOperationView::GetProperty(p)),
{
}

/// A frame opens with its id and closes with its parameters: it is
/// `{"id":` and the id's numeral, then the quoted method, then the
/// parameters and `}`.
pub proof fn law_frame_layout(op: ApiOperationView, id: i64)
    ensures
        request_text(op, id) == "{\"id\":"@ + signed_decimal(id as int) + ",\"method\":"@
            + json_quoted(method_name(op)) + ",\"params\":"@ + params_text(op) + seq!['}'],
        request_text(op, id).last() == '}',
{
}

} // verus!
