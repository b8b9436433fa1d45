//! The protocol-level error response that ends a request the pipeline refuses.
//!
//! Errors travel in the body, so the HTTP status is always 200:
//! `{"jsonrpc":"2.0","id":null,"error":{"code":-32600,"message":<reason>}}`.
use vstd::prelude::*;
use vstd::string::StringExecFns;

verus! {

/// The JSON-RPC error code for a request that is not a valid envelope.
pub const INVALID_REQUEST: i64 = -32600;

/// The HTTP status of every response the pipeline produces itself.
pub const STATUS_OK: u16 = 200;

/// A complete response: HTTP status, content type and body text.
pub struct ErrorResponse {
    pub status: u16,
    pub content_type: String,
    pub body: String,
}

/// The mathematical form of an [`ErrorResponse`].
pub struct ErrorResponseView {
    pub status: u16,
    pub content_type: Seq<char>,
    pub body: Seq<char>,
}

impl View for ErrorResponse {
    type V = ErrorResponseView;

    open spec fn view(&self) -> ErrorResponseView {
        ErrorResponseView { status: self.status, content_type: self.content_type@, body: self.body@ }
    }
}

/// The hexadecimal digit of `n`, in lower case.
pub open spec fn hex_digit(n: u32) -> char {
    if n < 10 {
        ('0' as u32 + n) as char
    } else {
        ('a' as u32 + (n - 10)) as char
    }
}

/// How one character is written inside a JSON string: `"` and `\` behind a
/// backslash; backspace, tab, line feed, form feed and carriage return by their
/// short escapes; other control characters below 0x20 as `\u00xx`; every other
/// character as itself.
pub open spec fn escape_char(c: char) -> Seq<char> {
    if c == '"' {
        seq!['\\', '"']
    } else if c == '\\' {
        seq!['\\', '\\']
    } else if c == '\x08' {
        seq!['\\', 'b']
    } else if c == '\t' {
        seq!['\\', 't']
    } else if c == '\n' {
        seq!['\\', 'n']
    } else if c == '\x0c' {
        seq!['\\', 'f']
    } else if c == '\r' {
        seq!['\\', 'r']
    } else if (c as u32) < 0x20 {
        seq!['\\', 'u', '0', '0', hex_digit(c as u32 / 16), hex_digit(c as u32 % 16)]
    } else {
        seq![c]
    }
}

/// The characters of `s`, each written as inside a JSON string.
pub open spec fn escaped(s: Seq<char>) -> Seq<char>
    decreases s.len(),
{
    if s.len() == 0 {
        Seq::empty()
    } else {
        escaped(s.drop_last()) + escape_char(s.last())
    }
}

/// The JSON string that holds `s`: its escaped characters between quotes.
pub open spec fn json_string_of(s: Seq<char>) -> Seq<char> {
    seq!['"'] + escaped(s) + seq!['"']
}

/// Whether a character is written as itself inside a JSON string.
pub open spec fn is_plain(c: char) -> bool {
    c != '"' && c != '\\' && (c as u32) >= 0x20
}

/// A text of plain characters is written unchanged inside a JSON string.
pub proof fn lemma_plain_text_unescaped(s: Seq<char>)
    requires
        forall|i: int| 0 <= i < s.len() ==> is_plain(#[trigger] s[i]),
    ensures
        escaped(s) == s,
    decreases s.len(),
{
    if s.len() > 0 {
        lemma_plain_text_unescaped(s.drop_last());
        assert(escaped(s.drop_last()) + seq![s.last()] =~= s);
    }
}

/// The body that stands in when the error message cannot be encoded.
pub open spec fn fallback_body() -> Seq<char> {
    "{\"jsonrpc\":\"2.0\",\"id\":null,\"error\":{\"code\":-32600,\"message\":\"Invalid JSON-RPC request\"}}"@
}

/// Everything of the error body that precedes the encoded message.
pub open spec fn body_head() -> Seq<char> {
    "{\"jsonrpc\":\"2.0\",\"id\":null,\"error\":{\"code\":-32600,\"message\":"@
}

/// The error body around an encoded message, or the fallback when there is none.
pub open spec fn framed_body(encoded: Option<Seq<char>>) -> Seq<char> {
    match encoded {
        Some(q) => body_head() + q + "}}"@,
        None => fallback_body(),
    }
}

/// The error body that carries `message`.
pub open spec fn error_body(message: Seq<char>) -> Seq<char> {
    framed_body(Some(json_string_of(message)))
}

/// The response that carries `message` as an invalid-request error.
pub open spec fn error_response(message: Seq<char>) -> ErrorResponseView {
    ErrorResponseView { status: 200, content_type: "application/json"@, body: error_body(message) }
}

/// Relies on serde_json::to_string on a `str`, which writes to a `Vec` and cannot
/// fail: the message between quotes, escaped as `format_escaped_str` does.
#[verifier::external_body]
fn encode_message(message: &str) -> (r: Option<String>)
    ensures
        r is Some,
        r.unwrap()@ == json_string_of(message@),
{
    serde_json::to_string(message).ok()
}

/// Frames an encoded message into the error body; without one, the fallback body.
pub fn frame_error_body(encoded: Option<String>) -> (r: String)
    ensures
        r@ == framed_body(
            match encoded {
                Some(q) => Some(q@),
                None => None,
            },
        ),
{
    match encoded {
        Some(q) => {
            let mut body = <String as StringExecFns>::from_str(
                "{\"jsonrpc\":\"2.0\",\"id\":null,\"error\":{\"code\":-32600,\"message\":",
            );
            body.append(q.as_str());
            body.append("}}");
            body
        },
        None => <String as StringExecFns>::from_str(
            "{\"jsonrpc\":\"2.0\",\"id\":null,\"error\":{\"code\":-32600,\"message\":\"Invalid JSON-RPC request\"}}",
        ),
    }
}

/// The response that ends a refused request: status 200, a JSON content type, and
/// an error body with code -32600 carrying `message`.
pub fn create_response(message: &str) -> (r: ErrorResponse)
    ensures
        r@ == error_response(message@),
{
    let body = frame_error_body(encode_message(message));
    ErrorResponse {
        status: STATUS_OK,
        content_type: <String as StringExecFns>::from_str("application/json"),
        body,
    }
}

} // verus!
