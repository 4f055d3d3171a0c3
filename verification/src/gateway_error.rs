//! The errors that the HTTP gateway answers with, and how each is answered:
//! the status, the trace header, and a JSON body, an empty one for `HEAD`, or
//! the not-found page for a browser.
use vstd::prelude::*;
use vstd::string::*;
use http::StatusCode;
use crate::text_order::same_text;

verus! {

/// The status code of a missing resource.
pub const NOT_FOUND: u16 = 404;

/// The trace id that stands for no trace.
pub const INVALID_TRACE_ID: u128 = 0;

/// A gateway error: the status it is answered with, a message, the trace it
/// happened in (`INVALID_TRACE_ID` for none), the request's method where
/// known, and whether the client takes HTML.
#[derive(Debug, Clone)]
pub struct GatewayError {
    pub status_code: u16,
    pub message: String,
    pub trace_id: u128,
    pub method: Option<String>,
    pub accept_html: bool,
}

/// A status code that `http::StatusCode` can hold.
pub open spec fn valid_status(code: u16) -> bool {
    100 <= code < 1000
}

/// Whether `code` is one that `http::StatusCode` can hold.
pub fn valid_status_code(code: u16) -> (r: bool)
    ensures
        r == valid_status(code),
{
    100 <= code && code < 1000
}

/// The display of `http::StatusCode` for a code: the code and its canonical
/// reason.
pub uninterp spec fn status_display(code: u16) -> Seq<char>;

/// `Display` of `http::StatusCode`, for the status of `code`: the code, a
/// space, and its canonical reason (or a note that it has none).
#[verifier::external_body]
fn status_text(code: u16) -> (r: String)
    requires
        valid_status(code),
    ensures
        r@ == status_display(code),
{
    match StatusCode::from_u16(code) {
        Ok(s) => s.to_string(),
        Err(_) => String::new(),
    }
}

/// The lower-case hexadecimal digit of `d`.
pub open spec fn hex_char(d: int) -> char {
    "0123456789abcdef"@[d]
}

/// A trace id as 32 lower-case hexadecimal digits, most significant first.
pub open spec fn trace_id_hex(id: u128) -> Seq<char> {
    Seq::new(32, |i: int| hex_char(((id >> ((124 - 4 * i) as u128)) & 0xf) as int))
}

/// A trace id as 32 lower-case hexadecimal digits, as it is shown in headers
/// and bodies.
pub fn trace_id_text(id: u128) -> (r: String)
    ensures
        r@ == trace_id_hex(id),
{
    let digits = "0123456789abcdef";
    proof {
        reveal_strlit("0123456789abcdef");
    }
    let mut s = String::new();
    let mut i: usize = 0;
    while i < 32
        invariant
            i <= 32,
            digits@ == "0123456789abcdef"@,
            digits@.len() == 16,
            s@ == trace_id_hex(id).subrange(0, i as int),
        decreases 32 - i,
    {
        let shift: u128 = (124 - 4 * i) as u128;
        let d: u128 = (id >> shift) & 0xf;
        assert(d < 16) by (bit_vector)
            requires
                d == (id >> shift) & 0xf,
        ;
        let du = d as usize;
        let one = digits.substring_char(du, du + 1);
        s.append(one);
        assert(s@ =~= trace_id_hex(id).subrange(0, i + 1));
        i = i + 1;
    }
    assert(s@ =~= trace_id_hex(id));
    s
}

/// The trace id as it goes into a header or a body, where there is one.
pub open spec fn trace_text(e: GatewayError) -> Option<Seq<char>> {
    if e.trace_id != INVALID_TRACE_ID {
        Some(trace_id_hex(e.trace_id))
    } else {
        None
    }
}

/// The body of the answer to an error.
#[derive(Debug)]
pub enum ResponseBody {
    /// No body: the answer to a `HEAD` request.
    Empty,
    /// A JSON object with the code, `"success": false`, the message, and
    /// the trace id where there is one.
    Json { code: u16, message: String, trace_id: Option<String> },
    /// The HTML page for a resource not found.
    NotFoundPage,
}

/// The answer to an error: its status, the trace id header where there is a
/// trace, and its body.
#[derive(Debug)]
pub struct ResponsePlan {
    pub status_code: u16,
    pub trace_header: Option<String>,
    pub body: ResponseBody,
}

/// The texts of an optional string.
pub open spec fn opt_text(o: Option<String>) -> Option<Seq<char>> {
    match o {
        Some(s) => Some(s@),
        None => None,
    }
}

/// The request was a `HEAD` request.
pub open spec fn is_head(e: GatewayError) -> bool {
    e.method matches Some(m) && m@ == "HEAD"@
}

/// The body that answers `e`.
pub open spec fn body_of(e: GatewayError, body: ResponseBody) -> bool {
    if is_head(e) {
        body is Empty
    } else if e.accept_html && e.status_code == NOT_FOUND {
        body is NotFoundPage
    } else {
        body matches ResponseBody::Json { code, message, trace_id } && code == e.status_code
            && message@ == e.message@ && opt_text(trace_id) == trace_text(e)
    }
}

impl GatewayError {
    /// An error with a status and a message, in the trace `trace_id`.
    pub fn new(status_code: u16, message: &str, trace_id: u128) -> (r: GatewayError)
        requires
            valid_status(status_code),
        ensures
            r.status_code == status_code,
            r.message@ == message@,
            r.trace_id == trace_id,
            r.method is None,
            !r.accept_html,
    {
        GatewayError {
            status_code,
            message: message.to_owned(),
            trace_id,
            method: None,
            accept_html: false,
        }
    }

    /// The same error, for a request with method `method`.
    pub fn with_method(self, method: &str) -> (r: GatewayError)
        ensures
            r.method matches Some(m) && m@ == method@,
            r.status_code == self.status_code,
            r.message == self.message,
            r.trace_id == self.trace_id,
            r.accept_html == self.accept_html,
    {
        GatewayError { method: Some(method.to_owned()), ..self }
    }

    /// The same error, for a client that takes HTML.
    pub fn with_html(self) -> (r: GatewayError)
        ensures
            r.accept_html,
            r.status_code == self.status_code,
            r.message == self.message,
            r.trace_id == self.trace_id,
            r.method == self.method,
    {
        GatewayError { accept_html: true, ..self }
    }

    /// How the error is answered.
    pub fn response_plan(&self) -> (r: ResponsePlan)
        ensures
            r.status_code == self.status_code,
            opt_text(r.trace_header) == trace_text(*self),
            body_of(*self, r.body),
    {
        let trace_header = if self.trace_id != INVALID_TRACE_ID {
            Some(trace_id_text(self.trace_id))
        } else {
            None
        };
        let head = match &self.method {
            Some(m) => same_text(m.as_str(), "HEAD"),
            None => false,
        };
        let body = if head {
            ResponseBody::Empty
        } else if self.accept_html && self.status_code == NOT_FOUND {
            ResponseBody::NotFoundPage
        } else {
            let trace_id = if self.trace_id != INVALID_TRACE_ID {
                Some(trace_id_text(self.trace_id))
            } else {
                None
            };
            ResponseBody::Json { code: self.status_code, message: self.message.clone(), trace_id }
        };
        ResponsePlan { status_code: self.status_code, trace_header, body }
    }

    /// The text of the error: `gateway_error(<status>): <message>)`.
    pub fn to_text(&self) -> (r: String)
        requires
            valid_status(self.status_code),
        ensures
            r@ == "gateway_error("@ + status_display(self.status_code) + "): "@ + self.message@
                + ")"@,
    {
        let mut s = "gateway_error(".to_owned();
        let status = status_text(self.status_code);
        s.append(status.as_str());
        s.append("): ");
        s.append(self.message.as_str());
        s.append(")");
        s
    }
}

} // verus!
