//! The error envelope of the administrative API.
//!
//! Any non-success response of the administrative API carries a JSON object
//! `{Message, ErrorCode, Exception?}`.  This module parses that envelope
//! best-effort from a response body, renders it for display, and classifies
//! a whole response: success, a structured remote rejection, or a transport
//! failure carrying the raw payload, in that documented fallback order.

use vstd::prelude::*;
use vstd::string::StringExecFns;
use crate::json::ScalarV;
use crate::json::ValueV;
use crate::json::JsonScalar;
use crate::json::JsonValue;
use crate::json::find_key;
use crate::json::find_scalar;
use crate::json::parse_document;
use crate::json::parse_json_text;
use crate::json::lookup_member;
use crate::json::lookup_scalar;
use crate::text::dec_int;
use crate::text::render_i32;
use crate::text::render_u64;
use crate::error::Error;

verus! {

/// The nested exception data of an error envelope.
#[derive(Debug)]
pub struct SS14ExceptionData {
    pub message: String,
}

impl View for SS14ExceptionData {
    type V = Seq<char>;

    open spec fn view(&self) -> Seq<char> {
        self.message@
    }
}

/// A structured error envelope of the administrative API.
#[derive(Debug)]
pub struct ErrorResponse {
    pub message: String,
    pub error_code: i32,
    pub exception: Option<SS14ExceptionData>,
}

/// The specification-level value of an [`ErrorResponse`].
pub struct EnvelopeV {
    pub message: Seq<char>,
    pub code: int,
    pub exception: Option<Seq<char>>,
}

impl View for ErrorResponse {
    type V = EnvelopeV;

    open spec fn view(&self) -> EnvelopeV {
        EnvelopeV {
            message: self.message@,
            code: self.error_code as int,
            exception: match &self.exception {
                Some(e) => Some(e@),
                None => None,
            },
        }
    }
}

/// The envelope a response body denotes, if the body parses in the wire
/// grammar and holds a string `Message`, an `ErrorCode` in `i32` range,
/// and at most an `Exception` object with a string `Message`.
pub open spec fn envelope_of(body: Seq<char>) -> Option<EnvelopeV> {
    match parse_document(body) {
        None => None,
        Some(m) => match find_key(m, "Message"@) {
            Some(ValueV::Scalar(ScalarV::Text(msg))) => match find_key(
                m,
                "ErrorCode"@,
            ) {
                Some(ValueV::Scalar(ScalarV::Int(code))) => {
                    if -2147483648 <= code <= 2147483647 {
                        match find_key(m, "Exception"@) {
                            None => Some(EnvelopeV { message: msg, code, exception: None }),
                            Some(ValueV::Scalar(ScalarV::Null)) => Some(
                                EnvelopeV { message: msg, code, exception: None },
                            ),
                            Some(ValueV::Object(o)) => match find_scalar(o, "Message"@) {
                                Some(ScalarV::Text(em)) => Some(
                                    EnvelopeV { message: msg, code, exception: Some(em) },
                                ),
                                _ => None,
                            },
                            _ => None,
                        }
                    } else {
                        None
                    }
                },
                _ => None,
            },
            _ => None,
        },
    }
}

/// Parses the error envelope out of a response body, best-effort.
pub fn parse_envelope(body: &str) -> (r: Option<ErrorResponse>)
    ensures
        match r {
            Some(e) => envelope_of(body@) == Some(e@),
            None => envelope_of(body@) is None,
        },
{
    let doc = match parse_json_text(body) {
        Some(d) => d,
        None => {
            return None;
        },
    };
    let message = match lookup_member(&doc, "Message") {
        Some(JsonValue::Scalar(JsonScalar::Text(t))) => t.clone(),
        _ => {
            return None;
        },
    };
    let code = match lookup_member(&doc, "ErrorCode") {
        Some(JsonValue::Scalar(JsonScalar::Int(n))) => {
            if -2147483648i64 <= *n && *n <= 2147483647i64 {
                *n as i32
            } else {
                return None;
            }
        },
        _ => {
            return None;
        },
    };
    let exception = match lookup_member(&doc, "Exception") {
        None => None,
        Some(JsonValue::Scalar(JsonScalar::Null)) => None,
        Some(JsonValue::Object(o)) => match lookup_scalar(o, "Message") {
            Some(JsonScalar::Text(t)) => Some(SS14ExceptionData { message: t.clone() }),
            _ => {
                return None;
            },
        },
        _ => {
            return None;
        },
    };
    Some(ErrorResponse { message, error_code: code, exception })
}

/// The display rendering of an envelope.
pub open spec fn envelope_display(e: EnvelopeV) -> Seq<char> {
    "Message: "@ + e.message + ". ErrorCode: "@ + dec_int(e.code) + ". Exception Message: "@
        + match e.exception {
        Some(m) => m,
        None => "none"@,
    }
}

impl ErrorResponse {
    /// Renders the envelope for display, always a non-empty diagnostic.
    pub fn describe(&self) -> (r: String)
        ensures
            r@ == envelope_display(self@),
            r@.len() > 0,
    {
        let mut out = String::new();
        out.append("Message: ");
        out.append(self.message.as_str());
        out.append(". ErrorCode: ");
        let code = render_i32(self.error_code);
        out.append(code.as_str());
        out.append(". Exception Message: ");
        match &self.exception {
            Some(e) => out.append(e.message.as_str()),
            None => out.append("none"),
        }
        proof {
            reveal_strlit("Message: ");
            assert(out@ =~= envelope_display(self@));
        }
        out
    }
}

/// The diagnostic kept for a response outside the envelope shape: the raw
/// body and the status, so no information is silently dropped.
pub open spec fn transport_detail(status: u16, body: Seq<char>) -> Seq<char> {
    "Invalid error: "@ + body + ". Status: "@ + dec_int(status as int)
}

/// Classifies a response of the administrative API: success on status 200;
/// otherwise the structured envelope when the body parses, and a transport
/// failure carrying the raw payload when it does not.  Nothing is retried
/// and nothing panics.
pub fn classify_response(status: u16, body: &str) -> (r: Result<(), Error>)
    ensures
        status == 200 <==> r is Ok,
        status != 200 && envelope_of(body@) is Some ==> (match r {
            Err(Error::RemoteRejected(e)) => envelope_of(body@) == Some(e@),
            _ => false,
        }),
        status != 200 && envelope_of(body@) is None ==> (match r {
            Err(Error::TransportFailure(d)) => d@ == transport_detail(status, body@)
                && d@.len() > 0,
            _ => false,
        }),
{
    if status == 200 {
        return Ok(());
    }
    match parse_envelope(body) {
        Some(e) => Err(Error::RemoteRejected(e)),
        None => {
            let mut out = String::new();
            out.append("Invalid error: ");
            out.append(body);
            out.append(". Status: ");
            let st = render_u64(status as u64);
            out.append(st.as_str());
            proof {
                reveal_strlit("Invalid error: ");
                assert(out@ =~= transport_detail(status, body@));
            }
            Err(Error::TransportFailure(out))
        },
    }
}

} // verus!
