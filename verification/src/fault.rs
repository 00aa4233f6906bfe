//! The closed set of faults of an exchange, and the response that each one
//! becomes.

use vstd::prelude::*;
use vstd::string::StringExecFns;
use crate::headers::{header_list, Header};
use crate::text::{ascii_bytes, ascii_of, copy_bytes};

verus! {

/// Why an exchange could not be completed.
#[derive(Clone, Copy, Debug, PartialEq, Eq, Structural)]
pub enum Fault {
    /// Every dial attempt was used up and the last one timed out.
    DialTimeout,
    /// The upstream did not answer within the read timeout.
    ReadTimeout,
    /// The socket is missing or refuses, or every dial attempt was used up
    /// and the last one failed.
    Unavailable,
    /// The address to forward to is no valid URI.
    InvalidUri,
    /// The request body could not be read.
    InvalidBody,
    /// The response body could not be read or was badly framed.
    ResponseConversion,
    /// Another protocol error on the upstream connection.
    UpstreamProtocol,
    /// The client asked for a WebSocket upgrade.
    WebSocketUpgrade,
}

/// The version of HTTP that a response was written in.
#[derive(Clone, Copy, Debug, PartialEq, Eq, Structural)]
pub enum HttpVersion {
    Http09,
    Http10,
    Http11,
    Http2,
    Http3,
}

/// A response as the client gets it.
#[derive(Debug, PartialEq, Eq)]
pub struct ResponseEnvelope {
    pub status: u16,
    pub headers: Vec<Header>,
    pub body: Vec<u8>,
    pub version: HttpVersion,
}

/// The status that a fault is reported with.
pub open spec fn fault_status(fault: Fault) -> u16 {
    match fault {
        Fault::DialTimeout => 504,
        Fault::ReadTimeout => 504,
        Fault::Unavailable => 503,
        Fault::InvalidUri => 400,
        Fault::InvalidBody => 400,
        Fault::ResponseConversion => 502,
        Fault::UpstreamProtocol => 502,
        Fault::WebSocketUpgrade => 501,
    }
}

/// The error code that a fault is reported with.
pub open spec fn fault_code(fault: Fault) -> Seq<char> {
    match fault {
        Fault::DialTimeout => "UpstreamTimeout"@,
        Fault::ReadTimeout => "UpstreamTimeout"@,
        Fault::Unavailable => "UpstreamUnavailable"@,
        Fault::InvalidUri => "InvalidUri"@,
        Fault::InvalidBody => "InvalidBody"@,
        Fault::ResponseConversion => "ResponseConversionError"@,
        Fault::UpstreamProtocol => "UpstreamError"@,
        Fault::WebSocketUpgrade => "NotImplemented"@,
    }
}

/// The words that open the detail of a fault, before its cause.
pub open spec fn fault_preamble(fault: Fault) -> Seq<char> {
    match fault {
        Fault::DialTimeout => "Wolf API request timed out: "@,
        Fault::ReadTimeout => "Wolf API request timed out: "@,
        Fault::Unavailable => "Failed to connect to wolf.sock: "@,
        Fault::InvalidUri => "Failed to parse URI: "@,
        Fault::InvalidBody => "Failed to read request body: "@,
        Fault::ResponseConversion => "Failed to convert upstream response: "@,
        Fault::UpstreamProtocol => "Wolf API request failed: "@,
        Fault::WebSocketUpgrade => "WebSocket proxying is not yet supported"@,
    }
}

/// The human message of a fault: for a WebSocket upgrade a fixed sentence,
/// for every other fault its preamble and the cause.
pub open spec fn fault_detail(fault: Fault, cause: Seq<char>) -> Seq<char> {
    match fault {
        Fault::WebSocketUpgrade => fault_preamble(fault),
        _ => fault_preamble(fault) + cause,
    }
}

impl Fault {
    /// The status that the fault is reported with.
    pub fn status(&self) -> (s: u16)
        ensures
            s == fault_status(*self),
    {
        match self {
            Fault::DialTimeout => 504,
            Fault::ReadTimeout => 504,
            Fault::Unavailable => 503,
            Fault::InvalidUri => 400,
            Fault::InvalidBody => 400,
            Fault::ResponseConversion => 502,
            Fault::UpstreamProtocol => 502,
            Fault::WebSocketUpgrade => 501,
        }
    }

    /// The error code that the fault is reported with.
    pub fn code(&self) -> (c: &'static str)
        ensures
            c@ == fault_code(*self),
    {
        match self {
            Fault::DialTimeout => "UpstreamTimeout",
            Fault::ReadTimeout => "UpstreamTimeout",
            Fault::Unavailable => "UpstreamUnavailable",
            Fault::InvalidUri => "InvalidUri",
            Fault::InvalidBody => "InvalidBody",
            Fault::ResponseConversion => "ResponseConversionError",
            Fault::UpstreamProtocol => "UpstreamError",
            Fault::WebSocketUpgrade => "NotImplemented",
        }
    }

    fn preamble(&self) -> (c: &'static str)
        ensures
            c@ == fault_preamble(*self),
    {
        match self {
            Fault::DialTimeout => "Wolf API request timed out: ",
            Fault::ReadTimeout => "Wolf API request timed out: ",
            Fault::Unavailable => "Failed to connect to wolf.sock: ",
            Fault::InvalidUri => "Failed to parse URI: ",
            Fault::InvalidBody => "Failed to read request body: ",
            Fault::ResponseConversion => "Failed to convert upstream response: ",
            Fault::UpstreamProtocol => "Wolf API request failed: ",
            Fault::WebSocketUpgrade => "WebSocket proxying is not yet supported",
        }
    }

    /// The human message of the fault for the given cause.
    pub fn detail(&self, cause: &str) -> (d: String)
        ensures
            d@ == fault_detail(*self, cause@),
    {
        let start = String::from_str(self.preamble());
        match self {
            Fault::WebSocketUpgrade => start,
            _ => start.concat(cause),
        }
    }
}

/// The text of the JSON object with two members, each a string, as the
/// JSON library writes it.
pub uninterp spec fn json_object_text(
    first_key: Seq<char>,
    first: Seq<char>,
    second_key: Seq<char>,
    second: Seq<char>,
) -> Seq<u8>;

/// Builds a `serde_json::Value::Object` of two string members and writes
/// it with the value's `to_string`. Not proved: that the bytes are the
/// function of the four texts named `json_object_text`.
#[verifier::external_body]
fn write_json_object(first_key: &str, first: &str, second_key: &str, second: &str) -> (out: Vec<u8>)
    ensures
        out@ == json_object_text(first_key@, first@, second_key@, second@),
{
    let mut members = serde_json::Map::new();
    members.insert(first_key.to_string(), serde_json::Value::String(first.to_string()));
    members.insert(second_key.to_string(), serde_json::Value::String(second.to_string()));
    serde_json::Value::Object(members).to_string().into_bytes()
}

/// The one header of an error response.
pub open spec fn json_content_type() -> Seq<(Seq<u8>, Seq<u8>)> {
    seq![(ascii_bytes("content-type"@), ascii_bytes("application/json"@))]
}

/// The body of an error response.
pub open spec fn error_body(error: Seq<char>, detail: Seq<char>) -> Seq<u8> {
    json_object_text("error"@, error, "detail"@, detail)
}

/// Builds the response that reports an error: the given status, a JSON
/// content type, and a JSON object that holds the error code and the
/// detail.
pub fn error_response(status: u16, error: &str, detail: &str) -> (r: ResponseEnvelope)
    ensures
        r.status == status,
        header_list(r.headers@) == json_content_type(),
        r.body@ == error_body(error@, detail@),
        r.version == HttpVersion::Http11,
{
    proof {
        reveal_strlit("content-type");
        reveal_strlit("application/json");
    }
    let mut headers: Vec<Header> = Vec::new();
    headers.push(
        Header {
            name: copy_bytes(ascii_of("content-type")),
            value: copy_bytes(ascii_of("application/json")),
        },
    );
    assert(header_list(headers@) =~= json_content_type());
    ResponseEnvelope {
        status,
        headers,
        body: write_json_object("error", error, "detail", detail),
        version: HttpVersion::Http11,
    }
}

/// Builds the response that reports a fault with its cause.
pub fn fault_response(fault: Fault, cause: &str) -> (r: ResponseEnvelope)
    ensures
        r.status == fault_status(fault),
        header_list(r.headers@) == json_content_type(),
        r.body@ == error_body(fault_code(fault), fault_detail(fault, cause@)),
        r.version == HttpVersion::Http11,
{
    let detail = fault.detail(cause);
    error_response(fault.status(), fault.code(), detail.as_str())
}

/// Every fault is reported as a client or gateway error: 400, 501, 502,
/// 503 or 504, and a timeout always as 504.
pub proof fn lemma_fault_statuses(fault: Fault)
    ensures
        fault_status(fault) == 400 || fault_status(fault) == 501 || fault_status(fault) == 502
            || fault_status(fault) == 503 || fault_status(fault) == 504,
        (fault == Fault::DialTimeout || fault == Fault::ReadTimeout) <==> fault_status(fault)
            == 504,
{
}

} // verus!
