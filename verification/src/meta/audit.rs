//! Audit records of API requests, and the settings that control auditing.
use vstd::prelude::*;
use crate::text::{str_eq, to_lowercase, lower_text, parse_u64, parse_u64_spec};

verus! {

/// Name of the stream that audit records go to.
pub const AUDIT_STREAM: &'static str = "audit";

/// An audit record of one request.
#[derive(Clone, Debug)]
pub struct AuditMessage {
    /// Email of the user who made the request.
    pub user_email: String,
    /// Organization the request was made against.
    pub org_id: String,
    /// Time in microseconds.
    pub _timestamp: i64,
    /// Protocol of the request.
    pub protocol: Protocol,
    /// Details of the request and response.
    pub response_meta: ResponseMeta,
}

/// Protocol of an audited request.
#[derive(Clone, Copy, Debug, PartialEq, Eq, Structural)]
pub enum Protocol {
    Http,
    Grpc,
}

/// Details of an audited request and its response.
#[derive(Clone, Debug)]
pub struct ResponseMeta {
    /// HTTP method, such as GET or POST.
    pub http_method: String,
    /// API path, without the base URI.
    pub http_path: String,
    /// Request body.
    pub http_body: String,
    /// Query string.
    pub http_query_params: String,
    /// HTTP status of the response.
    pub http_response_code: u16,
    /// Error message when the request failed.
    pub error_msg: Option<String>,
    /// Trace ID for distributed tracing.
    pub trace_id: Option<String>,
}

/// Whether a setting's text turns auditing on: "true" in any case, or "1".
pub open spec fn audit_flag_spec(value: Option<Seq<char>>) -> bool {
    match value {
        Some(v) => lower_text(v) == "true"@ || v == "1"@,
        None => false,
    }
}

/// Whether auditing is on, given the text of the first of `ZO_AUDIT_ENABLED` and
/// `VISDATA_AUDIT_ENABLED` that is set; off when neither is.
pub fn audit_flag(value: Option<&str>) -> (r: bool)
    ensures
        r == audit_flag_spec(
            match value {
                Some(v) => Some(v@),
                None => None,
            },
        ),
{
    match value {
        Some(v) => {
            let lower = to_lowercase(v);
            str_eq(lower.as_str(), "true") || str_eq(v, "1")
        },
        None => false,
    }
}

/// The interval between audit publications, in seconds, given the text of the first of
/// `ZO_AUDIT_PUBLISH_INTERVAL` and `VISDATA_AUDIT_PUBLISH_INTERVAL` that is set: the number
/// it holds, or 30 when neither is set or the text is not an unsigned number.
pub fn audit_interval(value: Option<&str>) -> (r: u64)
    ensures
        r == match value {
            Some(v) => match parse_u64_spec(v@) {
                Some(n) => n,
                None => 30,
            },
            None => 30,
        },
{
    match value {
        Some(v) => match parse_u64(v) {
            Some(n) => n,
            None => 30,
        },
        None => 30,
    }
}

} // verus!
