//! The three observers that wrap every request: request logging, error
//! logging and security logging. Each has a step for the request and a step
//! for the response; the caller runs the handler in between, emits the
//! entries, and forwards the response as it is.

use crate::correlation::{
    extract_or_generate_correlation_id, is_generated_id, propagated_correlation_id,
};
use crate::headers::{first_text, header_fields};
use crate::telemetry::{
    declared_length, entry_views, failure_entry, failure_event, log_request_details,
    log_response_details, optional_entry_view, request_events, response_events, tagged,
    tagged_optional, LogEntry,
};
use crate::threat::{
    authentication_event, authentication_failure_entry, threat_events, ThreatScanner,
};
use axum::http::HeaderMap;
use vstd::prelude::*;

verus! {

/// What an observer keeps of a request until its response is there.
#[derive(Debug, PartialEq, Eq)]
pub struct RequestInfo {
    pub correlation_id: String,
    pub method: String,
    pub uri: String,
}

/// The observer holds this method and URI, under the correlation id that the
/// request brought, or under a generated one if it brought none.
pub open spec fn observes(
    info: RequestInfo,
    fields: Seq<(Seq<char>, Seq<u8>)>,
    method: Seq<char>,
    uri: Seq<char>,
) -> bool {
    &&& info.method@ == method
    &&& info.uri@ == uri
    &&& match propagated_correlation_id(fields) {
        Some(brought) => info.correlation_id@ == brought,
        None => is_generated_id(info.correlation_id@),
    }
}

/// Takes up a request: settles its correlation id and notes its method and
/// URI.
pub fn observe_request(headers: &HeaderMap, method: &str, uri: &str) -> (info: RequestInfo)
    ensures
        observes(info, header_fields(*headers), method@, uri@),
{
    RequestInfo {
        correlation_id: extract_or_generate_correlation_id(headers),
        method: method.to_owned(),
        uri: uri.to_owned(),
    }
}

/// Request logging, on the request: the entries for an incoming request.
pub fn request_logging_started(
    headers: &HeaderMap,
    method: &str,
    uri: &str,
    query: Option<&str>,
    debug_enabled: bool,
) -> (res: (RequestInfo, Vec<LogEntry>))
    ensures
        observes(res.0, header_fields(*headers), method@, uri@),
        entry_views(res.1@) == tagged(
            res.0.correlation_id@,
            request_events(
                method@,
                uri@,
                match query {
                    Some(q) => Some(q@),
                    None => None,
                },
                first_text(header_fields(*headers), "user-agent"@),
                first_text(header_fields(*headers), "content-type"@),
                first_text(header_fields(*headers), "content-length"@),
                debug_enabled,
            ),
        ),
{
    let info = observe_request(headers, method, uri);
    let entries = log_request_details(
        headers,
        info.correlation_id.as_str(),
        method,
        uri,
        query,
        debug_enabled,
    );
    (info, entries)
}

/// Request logging, on the response: completion, pace and size.
pub fn request_logging_finished(
    info: &RequestInfo,
    response_headers: &HeaderMap,
    duration_ms: u128,
    status_code: u16,
) -> (entries: Vec<LogEntry>)
    ensures
        entry_views(entries@) == tagged(
            info.correlation_id@,
            response_events(
                status_code,
                duration_ms,
                first_text(header_fields(*response_headers), "content-type"@),
                first_text(header_fields(*response_headers), "content-length"@),
                declared_length(first_text(header_fields(*response_headers), "content-length"@)),
            ),
        ),
{
    log_response_details(response_headers, info.correlation_id.as_str(), duration_ms, status_code)
}

/// Error logging, on the response: an entry for a status from 400 to 599.
pub fn error_logging_finished(info: &RequestInfo, status_code: u16) -> (res: Option<LogEntry>)
    ensures
        optional_entry_view(res) == tagged_optional(
            info.correlation_id@,
            failure_event(info.method@, info.uri@, status_code),
        ),
{
    failure_entry(info.correlation_id.as_str(), info.method.as_str(), info.uri.as_str(), status_code)
}

/// Security logging, on the request: what the scanner finds in it.
pub fn security_logging_started(
    scanner: &ThreatScanner,
    headers: &HeaderMap,
    method: &str,
    uri: &str,
) -> (res: (RequestInfo, Vec<LogEntry>))
    ensures
        observes(res.0, header_fields(*headers), method@, uri@),
        entry_views(res.1@) == tagged(
            res.0.correlation_id@,
            threat_events(*scanner, header_fields(*headers), uri@, method@),
        ),
{
    let info = observe_request(headers, method, uri);
    let entries = scanner.detect_suspicious_activity(
        headers,
        uri,
        method,
        info.correlation_id.as_str(),
    );
    (info, entries)
}

/// Security logging, on the response: an entry for a refused
/// authentication, with the user agent and the client address of the
/// request.
pub fn security_logging_finished(info: &RequestInfo, headers: &HeaderMap, status_code: u16) -> (res:
    Option<LogEntry>)
    ensures
        optional_entry_view(res) == tagged_optional(
            info.correlation_id@,
            authentication_event(header_fields(*headers), info.method@, info.uri@, status_code),
        ),
{
    authentication_failure_entry(
        headers,
        info.correlation_id.as_str(),
        info.method.as_str(),
        info.uri.as_str(),
        status_code,
    )
}

} // verus!
