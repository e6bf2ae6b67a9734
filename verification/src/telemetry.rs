//! Structured telemetry: the entries that the pipeline records for a request
//! and its response. Nothing here writes to a sink; every function returns
//! the entries for the caller to emit.

use crate::headers::{first_text, get_header_value, header_fields, text_view};
use crate::text::{parse_u64, parsed_u64, same_text};
use axum::http::HeaderMap;
use vstd::prelude::*;

verus! {

/// Severity of an entry.
#[derive(Clone, Copy, Debug, PartialEq, Eq, Structural)]
pub enum Level {
    Debug,
    Info,
    Warn,
    Error,
}

/// Bucket of an HTTP status code.
#[derive(Clone, Copy, Debug, PartialEq, Eq, Structural)]
pub enum StatusClass {
    Success,
    Redirect,
    ClientError,
    ServerError,
    Other,
}

/// What an entry reports.
#[allow(inconsistent_fields)]
#[derive(Clone, Debug, PartialEq, Eq)]
pub enum Event {
    RequestReceived {
        method: String,
        uri: String,
        user_agent: Option<String>,
        content_type: Option<String>,
        content_length: Option<String>,
    },
    BodyDeferred,
    QueryParameters { query: String },
    Completed {
        class: StatusClass,
        status_code: u16,
        duration_ms: u128,
        content_type: Option<String>,
        content_length: Option<String>,
    },
    SlowRequest { duration_ms: u128 },
    LongRequest { duration_ms: u128 },
    LargeResponse { content_length: u64 },
    ServerFailure { method: String, uri: String, status_code: u16 },
    ClientFailure { method: String, uri: String, status_code: u16 },
    SuspiciousUserAgent { user_agent: String, pattern: String },
    SuspiciousUrl { uri: String, pattern: String, method: String },
    LargeHeaders { header_size_bytes: usize },
    AuthenticationFailed {
        method: String,
        uri: String,
        user_agent: Option<String>,
        ip_address: Option<String>,
    },
    RequestBody { endpoint: String, body_size: usize, body: Option<String> },
    ResponseBody { endpoint: String, body_size: usize, body: Option<String> },
}

/// An entry of the telemetry stream: an event under a correlation id.
#[derive(Clone, Debug, PartialEq, Eq)]
pub struct LogEntry {
    pub correlation_id: String,
    pub event: Event,
}

/// Mathematical value of an [`Event`].
#[allow(inconsistent_fields)]
pub enum EventView {
    RequestReceived {
        method: Seq<char>,
        uri: Seq<char>,
        user_agent: Option<Seq<char>>,
        content_type: Option<Seq<char>>,
        content_length: Option<Seq<char>>,
    },
    BodyDeferred,
    QueryParameters { query: Seq<char> },
    Completed {
        class: StatusClass,
        status_code: u16,
        duration_ms: u128,
        content_type: Option<Seq<char>>,
        content_length: Option<Seq<char>>,
    },
    SlowRequest { duration_ms: u128 },
    LongRequest { duration_ms: u128 },
    LargeResponse { content_length: u64 },
    ServerFailure { method: Seq<char>, uri: Seq<char>, status_code: u16 },
    ClientFailure { method: Seq<char>, uri: Seq<char>, status_code: u16 },
    SuspiciousUserAgent { user_agent: Seq<char>, pattern: Seq<char> },
    SuspiciousUrl { uri: Seq<char>, pattern: Seq<char>, method: Seq<char> },
    LargeHeaders { header_size_bytes: usize },
    AuthenticationFailed {
        method: Seq<char>,
        uri: Seq<char>,
        user_agent: Option<Seq<char>>,
        ip_address: Option<Seq<char>>,
    },
    RequestBody { endpoint: Seq<char>, body_size: usize, body: Option<Seq<char>> },
    ResponseBody { endpoint: Seq<char>, body_size: usize, body: Option<Seq<char>> },
}

/// Mathematical value of a [`LogEntry`].
pub struct LogEntryView {
    pub correlation_id: Seq<char>,
    pub event: EventView,
}

impl View for Event {
    type V = EventView;

    open spec fn view(&self) -> EventView {
        match *self {
            Event::RequestReceived { method, uri, user_agent, content_type, content_length } => {
                EventView::RequestReceived {
                    method: method@,
                    uri: uri@,
                    user_agent: text_view(user_agent),
                    content_type: text_view(content_type),
                    content_length: text_view(content_length),
                }
            },
            Event::BodyDeferred => EventView::BodyDeferred,
            Event::QueryParameters { query } => EventView::QueryParameters { query: query@ },
            Event::Completed { class, status_code, duration_ms, content_type, content_length } => {
                EventView::Completed {
                    class,
                    status_code,
                    duration_ms,
                    content_type: text_view(content_type),
                    content_length: text_view(content_length),
                }
            },
            Event::SlowRequest { duration_ms } => EventView::SlowRequest { duration_ms },
            Event::LongRequest { duration_ms } => EventView::LongRequest { duration_ms },
            Event::LargeResponse { content_length } => EventView::LargeResponse { content_length },
            Event::ServerFailure { method, uri, status_code } => EventView::ServerFailure {
                method: method@,
                uri: uri@,
                status_code,
            },
            Event::ClientFailure { method, uri, status_code } => EventView::ClientFailure {
                method: method@,
                uri: uri@,
                status_code,
            },
            Event::SuspiciousUserAgent { user_agent, pattern } => EventView::SuspiciousUserAgent {
                user_agent: user_agent@,
                pattern: pattern@,
            },
            Event::SuspiciousUrl { uri, pattern, method } => EventView::SuspiciousUrl {
                uri: uri@,
                pattern: pattern@,
                method: method@,
            },
            Event::LargeHeaders { header_size_bytes } => EventView::LargeHeaders {
                header_size_bytes,
            },
            Event::AuthenticationFailed { method, uri, user_agent, ip_address } => {
                EventView::AuthenticationFailed {
                    method: method@,
                    uri: uri@,
                    user_agent: text_view(user_agent),
                    ip_address: text_view(ip_address),
                }
            },
            Event::RequestBody { endpoint, body_size, body } => EventView::RequestBody {
                endpoint: endpoint@,
                body_size,
                body: text_view(body),
            },
            Event::ResponseBody { endpoint, body_size, body } => EventView::ResponseBody {
                endpoint: endpoint@,
                body_size,
                body: text_view(body),
            },
        }
    }
}

impl View for LogEntry {
    type V = LogEntryView;

    open spec fn view(&self) -> LogEntryView {
        LogEntryView { correlation_id: self.correlation_id@, event: self.event@ }
    }
}

/// The values of a list of entries, in order.
pub open spec fn entry_views(entries: Seq<LogEntry>) -> Seq<LogEntryView> {
    Seq::new(entries.len(), |i: int| entries[i]@)
}

/// The bucket of a status code: 2xx, 3xx, 4xx, 5xx, or none of them.
pub open spec fn status_class(status_code: u16) -> StatusClass {
    if 200 <= status_code <= 299 {
        StatusClass::Success
    } else if 300 <= status_code <= 399 {
        StatusClass::Redirect
    } else if 400 <= status_code <= 499 {
        StatusClass::ClientError
    } else if 500 <= status_code <= 599 {
        StatusClass::ServerError
    } else {
        StatusClass::Other
    }
}

/// The severity at which an event is recorded.
pub open spec fn level_of(event: EventView) -> Level {
    match event {
        EventView::RequestReceived { .. } => Level::Info,
        EventView::BodyDeferred => Level::Debug,
        EventView::QueryParameters { .. } => Level::Debug,
        EventView::Completed { class, .. } => match class {
            StatusClass::Success => Level::Info,
            StatusClass::Redirect => Level::Info,
            StatusClass::ClientError => Level::Warn,
            StatusClass::ServerError => Level::Error,
            StatusClass::Other => Level::Warn,
        },
        EventView::SlowRequest { .. } => Level::Warn,
        EventView::LongRequest { .. } => Level::Info,
        EventView::LargeResponse { .. } => Level::Info,
        EventView::ServerFailure { .. } => Level::Error,
        EventView::ClientFailure { .. } => Level::Warn,
        EventView::SuspiciousUserAgent { .. } => Level::Warn,
        EventView::SuspiciousUrl { .. } => Level::Warn,
        EventView::LargeHeaders { .. } => Level::Warn,
        EventView::AuthenticationFailed { .. } => Level::Warn,
        EventView::RequestBody { body, .. } => if body is Some {
            Level::Debug
        } else {
            Level::Info
        },
        EventView::ResponseBody { body, .. } => if body is Some {
            Level::Debug
        } else {
            Level::Info
        },
    }
}

/// The sentence that goes with an event.
pub open spec fn message_of(event: EventView) -> Seq<char> {
    match event {
        EventView::RequestReceived { .. } => "Incoming request"@,
        EventView::BodyDeferred => "Request body will be logged by individual handlers"@,
        EventView::QueryParameters { .. } => "Request query parameters"@,
        EventView::Completed { class, .. } => match class {
            StatusClass::Success => "Request completed successfully"@,
            StatusClass::Redirect => "Request redirected"@,
            StatusClass::ClientError => "Client error occurred"@,
            StatusClass::ServerError => "Server error occurred"@,
            StatusClass::Other => "Unknown status code"@,
        },
        EventView::SlowRequest { .. } => "Slow request detected (>1000ms)"@,
        EventView::LongRequest { .. } => "Request took longer than expected (>500ms)"@,
        EventView::LargeResponse { .. } => "Large response detected (>1MB)"@,
        EventView::ServerFailure { .. } => "Server error occurred during request processing"@,
        EventView::ClientFailure { .. } => "Client error occurred during request processing"@,
        EventView::SuspiciousUserAgent { .. } => "Suspicious user agent detected"@,
        EventView::SuspiciousUrl { .. } => "Suspicious URL pattern detected"@,
        EventView::LargeHeaders { .. } => "Unusually large headers detected"@,
        EventView::AuthenticationFailed { .. } => "Authentication failed"@,
        EventView::RequestBody { body, .. } => if body is Some {
            "Request body details"@
        } else {
            "Request body received (too large for debug logging)"@
        },
        EventView::ResponseBody { body, .. } => if body is Some {
            "Response body details"@
        } else {
            "Response body sent (too large for debug logging)"@
        },
    }
}

/// Classifies a status code.
pub fn classify_status(status_code: u16) -> (class: StatusClass)
    ensures
        class == status_class(status_code),
{
    if 200 <= status_code && status_code <= 299 {
        StatusClass::Success
    } else if 300 <= status_code && status_code <= 399 {
        StatusClass::Redirect
    } else if 400 <= status_code && status_code <= 499 {
        StatusClass::ClientError
    } else if 500 <= status_code && status_code <= 599 {
        StatusClass::ServerError
    } else {
        StatusClass::Other
    }
}

impl Event {
    /// The severity at which this event is recorded.
    pub fn level(&self) -> (level: Level)
        ensures
            level == level_of(self@),
    {
        match self {
            Event::RequestReceived { .. } => Level::Info,
            Event::BodyDeferred => Level::Debug,
            Event::QueryParameters { .. } => Level::Debug,
            Event::Completed { class, .. } => match class {
                StatusClass::Success => Level::Info,
                StatusClass::Redirect => Level::Info,
                StatusClass::ClientError => Level::Warn,
                StatusClass::ServerError => Level::Error,
                StatusClass::Other => Level::Warn,
            },
            Event::SlowRequest { .. } => Level::Warn,
            Event::LongRequest { .. } => Level::Info,
            Event::LargeResponse { .. } => Level::Info,
            Event::ServerFailure { .. } => Level::Error,
            Event::ClientFailure { .. } => Level::Warn,
            Event::SuspiciousUserAgent { .. } => Level::Warn,
            Event::SuspiciousUrl { .. } => Level::Warn,
            Event::LargeHeaders { .. } => Level::Warn,
            Event::AuthenticationFailed { .. } => Level::Warn,
            Event::RequestBody { body, .. } => if body.is_some() {
                Level::Debug
            } else {
                Level::Info
            },
            Event::ResponseBody { body, .. } => if body.is_some() {
                Level::Debug
            } else {
                Level::Info
            },
        }
    }

    /// The sentence that goes with this event.
    pub fn message(&self) -> (text: &'static str)
        ensures
            text@ == message_of(self@),
    {
        match self {
            Event::RequestReceived { .. } => "Incoming request",
            Event::BodyDeferred => "Request body will be logged by individual handlers",
            Event::QueryParameters { .. } => "Request query parameters",
            Event::Completed { class, .. } => match class {
                StatusClass::Success => "Request completed successfully",
                StatusClass::Redirect => "Request redirected",
                StatusClass::ClientError => "Client error occurred",
                StatusClass::ServerError => "Server error occurred",
                StatusClass::Other => "Unknown status code",
            },
            Event::SlowRequest { .. } => "Slow request detected (>1000ms)",
            Event::LongRequest { .. } => "Request took longer than expected (>500ms)",
            Event::LargeResponse { .. } => "Large response detected (>1MB)",
            Event::ServerFailure { .. } => "Server error occurred during request processing",
            Event::ClientFailure { .. } => "Client error occurred during request processing",
            Event::SuspiciousUserAgent { .. } => "Suspicious user agent detected",
            Event::SuspiciousUrl { .. } => "Suspicious URL pattern detected",
            Event::LargeHeaders { .. } => "Unusually large headers detected",
            Event::AuthenticationFailed { .. } => "Authentication failed",
            Event::RequestBody { body, .. } => if body.is_some() {
                "Request body details"
            } else {
                "Request body received (too large for debug logging)"
            },
            Event::ResponseBody { body, .. } => if body.is_some() {
                "Response body details"
            } else {
                "Response body sent (too large for debug logging)"
            },
        }
    }
}

/// The entries that report `events` under one correlation id, in order.
pub open spec fn tagged(correlation_id: Seq<char>, events: Seq<EventView>) -> Seq<LogEntryView> {
    Seq::new(events.len(), |i: int| LogEntryView { correlation_id, event: events[i] })
}

/// The completion event of a response. The content type is left out for a
/// status outside 200..599, the content length for all but a success.
pub open spec fn completion_event(
    status_code: u16,
    duration_ms: u128,
    content_type: Option<Seq<char>>,
    content_length: Option<Seq<char>>,
) -> EventView {
    let class = status_class(status_code);
    EventView::Completed {
        class,
        status_code,
        duration_ms,
        content_type: if class == StatusClass::Other {
            None
        } else {
            content_type
        },
        content_length: if class == StatusClass::Success {
            content_length
        } else {
            None
        },
    }
}

/// The event for a request that took long: above 1000 ms a slow request,
/// above 500 ms a long one, else none.
pub open spec fn pace_events(duration_ms: u128) -> Seq<EventView> {
    if duration_ms > 1000 {
        seq![EventView::SlowRequest { duration_ms }]
    } else if duration_ms > 500 {
        seq![EventView::LongRequest { duration_ms }]
    } else {
        Seq::empty()
    }
}

/// The event for a response of more than 1,000,000 bytes.
pub open spec fn size_events(length: Option<u64>) -> Seq<EventView> {
    match length {
        Some(n) => if n > 1_000_000 {
            seq![EventView::LargeResponse { content_length: n }]
        } else {
            Seq::empty()
        },
        None => Seq::empty(),
    }
}

/// All events of a response: completion, pace, size.
pub open spec fn response_events(
    status_code: u16,
    duration_ms: u128,
    content_type: Option<Seq<char>>,
    content_length: Option<Seq<char>>,
    length: Option<u64>,
) -> Seq<EventView> {
    seq![completion_event(status_code, duration_ms, content_type, content_length)] + pace_events(
        duration_ms,
    ) + size_events(length)
}

/// The number that a content-length header denotes, if it is there and is one.
pub open spec fn declared_length(content_length: Option<Seq<char>>) -> Option<u64> {
    match content_length {
        Some(s) => parsed_u64(s),
        None => None,
    }
}

/// Builds an entry.
pub fn entry(correlation_id: &str, event: Event) -> (res: LogEntry)
    ensures
        res@ == (LogEntryView { correlation_id: correlation_id@, event: event@ }),
{
    LogEntry { correlation_id: correlation_id.to_owned(), event }
}

/// The entries for a response, from the values read off it: its status, the
/// time it took, its content-type and content-length headers, and the number
/// that the content length denotes.
pub fn response_details(
    correlation_id: &str,
    duration_ms: u128,
    status_code: u16,
    content_type: Option<String>,
    content_length: Option<String>,
    length: Option<u64>,
) -> (entries: Vec<LogEntry>)
    ensures
        entry_views(entries@) == tagged(
            correlation_id@,
            response_events(
                status_code,
                duration_ms,
                text_view(content_type),
                text_view(content_length),
                length,
            ),
        ),
{
    let ghost cid = correlation_id@;
    let ghost ct = text_view(content_type);
    let ghost cl = text_view(content_length);
    let class = classify_status(status_code);
    let completed = Event::Completed {
        class,
        status_code,
        duration_ms,
        content_type: match class {
            StatusClass::Other => None,
            _ => content_type,
        },
        content_length: match class {
            StatusClass::Success => content_length,
            _ => None,
        },
    };
    assert(completed@ == completion_event(status_code, duration_ms, ct, cl));
    let mut entries: Vec<LogEntry> = Vec::new();
    entries.push(entry(correlation_id, completed));
    assert(entry_views(entries@) =~= tagged(
        cid,
        seq![completion_event(status_code, duration_ms, ct, cl)],
    ));
    if duration_ms > 1000 {
        entries.push(entry(correlation_id, Event::SlowRequest { duration_ms }));
    } else if duration_ms > 500 {
        entries.push(entry(correlation_id, Event::LongRequest { duration_ms }));
    }
    assert(entry_views(entries@) =~= tagged(
        cid,
        seq![completion_event(status_code, duration_ms, ct, cl)] + pace_events(duration_ms),
    ));
    match length {
        Some(n) => {
            if n > 1_000_000 {
                entries.push(entry(correlation_id, Event::LargeResponse { content_length: n }));
            }
        },
        None => {},
    }
    assert(entry_views(entries@) =~= tagged(
        cid,
        response_events(status_code, duration_ms, ct, cl, length),
    ));
    entries
}

/// The entries for a response with the given headers.
pub fn log_response_details(
    headers: &HeaderMap,
    correlation_id: &str,
    duration_ms: u128,
    status_code: u16,
) -> (entries: Vec<LogEntry>)
    ensures
        entry_views(entries@) == tagged(
            correlation_id@,
            response_events(
                status_code,
                duration_ms,
                first_text(header_fields(*headers), "content-type"@),
                first_text(header_fields(*headers), "content-length"@),
                declared_length(first_text(header_fields(*headers), "content-length"@)),
            ),
        ),
{
    proof {
        reveal_strlit("content-type");
        reveal_strlit("content-length");
    }
    let content_type = get_header_value(headers, "content-type");
    let content_length = get_header_value(headers, "content-length");
    let length = match &content_length {
        Some(s) => parse_u64(s.as_str()),
        None => None,
    };
    response_details(correlation_id, duration_ms, status_code, content_type, content_length, length)
}

/// The events for an incoming request: the request itself, a note that its
/// body is left to the handlers (for POST and PUT, when debug entries are
/// recorded), and its query string if it has one.
pub open spec fn request_events(
    method: Seq<char>,
    uri: Seq<char>,
    query: Option<Seq<char>>,
    user_agent: Option<Seq<char>>,
    content_type: Option<Seq<char>>,
    content_length: Option<Seq<char>>,
    debug_enabled: bool,
) -> Seq<EventView> {
    seq![EventView::RequestReceived { method, uri, user_agent, content_type, content_length }] + (
    if (method == "POST"@ || method == "PUT"@) && debug_enabled {
        seq![EventView::BodyDeferred]
    } else {
        Seq::empty()
    }) + (match query {
        Some(q) => seq![EventView::QueryParameters { query: q }],
        None => Seq::empty(),
    })
}

/// The entries for an incoming request, from the values read off it.
pub fn request_details(
    correlation_id: &str,
    method: &str,
    uri: &str,
    query: Option<&str>,
    user_agent: Option<String>,
    content_type: Option<String>,
    content_length: Option<String>,
    debug_enabled: bool,
) -> (entries: Vec<LogEntry>)
    ensures
        entry_views(entries@) == tagged(
            correlation_id@,
            request_events(
                method@,
                uri@,
                match query {
                    Some(q) => Some(q@),
                    None => None,
                },
                text_view(user_agent),
                text_view(content_type),
                text_view(content_length),
                debug_enabled,
            ),
        ),
{
    let ghost cid = correlation_id@;
    let ghost received = EventView::RequestReceived {
        method: method@,
        uri: uri@,
        user_agent: text_view(user_agent),
        content_type: text_view(content_type),
        content_length: text_view(content_length),
    };
    let ghost deferred = if (method@ == "POST"@ || method@ == "PUT"@) && debug_enabled {
        seq![EventView::BodyDeferred]
    } else {
        Seq::empty()
    };
    let mut entries: Vec<LogEntry> = Vec::new();
    entries.push(
        entry(
            correlation_id,
            Event::RequestReceived {
                method: method.to_owned(),
                uri: uri.to_owned(),
                user_agent,
                content_type,
                content_length,
            },
        ),
    );
    assert(entry_views(entries@) =~= tagged(cid, seq![received]));
    if (same_text(method, "POST") || same_text(method, "PUT")) && debug_enabled {
        entries.push(entry(correlation_id, Event::BodyDeferred));
    }
    assert(entry_views(entries@) =~= tagged(cid, seq![received] + deferred));
    match query {
        Some(q) => {
            entries.push(entry(correlation_id, Event::QueryParameters { query: q.to_owned() }));
            assert(entry_views(entries@) =~= tagged(
                cid,
                seq![received] + deferred + seq![EventView::QueryParameters { query: q@ }],
            ));
        },
        None => {
            assert(entry_views(entries@) =~= tagged(
                cid,
                seq![received] + deferred + Seq::<EventView>::empty(),
            ));
        },
    }
    entries
}

/// The entries for an incoming request with the given headers.
pub fn log_request_details(
    headers: &HeaderMap,
    correlation_id: &str,
    method: &str,
    uri: &str,
    query: Option<&str>,
    debug_enabled: bool,
) -> (entries: Vec<LogEntry>)
    ensures
        entry_views(entries@) == tagged(
            correlation_id@,
            request_events(
                method@,
                uri@,
                match query {
                    Some(q) => Some(q@),
                    None => None,
                },
                first_text(header_fields(*headers), "user-agent"@),
                first_text(header_fields(*headers), "content-type"@),
                first_text(header_fields(*headers), "content-length"@),
                debug_enabled,
            ),
        ),
{
    proof {
        reveal_strlit("user-agent");
        reveal_strlit("content-type");
        reveal_strlit("content-length");
    }
    let user_agent = get_header_value(headers, "user-agent");
    let content_type = get_header_value(headers, "content-type");
    let content_length = get_header_value(headers, "content-length");
    request_details(
        correlation_id,
        method,
        uri,
        query,
        user_agent,
        content_type,
        content_length,
        debug_enabled,
    )
}

/// The event for a response that reports a failure: a server failure for a
/// status in 500..599, a client failure for one in 400..499, else none.
pub open spec fn failure_event(method: Seq<char>, uri: Seq<char>, status_code: u16) -> Option<
    EventView,
> {
    if 500 <= status_code <= 599 {
        Some(EventView::ServerFailure { method, uri, status_code })
    } else if 400 <= status_code <= 499 {
        Some(EventView::ClientFailure { method, uri, status_code })
    } else {
        None
    }
}

/// The value of an optional entry.
pub open spec fn optional_entry_view(entry: Option<LogEntry>) -> Option<LogEntryView> {
    match entry {
        Some(e) => Some(e@),
        None => None,
    }
}

/// An event under a correlation id, where there is one.
pub open spec fn tagged_optional(correlation_id: Seq<char>, event: Option<EventView>) -> Option<
    LogEntryView,
> {
    match event {
        Some(e) => Some(LogEntryView { correlation_id, event: e }),
        None => None,
    }
}

/// The entry, if any, that reports a failed response.
pub fn failure_entry(correlation_id: &str, method: &str, uri: &str, status_code: u16) -> (res:
    Option<LogEntry>)
    ensures
        optional_entry_view(res) == tagged_optional(
            correlation_id@,
            failure_event(method@, uri@, status_code),
        ),
{
    if 500 <= status_code && status_code <= 599 {
        Some(
            entry(
                correlation_id,
                Event::ServerFailure { method: method.to_owned(), uri: uri.to_owned(), status_code },
            ),
        )
    } else if 400 <= status_code && status_code <= 499 {
        Some(
            entry(
                correlation_id,
                Event::ClientFailure { method: method.to_owned(), uri: uri.to_owned(), status_code },
            ),
        )
    } else {
        None
    }
}

/// The length of a string in bytes of UTF-8.
pub open spec fn byte_len(s: Seq<char>) -> usize {
    vstd::utf8::encode_utf8(s).len() as usize
}

/// The event for a request body: with the body itself when debug entries are
/// recorded and it is under 10,000 bytes; else with its size alone when
/// informational entries are recorded; else none.
pub open spec fn request_body_event(
    endpoint: Seq<char>,
    body: Seq<char>,
    debug_enabled: bool,
    info_enabled: bool,
) -> Option<EventView> {
    if debug_enabled && byte_len(body) < 10000 {
        Some(EventView::RequestBody { endpoint, body_size: byte_len(body), body: Some(body) })
    } else if info_enabled {
        Some(EventView::RequestBody { endpoint, body_size: byte_len(body), body: None })
    } else {
        None
    }
}

/// The event for a response body, by the same rule as for a request body.
pub open spec fn response_body_event(
    endpoint: Seq<char>,
    body: Seq<char>,
    debug_enabled: bool,
    info_enabled: bool,
) -> Option<EventView> {
    if debug_enabled && byte_len(body) < 10000 {
        Some(EventView::ResponseBody { endpoint, body_size: byte_len(body), body: Some(body) })
    } else if info_enabled {
        Some(EventView::ResponseBody { endpoint, body_size: byte_len(body), body: None })
    } else {
        None
    }
}

/// The entry, if any, that records a request body for debugging.
pub fn log_request_body(
    correlation_id: &str,
    endpoint: &str,
    body: &str,
    debug_enabled: bool,
    info_enabled: bool,
) -> (res: Option<LogEntry>)
    ensures
        optional_entry_view(res) == tagged_optional(
            correlation_id@,
            request_body_event(endpoint@, body@, debug_enabled, info_enabled),
        ),
{
    let body_size = body.len();
    if debug_enabled && body_size < 10000 {
        Some(
            entry(
                correlation_id,
                Event::RequestBody {
                    endpoint: endpoint.to_owned(),
                    body_size,
                    body: Some(body.to_owned()),
                },
            ),
        )
    } else if info_enabled {
        Some(
            entry(
                correlation_id,
                Event::RequestBody { endpoint: endpoint.to_owned(), body_size, body: None },
            ),
        )
    } else {
        None
    }
}

/// The entry, if any, that records a response body for debugging.
pub fn log_response_body(
    correlation_id: &str,
    endpoint: &str,
    body: &str,
    debug_enabled: bool,
    info_enabled: bool,
) -> (res: Option<LogEntry>)
    ensures
        optional_entry_view(res) == tagged_optional(
            correlation_id@,
            response_body_event(endpoint@, body@, debug_enabled, info_enabled),
        ),
{
    let body_size = body.len();
    if debug_enabled && body_size < 10000 {
        Some(
            entry(
                correlation_id,
                Event::ResponseBody {
                    endpoint: endpoint.to_owned(),
                    body_size,
                    body: Some(body.to_owned()),
                },
            ),
        )
    } else if info_enabled {
        Some(
            entry(
                correlation_id,
                Event::ResponseBody { endpoint: endpoint.to_owned(), body_size, body: None },
            ),
        )
    } else {
        None
    }
}

} // verus!
