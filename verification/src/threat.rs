//! Threat signals: patterns in the user agent and the URI, oversized headers,
//! and failed authentication. Detection only: nothing here rejects or changes
//! a request.

use crate::headers::{
    first_header_text, first_present, first_text, get_header_value, header_entries, header_fields,
    is_plain_name, name_views, text_view,
};
use crate::telemetry::{
    byte_len, entry, entry_views, optional_entry_view, tagged, tagged_optional, Event, EventView,
    LogEntry,
};
use crate::text::{before_first, contains, first_segment, has_substring, lowercased, to_lowercase, trim, trimmed};
use axum::http::HeaderMap;
use vstd::prelude::*;

verus! {

/// The rules of the scanner: what to look for in the user agent and in the
/// URI, and how many bytes of headers are too many.
#[derive(Clone, Debug)]
pub struct ThreatScanner {
    pub agent_patterns: Vec<String>,
    pub uri_patterns: Vec<String>,
    pub max_header_bytes: usize,
}

/// The views of a list of strings.
pub open spec fn texts(list: Seq<String>) -> Seq<Seq<char>> {
    Seq::new(list.len(), |i: int| list[i]@)
}

/// The user-agent signatures of the standard rules.
pub open spec fn standard_agent_patterns() -> Seq<Seq<char>> {
    seq![
        "sqlmap"@,
        "nikto"@,
        "nmap"@,
        "masscan"@,
        "zap"@,
        "burp"@,
        "scanner"@,
        "crawler"@,
        "bot"@,
        "spider"@,
    ]
}

/// The URI markers of the standard rules: path traversal, script injection,
/// SQL injection.
pub open spec fn standard_uri_patterns() -> Seq<Seq<char>> {
    seq![
        ".."@,
        "%2e%2e"@,
        "/etc/passwd"@,
        "/proc/self"@,
        "<script"@,
        "javascript:"@,
        "eval("@,
        "alert("@,
        "union select"@,
        "drop table"@,
        "insert into"@,
    ]
}

/// One event for each pattern, in the patterns' order, that occurs in the
/// lower-cased user agent.
pub open spec fn agent_events(
    user_agent: Seq<char>,
    lowered: Seq<char>,
    patterns: Seq<Seq<char>>,
) -> Seq<EventView>
    decreases patterns.len(),
{
    if patterns.len() == 0 {
        Seq::empty()
    } else {
        agent_events(user_agent, lowered, patterns.drop_last()) + (if has_substring(
            lowered,
            patterns.last(),
        ) {
            seq![EventView::SuspiciousUserAgent { user_agent, pattern: patterns.last() }]
        } else {
            Seq::empty()
        })
    }
}

/// One event for each pattern, in the patterns' order, that occurs in the
/// lower-cased URI.
pub open spec fn uri_events(
    uri: Seq<char>,
    lowered: Seq<char>,
    method: Seq<char>,
    patterns: Seq<Seq<char>>,
) -> Seq<EventView>
    decreases patterns.len(),
{
    if patterns.len() == 0 {
        Seq::empty()
    } else {
        uri_events(uri, lowered, method, patterns.drop_last()) + (if has_substring(
            lowered,
            patterns.last(),
        ) {
            seq![EventView::SuspiciousUrl { uri, pattern: patterns.last(), method }]
        } else {
            Seq::empty()
        })
    }
}

/// The size of the headers: the bytes of every name and every value.
pub open spec fn header_bytes(fields: Seq<(Seq<char>, Seq<u8>)>) -> nat
    decreases fields.len(),
{
    if fields.len() == 0 {
        0
    } else {
        header_bytes(fields.drop_last()) + (byte_len(fields.last().0) as nat) + fields.last().1.len()
    }
}

/// A size as a machine word: itself, or the largest word where it is larger.
pub open spec fn capped(n: nat) -> usize {
    if n > usize::MAX {
        usize::MAX
    } else {
        n as usize
    }
}

/// The event for headers of more than `max` bytes.
pub open spec fn header_size_events(size: usize, max: usize) -> Seq<EventView> {
    if size > max {
        seq![EventView::LargeHeaders { header_size_bytes: size }]
    } else {
        Seq::empty()
    }
}

/// The events of a scan of the user agent, where the request names one.
pub open spec fn optional_agent_events(
    user_agent: Option<Seq<char>>,
    patterns: Seq<Seq<char>>,
) -> Seq<EventView> {
    match user_agent {
        Some(agent) => agent_events(agent, lowercased(agent), patterns),
        None => Seq::empty(),
    }
}

/// All threat events of a request: user agent, URI, header size.
pub open spec fn threat_events(
    scanner: ThreatScanner,
    fields: Seq<(Seq<char>, Seq<u8>)>,
    uri: Seq<char>,
    method: Seq<char>,
) -> Seq<EventView> {
    optional_agent_events(first_text(fields, "user-agent"@), texts(scanner.agent_patterns@))
        + uri_events(uri, lowercased(uri), method, texts(scanner.uri_patterns@))
        + header_size_events(capped(header_bytes(fields)), scanner.max_header_bytes)
}

/// The header names that carry the client's address, in priority order.
pub open spec fn client_ip_header_names() -> Seq<Seq<char>> {
    seq![
        "x-forwarded-for"@,
        "x-real-ip"@,
        "cf-connecting-ip"@,
        "x-client-ip"@,
        "x-forwarded"@,
    ]
}

/// The client address that a forwarding header names: its first
/// comma-separated token, without the white space around it.
pub open spec fn forwarded_address(value: Seq<char>) -> Seq<char> {
    trimmed(before_first(value, ','))
}

/// The client address of a request, as far as its headers tell.
pub open spec fn client_ip(fields: Seq<(Seq<char>, Seq<u8>)>) -> Option<Seq<char>> {
    match first_present(fields, client_ip_header_names()) {
        Some(value) => Some(forwarded_address(value)),
        None => None,
    }
}

/// The event for a response that refuses authentication (status 401).
pub open spec fn authentication_event(
    fields: Seq<(Seq<char>, Seq<u8>)>,
    method: Seq<char>,
    uri: Seq<char>,
    status_code: u16,
) -> Option<EventView> {
    if status_code == 401 {
        Some(
            EventView::AuthenticationFailed {
                method,
                uri,
                user_agent: first_text(fields, "user-agent"@),
                ip_address: client_ip(fields),
            },
        )
    } else {
        None
    }
}

proof fn lemma_entry_views_push(entries: Seq<LogEntry>, last: LogEntry)
    ensures
        entry_views(entries.push(last)) == entry_views(entries).push(last@),
{
    assert(entry_views(entries.push(last)) =~= entry_views(entries).push(last@));
}

proof fn lemma_entry_views_concat(a: Seq<LogEntry>, b: Seq<LogEntry>)
    ensures
        entry_views(a + b) == entry_views(a) + entry_views(b),
{
    assert(entry_views(a + b) =~= entry_views(a) + entry_views(b));
}

proof fn lemma_tagged_concat(correlation_id: Seq<char>, a: Seq<EventView>, b: Seq<EventView>)
    ensures
        tagged(correlation_id, a + b) == tagged(correlation_id, a) + tagged(correlation_id, b),
{
    assert(tagged(correlation_id, a + b) =~= tagged(correlation_id, a) + tagged(correlation_id, b));
}

/// Adds two sizes, stopping at the largest machine word.
fn add_capped(total: usize, more: usize) -> (sum: usize)
    ensures
        sum == capped((total + more) as nat),
{
    total.saturating_add(more)
}

impl ThreatScanner {
    /// A scanner with the given rules.
    pub fn new(agent_patterns: Vec<String>, uri_patterns: Vec<String>, max_header_bytes: usize) -> (scanner:
        Self)
        ensures
            scanner.agent_patterns == agent_patterns,
            scanner.uri_patterns == uri_patterns,
            scanner.max_header_bytes == max_header_bytes,
    {
        ThreatScanner { agent_patterns, uri_patterns, max_header_bytes }
    }

    /// The standard rules: ten scanner signatures, eleven URI markers, and
    /// 8192 bytes of headers.
    pub fn standard() -> (scanner: Self)
        ensures
            texts(scanner.agent_patterns@) == standard_agent_patterns(),
            texts(scanner.uri_patterns@) == standard_uri_patterns(),
            scanner.max_header_bytes == 8192,
    {
        let mut agents: Vec<String> = Vec::new();
        agents.push("sqlmap".to_owned());
        agents.push("nikto".to_owned());
        agents.push("nmap".to_owned());
        agents.push("masscan".to_owned());
        agents.push("zap".to_owned());
        agents.push("burp".to_owned());
        agents.push("scanner".to_owned());
        agents.push("crawler".to_owned());
        agents.push("bot".to_owned());
        agents.push("spider".to_owned());
        assert(texts(agents@) =~= standard_agent_patterns());
        let mut uris: Vec<String> = Vec::new();
        uris.push("..".to_owned());
        uris.push("%2e%2e".to_owned());
        uris.push("/etc/passwd".to_owned());
        uris.push("/proc/self".to_owned());
        uris.push("<script".to_owned());
        uris.push("javascript:".to_owned());
        uris.push("eval(".to_owned());
        uris.push("alert(".to_owned());
        uris.push("union select".to_owned());
        uris.push("drop table".to_owned());
        uris.push("insert into".to_owned());
        assert(texts(uris@) =~= standard_uri_patterns());
        ThreatScanner { agent_patterns: agents, uri_patterns: uris, max_header_bytes: 8192 }
    }

    /// The entries for a user agent, given its lower-case form.
    pub fn scan_user_agent(&self, correlation_id: &str, user_agent: &str, lowered: &str) -> (entries:
        Vec<LogEntry>)
        ensures
            entry_views(entries@) == tagged(
                correlation_id@,
                agent_events(user_agent@, lowered@, texts(self.agent_patterns@)),
            ),
    {
        let ghost cid = correlation_id@;
        let ghost patterns = texts(self.agent_patterns@);
        let mut entries: Vec<LogEntry> = Vec::new();
        let mut i: usize = 0;
        assert(entry_views(entries@) =~= tagged(
            cid,
            agent_events(user_agent@, lowered@, patterns.take(0)),
        ));
        while i < self.agent_patterns.len()
            invariant
                0 <= i <= self.agent_patterns@.len(),
                cid == correlation_id@,
                patterns == texts(self.agent_patterns@),
                entry_views(entries@) == tagged(
                    cid,
                    agent_events(user_agent@, lowered@, patterns.take(i as int)),
                ),
            decreases self.agent_patterns@.len() - i,
        {
            let pattern = &self.agent_patterns[i];
            let ghost before = agent_events(user_agent@, lowered@, patterns.take(i as int));
            let ghost old_entries = entries@;
            proof {
                assert(patterns.take(i + 1).drop_last() =~= patterns.take(i as int));
                assert(patterns.take(i + 1).last() == pattern@);
            }
            if contains(lowered, pattern.as_str()) {
                let found = entry(
                    correlation_id,
                    Event::SuspiciousUserAgent {
                        user_agent: user_agent.to_owned(),
                        pattern: pattern.clone(),
                    },
                );
                entries.push(found);
                proof {
                    lemma_entry_views_push(old_entries, found);
                    let added = seq![
                        EventView::SuspiciousUserAgent { user_agent: user_agent@, pattern: pattern@ },
                    ];
                    lemma_tagged_concat(cid, before, added);
                    assert(tagged(cid, added) =~= seq![found@]);
                    assert(entry_views(old_entries).push(found@) =~= entry_views(old_entries)
                        + seq![found@]);
                }
            } else {
                assert(before + Seq::<EventView>::empty() =~= before);
            }
            i += 1;
        }
        assert(patterns.take(patterns.len() as int) =~= patterns);
        entries
    }

    /// The entries for a URI, given its lower-case form.
    pub fn scan_uri(&self, correlation_id: &str, uri: &str, lowered: &str, method: &str) -> (entries:
        Vec<LogEntry>)
        ensures
            entry_views(entries@) == tagged(
                correlation_id@,
                uri_events(uri@, lowered@, method@, texts(self.uri_patterns@)),
            ),
    {
        let ghost cid = correlation_id@;
        let ghost patterns = texts(self.uri_patterns@);
        let mut entries: Vec<LogEntry> = Vec::new();
        let mut i: usize = 0;
        assert(entry_views(entries@) =~= tagged(
            cid,
            uri_events(uri@, lowered@, method@, patterns.take(0)),
        ));
        while i < self.uri_patterns.len()
            invariant
                0 <= i <= self.uri_patterns@.len(),
                cid == correlation_id@,
                patterns == texts(self.uri_patterns@),
                entry_views(entries@) == tagged(
                    cid,
                    uri_events(uri@, lowered@, method@, patterns.take(i as int)),
                ),
            decreases self.uri_patterns@.len() - i,
        {
            let pattern = &self.uri_patterns[i];
            let ghost before = uri_events(uri@, lowered@, method@, patterns.take(i as int));
            let ghost old_entries = entries@;
            proof {
                assert(patterns.take(i + 1).drop_last() =~= patterns.take(i as int));
                assert(patterns.take(i + 1).last() == pattern@);
            }
            if contains(lowered, pattern.as_str()) {
                let found = entry(
                    correlation_id,
                    Event::SuspiciousUrl {
                        uri: uri.to_owned(),
                        pattern: pattern.clone(),
                        method: method.to_owned(),
                    },
                );
                entries.push(found);
                proof {
                    lemma_entry_views_push(old_entries, found);
                    let added = seq![
                        EventView::SuspiciousUrl { uri: uri@, pattern: pattern@, method: method@ },
                    ];
                    lemma_tagged_concat(cid, before, added);
                    assert(tagged(cid, added) =~= seq![found@]);
                    assert(entry_views(old_entries).push(found@) =~= entry_views(old_entries)
                        + seq![found@]);
                }
            } else {
                assert(before + Seq::<EventView>::empty() =~= before);
            }
            i += 1;
        }
        assert(patterns.take(patterns.len() as int) =~= patterns);
        entries
    }

    /// The entries for headers of the given size.
    pub fn check_header_size(&self, correlation_id: &str, size: usize) -> (entries: Vec<LogEntry>)
        ensures
            entry_views(entries@) == tagged(
                correlation_id@,
                header_size_events(size, self.max_header_bytes),
            ),
    {
        let mut entries: Vec<LogEntry> = Vec::new();
        if size > self.max_header_bytes {
            entries.push(entry(correlation_id, Event::LargeHeaders { header_size_bytes: size }));
        }
        assert(entry_views(entries@) =~= tagged(
            correlation_id@,
            header_size_events(size, self.max_header_bytes),
        ));
        entries
    }

    /// Screens a request: its user agent, its URI and the size of its
    /// headers. The result lists what was found; the request is not touched.
    pub fn detect_suspicious_activity(
        &self,
        headers: &HeaderMap,
        uri: &str,
        method: &str,
        correlation_id: &str,
    ) -> (entries: Vec<LogEntry>)
        ensures
            entry_views(entries@) == tagged(
                correlation_id@,
                threat_events(*self, header_fields(*headers), uri@, method@),
            ),
    {
        proof {
            reveal_strlit("user-agent");
        }
        let ghost cid = correlation_id@;
        let ghost fields = header_fields(*headers);
        let ghost from_agent = optional_agent_events(
            first_text(fields, "user-agent"@),
            texts(self.agent_patterns@),
        );
        let ghost from_uri = uri_events(uri@, lowercased(uri@), method@, texts(self.uri_patterns@));
        let ghost from_size = header_size_events(
            capped(header_bytes(fields)),
            self.max_header_bytes,
        );
        let mut entries: Vec<LogEntry> = match get_header_value(headers, "user-agent") {
            Some(user_agent) => {
                let lowered = to_lowercase(user_agent.as_str());
                self.scan_user_agent(correlation_id, user_agent.as_str(), lowered.as_str())
            },
            None => {
                let none: Vec<LogEntry> = Vec::new();
                assert(entry_views(none@) =~= tagged(cid, Seq::<EventView>::empty()));
                none
            },
        };
        assert(entry_views(entries@) == tagged(cid, from_agent));
        let lowered_uri = to_lowercase(uri);
        let mut found = self.scan_uri(correlation_id, uri, lowered_uri.as_str(), method);
        proof {
            lemma_entry_views_concat(entries@, found@);
            lemma_tagged_concat(cid, from_agent, from_uri);
        }
        entries.append(&mut found);
        let size = header_size(headers);
        let mut large = self.check_header_size(correlation_id, size);
        proof {
            lemma_entry_views_concat(entries@, large@);
            lemma_tagged_concat(cid, from_agent + from_uri, from_size);
        }
        entries.append(&mut large);
        entries
    }
}

/// The size of the headers in bytes, names and values together.
pub fn header_size(headers: &HeaderMap) -> (size: usize)
    ensures
        size == capped(header_bytes(header_fields(*headers))),
{
    let ghost fields = header_fields(*headers);
    let entries = header_entries(headers);
    let mut size: usize = 0;
    let mut i: usize = 0;
    assert(fields.take(0) =~= Seq::<(Seq<char>, Seq<u8>)>::empty());
    while i < entries.len()
        invariant
            0 <= i <= entries@.len(),
            entries@.len() == fields.len(),
            forall|k: int|
                0 <= k < entries@.len() ==> (#[trigger] entries@[k]).0@ == fields[k].0 && entries@[k].1@
                    == fields[k].1,
            size == capped(header_bytes(fields.take(i as int))),
        decreases entries@.len() - i,
    {
        let name_len = entries[i].0.as_str().len();
        let value_len = entries[i].1.len();
        proof {
            assert(fields.take(i + 1).drop_last() =~= fields.take(i as int));
            assert(fields.take(i + 1).last() == fields[i as int]);
            assert(entries@[i as int].0@ == fields[i as int].0);
            assert(name_len == byte_len(fields[i as int].0));
            assert(value_len == fields[i as int].1.len());
        }
        size = add_capped(add_capped(size, name_len), value_len);
        i += 1;
    }
    assert(fields.take(fields.len() as int) =~= fields);
    size
}

/// The header names that carry the client's address, in priority order.
pub fn client_ip_headers() -> (names: Vec<&'static str>)
    ensures
        name_views(names@) == client_ip_header_names(),
        forall|i: int| 0 <= i < names@.len() ==> is_plain_name(#[trigger] names@[i]@),
{
    let names = vec![
        "x-forwarded-for",
        "x-real-ip",
        "cf-connecting-ip",
        "x-client-ip",
        "x-forwarded",
    ];
    proof {
        reveal_strlit("x-forwarded-for");
        reveal_strlit("x-real-ip");
        reveal_strlit("cf-connecting-ip");
        reveal_strlit("x-client-ip");
        reveal_strlit("x-forwarded");
        assert(name_views(names@) =~= client_ip_header_names());
    }
    names
}

/// The client address that a forwarding header names.
pub fn first_forwarded_address(value: &str) -> (address: String)
    ensures
        address@ == forwarded_address(value@),
{
    let first = first_segment(value, ',');
    trim(first.as_str())
}

/// The client address of a request, as far as its headers tell.
pub fn get_client_ip(headers: &HeaderMap) -> (address: Option<String>)
    ensures
        text_view(address) == client_ip(header_fields(*headers)),
{
    let names = client_ip_headers();
    match first_header_text(headers, &names) {
        Some(value) => Some(first_forwarded_address(value.as_str())),
        None => None,
    }
}

/// The entry, if any, that reports a response refusing authentication.
pub fn authentication_failure_entry(
    headers: &HeaderMap,
    correlation_id: &str,
    method: &str,
    uri: &str,
    status_code: u16,
) -> (res: Option<LogEntry>)
    ensures
        optional_entry_view(res) == tagged_optional(
            correlation_id@,
            authentication_event(header_fields(*headers), method@, uri@, status_code),
        ),
{
    proof {
        reveal_strlit("user-agent");
    }
    if status_code == 401 {
        let user_agent = get_header_value(headers, "user-agent");
        let ip_address = get_client_ip(headers);
        Some(
            entry(
                correlation_id,
                Event::AuthenticationFailed {
                    method: method.to_owned(),
                    uri: uri.to_owned(),
                    user_agent,
                    ip_address,
                },
            ),
        )
    } else {
        None
    }
}

} // verus!
