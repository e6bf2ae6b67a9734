use axum::http::{HeaderMap, HeaderValue};
use user_service::telemetry::{Event, Level, LogEntry};
use user_service::text::first_segment;
use user_service::threat::{
    authentication_failure_entry, client_ip_headers, first_forwarded_address, get_client_ip,
    header_size, ThreatScanner,
};

fn headers(pairs: &[(&'static str, &str)]) -> HeaderMap {
    let mut map = HeaderMap::new();
    for (name, value) in pairs {
        map.append(*name, HeaderValue::from_str(value).unwrap());
    }
    map
}

fn patterns(entries: &[LogEntry]) -> Vec<String> {
    entries
        .iter()
        .map(|e| match &e.event {
            Event::SuspiciousUserAgent { pattern, .. } => pattern.clone(),
            Event::SuspiciousUrl { pattern, .. } => pattern.clone(),
            other => panic!("unexpected event {:?}", other),
        })
        .collect()
}

#[test]
fn standard_rules() {
    let scanner = ThreatScanner::standard();
    assert_eq!(
        scanner.agent_patterns,
        vec!["sqlmap", "nikto", "nmap", "masscan", "zap", "burp", "scanner", "crawler", "bot", "spider"]
    );
    assert_eq!(
        scanner.uri_patterns,
        vec![
            "..",
            "%2e%2e",
            "/etc/passwd",
            "/proc/self",
            "<script",
            "javascript:",
            "eval(",
            "alert(",
            "union select",
            "drop table",
            "insert into"
        ]
    );
    assert_eq!(scanner.max_header_bytes, 8192);
}

#[test]
fn custom_rules() {
    let scanner = ThreatScanner::new(vec!["evil".to_string()], vec!["/admin".to_string()], 10);
    let found = scanner.detect_suspicious_activity(
        &headers(&[("user-agent", "EvilBot")]),
        "/Admin/panel",
        "GET",
        "c",
    );
    assert_eq!(found.len(), 3);
    assert_eq!(
        found[0].event,
        Event::SuspiciousUserAgent { user_agent: "EvilBot".to_string(), pattern: "evil".to_string() }
    );
    assert_eq!(
        found[1].event,
        Event::SuspiciousUrl {
            uri: "/Admin/panel".to_string(),
            pattern: "/admin".to_string(),
            method: "GET".to_string(),
        }
    );
    assert_eq!(found[2].event, Event::LargeHeaders { header_size_bytes: 17 });
}

#[test]
fn user_agent_is_matched_without_regard_to_case() {
    let scanner = ThreatScanner::standard();
    let found = scanner.detect_suspicious_activity(
        &headers(&[("user-agent", "SQLMap/1.7 (NMAP)")]),
        "/",
        "GET",
        "c",
    );
    assert_eq!(patterns(&found), vec!["sqlmap", "nmap"]);
    assert!(found.iter().all(|e| e.correlation_id == "c"));
    assert_eq!(found[0].event.level(), Level::Warn);
    assert_eq!(found[0].event.message(), "Suspicious user agent detected");
    match &found[0].event {
        Event::SuspiciousUserAgent { user_agent, .. } => assert_eq!(user_agent, "SQLMap/1.7 (NMAP)"),
        other => panic!("unexpected event {:?}", other),
    }
}

#[test]
fn one_entry_for_each_matching_pattern() {
    let scanner = ThreatScanner::standard();
    let found = scanner.scan_user_agent("c", "Scanner-Bot spider", "scanner-bot spider");
    assert_eq!(patterns(&found), vec!["scanner", "bot", "spider"]);
}

#[test]
fn scan_user_agent_looks_in_the_lowered_text_only() {
    let scanner = ThreatScanner::standard();
    assert_eq!(scanner.scan_user_agent("c", "nikto", "harmless").len(), 0);
    assert_eq!(patterns(&scanner.scan_user_agent("c", "harmless", "nikto")), vec!["nikto"]);
}

#[test]
fn upper_case_patterns_never_match() {
    let scanner = ThreatScanner::new(vec!["BOT".to_string()], vec![], 8192);
    let found = scanner.detect_suspicious_activity(&headers(&[("user-agent", "BOT bot")]), "/", "GET", "c");
    assert_eq!(found.len(), 0);
}

#[test]
fn harmless_request_raises_nothing() {
    let scanner = ThreatScanner::standard();
    let found = scanner.detect_suspicious_activity(
        &headers(&[("user-agent", "Mozilla/5.0"), ("accept", "*/*")]),
        "/api/users?page=1",
        "GET",
        "c",
    );
    assert_eq!(found, vec![]);
}

#[test]
fn request_without_user_agent_is_scanned_for_the_rest() {
    let scanner = ThreatScanner::standard();
    let found = scanner.detect_suspicious_activity(&HeaderMap::new(), "/a/../b", "GET", "c");
    assert_eq!(patterns(&found), vec![".."]);
}

#[test]
fn uri_markers_are_found() {
    let scanner = ThreatScanner::standard();
    for (uri, expected) in [
        ("/files/../../etc/passwd", vec!["..", "/etc/passwd"]),
        ("/x?q=%2E%2E%2Fsecret", vec!["%2e%2e"]),
        ("/proc/self/environ", vec!["/proc/self"]),
        ("/s?q=<SCRIPT>alert(1)</script>", vec!["<script", "alert("]),
        ("/r?u=JavaScript:void(0)", vec!["javascript:"]),
        ("/e?x=eval(1)", vec!["eval("]),
        ("/q?s=1 UNION SELECT 2", vec!["union select"]),
        ("/q?s=;Drop Table users", vec!["drop table"]),
        ("/q?s=insert into t", vec!["insert into"]),
    ] {
        let found = scanner.scan_uri("c", uri, &uri.to_lowercase(), "GET");
        assert_eq!(patterns(&found), expected, "uri {}", uri);
    }
}

#[test]
fn uri_entry_names_uri_pattern_and_method() {
    let scanner = ThreatScanner::standard();
    let found = scanner.detect_suspicious_activity(&HeaderMap::new(), "/A/../b", "DELETE", "cid");
    assert_eq!(
        found,
        vec![LogEntry {
            correlation_id: "cid".to_string(),
            event: Event::SuspiciousUrl {
                uri: "/A/../b".to_string(),
                pattern: "..".to_string(),
                method: "DELETE".to_string(),
            },
        }]
    );
    assert_eq!(found[0].event.level(), Level::Warn);
    assert_eq!(found[0].event.message(), "Suspicious URL pattern detected");
}

#[test]
fn header_size_sums_names_and_values() {
    assert_eq!(header_size(&HeaderMap::new()), 0);
    assert_eq!(header_size(&headers(&[("a", "bc")])), 3);
    assert_eq!(header_size(&headers(&[("accept", "*/*"), ("accept", "text/html"), ("x", "")])), 6 + 3 + 6 + 9 + 1);
}

#[test]
fn large_headers_threshold() {
    let scanner = ThreatScanner::standard();
    let at = |value_len: usize| {
        let value = "v".repeat(value_len);
        scanner.detect_suspicious_activity(&headers(&[("x-pad", &value)]), "/", "GET", "c")
    };
    assert_eq!(at(8192 - 5), vec![]);
    let over = at(8192 - 4);
    assert_eq!(over.len(), 1);
    assert_eq!(over[0].event, Event::LargeHeaders { header_size_bytes: 8193 });
    assert_eq!(over[0].event.level(), Level::Warn);
    assert_eq!(over[0].event.message(), "Unusually large headers detected");
    assert_eq!(scanner.check_header_size("c", 8192), vec![]);
    assert_eq!(scanner.check_header_size("c", usize::MAX).len(), 1);
}

#[test]
fn findings_come_in_order_agent_uri_size() {
    let scanner = ThreatScanner::standard();
    let pad = "p".repeat(9000);
    let found = scanner.detect_suspicious_activity(
        &headers(&[("user-agent", "nikto"), ("x-pad", &pad)]),
        "/../x",
        "GET",
        "c",
    );
    assert_eq!(found.len(), 3);
    assert!(matches!(found[0].event, Event::SuspiciousUserAgent { .. }));
    assert!(matches!(found[1].event, Event::SuspiciousUrl { .. }));
    assert!(matches!(found[2].event, Event::LargeHeaders { .. }));
}

#[test]
fn first_segment_stops_at_the_separator() {
    assert_eq!(first_segment("a,b,c", ','), "a");
    assert_eq!(first_segment("abc", ','), "abc");
    assert_eq!(first_segment(",abc", ','), "");
    assert_eq!(first_segment("", ','), "");
    assert_eq!(first_segment("a;b,c", ';'), "a");
}

#[test]
fn forwarded_address_is_the_first_token_trimmed() {
    assert_eq!(first_forwarded_address("203.0.113.7, 10.0.0.1, 10.0.0.2"), "203.0.113.7");
    assert_eq!(first_forwarded_address("  203.0.113.7\t,10.0.0.1"), "203.0.113.7");
    assert_eq!(first_forwarded_address("203.0.113.7"), "203.0.113.7");
    assert_eq!(first_forwarded_address(" , 10.0.0.1"), "");
    assert_eq!(first_forwarded_address(""), "");
}

fn is_white_space(c: char) -> bool {
    matches!(
        c as u32,
        0x09..=0x0D
            | 0x20
            | 0x85
            | 0xA0
            | 0x1680
            | 0x2000..=0x200A
            | 0x2028
            | 0x2029
            | 0x202F
            | 0x205F
            | 0x3000
    )
}

#[test]
fn white_space_around_the_address_is_every_unicode_white_space() {
    for code in 0..=0x10FFFFu32 {
        let c = match char::from_u32(code) {
            Some(c) if c != ',' => c,
            _ => continue,
        };
        let padded = format!("{}1.2.3.4{}", c, c);
        let expected = if is_white_space(c) { "1.2.3.4".to_string() } else { padded.clone() };
        assert_eq!(first_forwarded_address(&padded), expected, "U+{:04X}", code);
    }
}

#[test]
fn white_space_inside_the_address_stays() {
    assert_eq!(first_forwarded_address(" \t1.2 .3\u{2003}.4\u{3000}\n,x"), "1.2 .3\u{2003}.4");
    assert_eq!(first_forwarded_address("\u{200B}1.2.3.4\u{FEFF}"), "\u{200B}1.2.3.4\u{FEFF}");
    assert_eq!(first_forwarded_address(" \u{85}\u{A0}\u{1680}\u{2028}\u{2029}\u{202F}\u{205F} "), "");
}

#[test]
fn client_ip_headers_in_priority_order() {
    assert_eq!(
        client_ip_headers(),
        vec!["x-forwarded-for", "x-real-ip", "cf-connecting-ip", "x-client-ip", "x-forwarded"]
    );
}

#[test]
fn client_ip_follows_the_priority_of_headers() {
    assert_eq!(get_client_ip(&HeaderMap::new()), None);
    assert_eq!(get_client_ip(&headers(&[("x-forwarded", "f")])), Some("f".to_string()));
    assert_eq!(
        get_client_ip(&headers(&[("x-forwarded", "f"), ("x-client-ip", "c")])),
        Some("c".to_string())
    );
    assert_eq!(
        get_client_ip(&headers(&[("x-client-ip", "c"), ("cf-connecting-ip", "cf")])),
        Some("cf".to_string())
    );
    assert_eq!(
        get_client_ip(&headers(&[("cf-connecting-ip", "cf"), ("x-real-ip", "r")])),
        Some("r".to_string())
    );
    assert_eq!(
        get_client_ip(&headers(&[("x-real-ip", "r"), ("x-forwarded-for", " 1.2.3.4 , 5.6.7.8")])),
        Some("1.2.3.4".to_string())
    );
}

#[test]
fn client_ip_skips_a_header_that_is_not_text() {
    let mut map = HeaderMap::new();
    map.insert("x-forwarded-for", HeaderValue::from_bytes(b"\xff\xfe").unwrap());
    map.insert("x-real-ip", HeaderValue::from_static("9.9.9.9"));
    assert_eq!(get_client_ip(&map), Some("9.9.9.9".to_string()));
}

#[test]
fn authentication_failure_is_reported_for_401_only() {
    let map = headers(&[("user-agent", "curl/8"), ("x-forwarded-for", "1.2.3.4, 5.6.7.8")]);
    let entry = authentication_failure_entry(&map, "c", "GET", "/private", 401).unwrap();
    assert_eq!(
        entry,
        LogEntry {
            correlation_id: "c".to_string(),
            event: Event::AuthenticationFailed {
                method: "GET".to_string(),
                uri: "/private".to_string(),
                user_agent: Some("curl/8".to_string()),
                ip_address: Some("1.2.3.4".to_string()),
            },
        }
    );
    assert_eq!(entry.event.level(), Level::Warn);
    assert_eq!(entry.event.message(), "Authentication failed");
    for status in [200, 400, 403, 500] {
        assert_eq!(authentication_failure_entry(&map, "c", "GET", "/private", status), None);
    }
    let bare = authentication_failure_entry(&HeaderMap::new(), "c", "GET", "/p", 401).unwrap();
    assert_eq!(
        bare.event,
        Event::AuthenticationFailed {
            method: "GET".to_string(),
            uri: "/p".to_string(),
            user_agent: None,
            ip_address: None,
        }
    );
}
