use linkcheck::fetch::{build_url, classify, push_decimal, Probe, Signal, UrlState, STATUS_OK, TIMEOUT};
use linkcheck::syntax::{colon_led, names_scheme, scan_segment, skip_blanks};

fn pending(url: &str) -> Probe {
    Probe::from_resolution(Some(url.to_string()), "/unused")
}

#[test]
fn default_deadline_is_ten_seconds() {
    assert_eq!(TIMEOUT, 10);
    assert_eq!(STATUS_OK, 200);
}

#[test]
fn build_url_merges_a_relative_path() {
    assert_eq!(build_url("example.com", "/x"), Some("http://example.com/x".to_string()));
    assert_eq!(build_url("example.com", "a/b?q=1"), Some("http://example.com/a/b?q=1".to_string()));
    assert_eq!(build_url("example.com/dir/page", "other"), Some("http://example.com/dir/other".to_string()));
    assert_eq!(build_url("example.com/dir/page", "../up"), Some("http://example.com/up".to_string()));
    assert_eq!(build_url("example.com", ""), Some("http://example.com/".to_string()));
}

#[test]
fn build_url_lets_an_absolute_path_override_the_base() {
    assert_eq!(
        build_url("example.com", "https://other.org/p?q#f"),
        Some("https://other.org/p?q#f".to_string())
    );
    assert_eq!(build_url("example.com", "//cdn.example.net/lib.js"), Some("http://cdn.example.net/lib.js".to_string()));
}

#[test]
fn build_url_keeps_query_and_fragment_references() {
    assert_eq!(build_url("example.com/a?x=1", "?y=2"), Some("http://example.com/a?y=2".to_string()));
    assert_eq!(build_url("example.com/a?x=1", "#top"), Some("http://example.com/a?x=1#top".to_string()));
}

#[test]
fn build_url_fails_on_an_unresolvable_path() {
    assert_eq!(build_url("example.com", "http://[::1"), None);
    assert_eq!(build_url("example.com", "http://"), None);
    assert_eq!(build_url("example.com", "https://exa mple.org/"), None);
}

#[test]
fn build_url_fails_on_an_unusable_domain() {
    assert_eq!(build_url("", "/x"), None);
    assert_eq!(build_url("exa mple.com", "/x"), None);
}

#[test]
fn unresolvable_path_is_malformed_without_a_fetch() {
    let probe = Probe::begin("example.com", "://bad::url");
    assert!(probe.target().is_none());
    match probe.outcome() {
        Some(UrlState::Malformed(path)) => assert_eq!(path, "://bad::url"),
        other => panic!("expected a malformed outcome, got {:?}", other),
    }
}

#[test]
fn begin_decides_malformed_at_once() {
    let probe = Probe::begin("example.com", "http://[::1");
    assert!(probe.target().is_none());
    match probe.outcome() {
        Some(UrlState::Malformed(path)) => assert_eq!(path, "http://[::1"),
        other => panic!("expected a malformed outcome, got {:?}", other),
    }
}

#[test]
fn begin_is_pending_on_the_resolved_url() {
    let probe = Probe::begin("example.com", "/index.html");
    assert_eq!(probe.target(), Some(&"http://example.com/index.html".to_string()));
    assert!(probe.outcome().is_none());
}

#[test]
fn status_200_is_accessible_and_404_is_bad_status() {
    match pending("http://example.com/").deliver(Signal::Responded(200)).outcome() {
        Some(UrlState::Accessible(url)) => assert_eq!(url, "http://example.com/"),
        other => panic!("expected accessible, got {:?}", other),
    }
    match pending("http://example.com/").deliver(Signal::Responded(404)).outcome() {
        Some(UrlState::BadStatus(url, status)) => {
            assert_eq!(url, "http://example.com/");
            assert_eq!(status, 404);
        }
        other => panic!("expected bad status, got {:?}", other),
    }
}

#[test]
fn other_success_codes_are_bad_status() {
    for status in [201u16, 204, 299, 199, 0, 301, 500, u16::MAX] {
        match classify("http://h/".to_string(), Signal::Responded(status)) {
            UrlState::BadStatus(url, got) => {
                assert_eq!(url, "http://h/");
                assert_eq!(got, status);
            }
            other => panic!("expected bad status for {}, got {:?}", status, other),
        }
    }
}

#[test]
fn silent_transport_times_out() {
    match pending("http://example.com/slow").deliver(Signal::DeadlineElapsed).outcome() {
        Some(UrlState::TimedOut(url)) => assert_eq!(url, "http://example.com/slow"),
        other => panic!("expected timed out, got {:?}", other),
    }
}

#[test]
fn transport_failure_is_connection_failed() {
    match pending("http://nowhere.invalid/").deliver(Signal::TransportFailed).outcome() {
        Some(UrlState::ConnectionFailed(url)) => assert_eq!(url, "http://nowhere.invalid/"),
        other => panic!("expected connection failed, got {:?}", other),
    }
}

#[test]
fn first_signal_wins() {
    let probe = pending("http://example.com/")
        .deliver(Signal::DeadlineElapsed)
        .deliver(Signal::Responded(200))
        .deliver(Signal::TransportFailed);
    assert!(probe.target().is_none());
    assert!(matches!(probe.outcome(), Some(UrlState::TimedOut(_))));

    let probe = pending("http://example.com/")
        .deliver(Signal::Responded(200))
        .deliver(Signal::DeadlineElapsed);
    assert!(matches!(probe.outcome(), Some(UrlState::Accessible(_))));
}

#[test]
fn malformed_probe_ignores_signals() {
    let probe = Probe::from_resolution(None, "bad").deliver(Signal::Responded(200));
    match probe.outcome() {
        Some(UrlState::Malformed(path)) => assert_eq!(path, "bad"),
        other => panic!("expected malformed, got {:?}", other),
    }
}

#[test]
fn renderings_are_exact() {
    let url = "http://example.com/x".to_string();
    assert_eq!(UrlState::Accessible(url.clone()).render(), "!! http://example.com/x");
    assert_eq!(UrlState::BadStatus(url.clone(), 404).render(), "!! http://example.com/x (404)");
    assert_eq!(
        UrlState::ConnectionFailed(url.clone()).render(),
        "!! http://example.com/x (connection failed)"
    );
    assert_eq!(UrlState::TimedOut(url.clone()).render(), "!! http://example.com/x (timed out)");
    assert_eq!(UrlState::Malformed("://bad::url".to_string()).render(), "!! ://bad::url (malformed)");
    assert_eq!(UrlState::Malformed(String::new()).render(), "!!  (malformed)");
}

#[test]
fn decimal_numerals_are_exact() {
    for (n, text) in [(0u16, "0"), (7, "7"), (10, "10"), (200, "200"), (404, "404"), (1000, "1000"), (65535, "65535")] {
        let mut out = String::from("code ");
        push_decimal(&mut out, n);
        assert_eq!(out, format!("code {}", text));
    }
    assert_eq!(UrlState::BadStatus("u".to_string(), 0).render(), "!! u (0)");
    assert_eq!(UrlState::BadStatus("u".to_string(), 65535).render(), "!! u (65535)");
}

#[test]
fn colon_led_path_does_not_resolve() {
    assert_eq!(build_url("example.com", "://bad::url"), None);
    assert_eq!(build_url("example.com", ":80/x"), None);
    assert_eq!(build_url("example.com", "1:2"), None);
    assert_eq!(build_url("example.com", " ://x"), None);
    assert_eq!(build_url("example.com", "  https://other.org/a "), Some("https://other.org/a".to_string()));
    assert_eq!(build_url("example.com", "a/b:c"), Some("http://example.com/a/b:c".to_string()));
    assert_eq!(build_url("example.com", "?k=a:b"), Some("http://example.com/?k=a:b".to_string()));
    assert_eq!(build_url("example.com", "#a:b"), Some("http://example.com/#a:b".to_string()));
}

#[test]
fn domain_with_its_own_scheme_keeps_it() {
    assert_eq!(build_url("https://example.com", "/x"), Some("https://example.com/x".to_string()));
    assert_eq!(build_url("example.com:8080", "/x"), Some("http://example.com:8080/x".to_string()));
    assert_eq!(build_url("localhost:3000/a/", "b"), Some("http://localhost:3000/a/b".to_string()));
}

#[test]
fn scheme_is_recognized_by_its_syntax() {
    assert!(names_scheme("https://example.com"));
    assert!(names_scheme("a+b-c.9://x"));
    assert!(names_scheme("x://"));
    assert!(!names_scheme("example.com"));
    assert!(!names_scheme("example.com:8080"));
    assert!(!names_scheme("http:/example.com"));
    assert!(!names_scheme("http:"));
    assert!(!names_scheme("://example.com"));
    assert!(!names_scheme("9p://example.com"));
    assert!(!names_scheme("ht tp://example.com"));
    assert!(!names_scheme("a/b://c"));
    assert!(!names_scheme(""));
}

#[test]
fn colon_in_first_segment_is_recognized() {
    assert!(colon_led("://bad::url"));
    assert!(colon_led(":"));
    assert!(colon_led("1a:b"));
    assert!(colon_led("a b:c"));
    assert!(colon_led(" \t://x"));
    assert!(!colon_led(" \n http://example.com"));
    assert!(!colon_led("   "));
    assert!(colon_led("\u{e9}:x"));
    assert!(!colon_led("http://example.com"));
    assert!(!colon_led("mailto:someone"));
    assert!(!colon_led("a/b:c"));
    assert!(!colon_led("/a:b"));
    assert!(!colon_led("?a:b"));
    assert!(!colon_led("#a:b"));
    assert!(!colon_led("plain"));
    assert!(!colon_led(""));
}

#[test]
fn first_segment_is_scanned_by_characters() {
    assert_eq!(scan_segment("", 0), (0, false));
    assert_eq!(scan_segment("http://x", 0), (4, true));
    assert_eq!(scan_segment("http://x", 4), (4, false));
    assert_eq!(scan_segment("http://x", 7), (8, true));
    assert_eq!(scan_segment("http://x", 8), (8, false));
    assert_eq!(scan_segment("abc", 0), (3, true));
    assert_eq!(scan_segment("/abc", 0), (0, false));
    assert_eq!(scan_segment("4bc?x", 0), (3, false));
    assert_eq!(scan_segment("4bc?x", 1), (3, true));
    assert_eq!(scan_segment("a_c#x", 0), (3, false));
    assert_eq!(scan_segment("\u{e9}\u{e9}:x", 0), (2, false));
    assert_eq!(skip_blanks("", 0), 0);
    assert_eq!(skip_blanks(" \t\n x ", 0), 4);
    assert_eq!(skip_blanks(" \t\n x ", 5), 6);
    assert_eq!(skip_blanks("x  ", 0), 0);
    assert_eq!(skip_blanks("   ", 1), 3);
}
