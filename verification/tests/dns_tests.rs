use bargozin::dns::{
    single_dns_test_result, DnsTestAnswer,
    dns_servers, dns_test_plan, dns_test_result, ensure_https, ensure_https_url, invalid_domain_result,
    port_for_scheme, CheckAction, CheckEvent, HttpStatus, UrlCheck,
};

#[test]
fn server_list() {
    let s = dns_servers();
    assert_eq!(s.len(), 27);
    assert_eq!(s[0], "178.22.122.100");
    assert_eq!(s[20], "8.8.8.8");
    assert_eq!(s[26], "149.112.112.112");
}

#[test]
fn https_url_of_a_domain() {
    let u = ensure_https_url("  http://example.com ").unwrap();
    assert_eq!(u.href(), "https://example.com/");
    assert_eq!(u.scheme(), "https");
    assert_eq!(u.host(), Some("example.com"));
    let u = ensure_https_url("https://Example.ORG").unwrap();
    assert_eq!(u.href(), "https://example.org/");
    assert!(ensure_https_url("").is_none());
    assert!(ensure_https_url("bad host").is_none());
}

#[test]
fn reported_url_of_a_domain() {
    assert_eq!(ensure_https("http://Example.com/path?q=1"), "https://example.com/");
    assert_eq!(ensure_https("https://google.com"), "https://google.com/");
    assert_eq!(ensure_https("youtube.com"), "https://youtube.com/");
    assert_eq!(ensure_https("not a domain"), "https://not a domain");
    assert!(ensure_https("").starts_with("https://"));
}

#[test]
fn plan_holds_both_urls() {
    let p = dns_test_plan("http://example.com");
    assert_eq!(p.url_string, "https://example.com/");
    assert_eq!(p.url.unwrap().href(), "https://example.com/");
    let p = dns_test_plan("a b");
    assert!(p.url.is_none());
}

#[test]
fn scheme_ports() {
    assert_eq!(port_for_scheme("https"), Some(443));
    assert_eq!(port_for_scheme("http"), Some(80));
    assert_eq!(port_for_scheme("ftp"), None);
    assert_eq!(port_for_scheme("HTTPS"), None);
}

#[test]
fn check_flow_resolves_then_requests() {
    let url = ensure_https_url("example.com").unwrap();
    let (mut c, a) = UrlCheck::check_url_with_custom_dns(url, "8.8.8.8");
    match a {
        CheckAction::Resolve { nameserver, host } => {
            assert_eq!(nameserver, "8.8.8.8:53");
            assert_eq!(host, "example.com");
        }
        _ => panic!("expected a resolution"),
    }
    match c.step(CheckEvent::Resolved(true)) {
        CheckAction::Request { host, port, url } => {
            assert_eq!(host, "example.com");
            assert_eq!(port, 443);
            assert_eq!(url, "https://example.com/");
        }
        _ => panic!("expected a request"),
    }
    match c.step(CheckEvent::Responded(Some((403, "Forbidden".to_string())))) {
        CheckAction::Finish(r) => assert_eq!(r, Some((403, "Forbidden".to_string()))),
        _ => panic!("expected the end"),
    }
    assert!(c.is_done());
}

#[test]
fn check_flow_without_address() {
    let url = ensure_https_url("example.com").unwrap();
    let (mut c, _) = UrlCheck::check_url_with_custom_dns(url, "1.1.1.1");
    match c.step(CheckEvent::Resolved(false)) {
        CheckAction::Finish(r) => assert_eq!(r, None),
        _ => panic!("expected the end"),
    }
}

#[test]
fn results_read_the_status() {
    let r = dns_test_result("8.8.8.8".to_string(), "https://a.com/".to_string(), Some((204, "No Content".to_string())), 12);
    assert!(r.status);
    assert!(r.error_message.is_none());
    assert!(matches!(r.http_status, HttpStatus::Success));
    assert_eq!(r.response_time, Some(12));
    assert_eq!(r.session_id, 0);
    assert_eq!(r.test_url, Some("https://a.com/".to_string()));

    let r = dns_test_result("8.8.8.8".to_string(), "u".to_string(), Some((403, "Forbidden".to_string())), 5);
    assert!(!r.status);
    assert_eq!(r.error_message, Some("HTTP 403 - Forbidden".to_string()));
    assert!(matches!(r.http_status, HttpStatus::Forbidden403));

    let r = dns_test_result("8.8.8.8".to_string(), "u".to_string(), Some((300, "Multiple Choices".to_string())), 5);
    assert!(!r.status);
    assert!(matches!(r.http_status, HttpStatus::Other(300)));
    assert_eq!(r.error_message, Some("HTTP 300 - Multiple Choices".to_string()));

    let r = dns_test_result("1.1.1.1".to_string(), "u".to_string(), None, 7);
    assert!(!r.status);
    assert_eq!(r.error_message, Some("DNS resolution or HTTP request failed".to_string()));
    match r.http_status {
        HttpStatus::Failed(m) => assert_eq!(m, "Connection failed"),
        _ => panic!("expected a failure"),
    }

    let r = invalid_domain_result("1.1.1.1".to_string(), "https://a b".to_string(), 0);
    assert!(!r.status);
    assert_eq!(r.error_message, Some("Invalid domain format".to_string()));
    match r.http_status {
        HttpStatus::Failed(m) => assert_eq!(m, "Invalid domain"),
        _ => panic!("expected a failure"),
    }
}

#[test]
fn normalising_twice_is_normalising_once() {
    for d in ["http://Example.com/path?q=1", "youtube.com", "not a domain", "", "https://user@host:8080/x", "http://https://x.org"] {
        let once = ensure_https(d);
        assert_eq!(ensure_https(&once), once);
    }
}

#[test]
fn single_result_follows_the_answer() {
    let r = single_dns_test_result("1.1.1.1".to_string(), "https://x y".to_string(), DnsTestAnswer::InvalidDomain, 3);
    assert!(!r.status);
    assert_eq!(r.error_message.as_deref(), Some("Invalid domain format"));
    let r = single_dns_test_result(
        "1.1.1.1".to_string(),
        "https://a.com/".to_string(),
        DnsTestAnswer::Checked(Some((404, "Not Found".to_string()))),
        7,
    );
    assert!(!r.status);
    assert_eq!(r.error_message.as_deref(), Some("HTTP 404 - Not Found"));
    assert_eq!(r.response_time, Some(7));
    let r = single_dns_test_result(
        "1.1.1.1".to_string(),
        "https://a.com/".to_string(),
        DnsTestAnswer::Checked(Some((204, "No Content".to_string()))),
        7,
    );
    assert!(r.status);
    assert!(r.error_message.is_none());
}
