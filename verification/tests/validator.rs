use minicurl::validator::{validate_url, complaint_of, UrlFault, UrlFaultKind};

const BASE: &str = "The URL does not have a valid base protocol.";

fn fault(kind: UrlFaultKind, detail: &str) -> Result<String, UrlFault> {
    Err(UrlFault { kind, detail: detail.to_string() })
}

#[test]
fn web_urls_draw_no_complaint() {
    for raw in [
        "http://example.com",
        "https://example.com",
        "https://example.com:8443/a/b?c=d#e",
        "http://127.0.0.1:8080/",
        "http://[::1]/",
        "HTTP://EXAMPLE.COM/",
        "  https://example.com  ",
    ] {
        assert_eq!(validate_url(raw), None, "{:?}", raw);
    }
}

#[test]
fn missing_scheme_draws_base_protocol_complaint() {
    for raw in ["example.com", "www.example.com/path", "", "/just/a/path", "//example.com", "1http://x"] {
        assert_eq!(validate_url(raw).as_deref(), Some(BASE), "{:?}", raw);
    }
}

#[test]
fn other_schemes_draw_base_protocol_complaint() {
    for raw in ["ftp://example.com", "file:///tmp/x", "mailto:someone@example.com", "data:text/plain,hi", "ws://example.com"] {
        assert_eq!(validate_url(raw).as_deref(), Some(BASE), "{:?}", raw);
    }
}

#[test]
fn invalid_ipv4_address_is_named() {
    assert_eq!(
        validate_url("http://256.256.256.256").as_deref(),
        Some("The URL contains an invalid IPv4 address.")
    );
}

#[test]
fn invalid_ipv6_address_is_named() {
    assert_eq!(
        validate_url("http://[::zz]/").as_deref(),
        Some("The URL contains an invalid IPv6 address.")
    );
}

#[test]
fn invalid_port_is_named() {
    assert_eq!(
        validate_url("http://example.com:99999").as_deref(),
        Some("The URL contains an invalid port number.")
    );
}

#[test]
fn other_failures_are_told_in_the_parsers_words() {
    assert_eq!(validate_url("http://").as_deref(), Some("empty host"));
    assert_eq!(
        validate_url("https://exa mple.com").as_deref(),
        Some("invalid international domain name")
    );
}

#[test]
fn complaint_follows_the_reading() {
    assert_eq!(complaint_of(&Ok("http".to_string())), None);
    assert_eq!(complaint_of(&Ok("https".to_string())), None);
    assert_eq!(complaint_of(&Ok("HTTP".to_string())).as_deref(), Some(BASE));
    assert_eq!(complaint_of(&Ok("httpx".to_string())).as_deref(), Some(BASE));
    assert_eq!(complaint_of(&Ok(String::new())).as_deref(), Some(BASE));
    for kind in [
        UrlFaultKind::RelativeUrlWithoutBase,
        UrlFaultKind::RelativeUrlWithCannotBeABaseBase,
        UrlFaultKind::SetHostOnCannotBeABaseUrl,
    ] {
        assert_eq!(complaint_of(&fault(kind, "words")).as_deref(), Some(BASE));
    }
    assert_eq!(
        complaint_of(&fault(UrlFaultKind::InvalidIpv4Address, "words")).as_deref(),
        Some("The URL contains an invalid IPv4 address.")
    );
    assert_eq!(
        complaint_of(&fault(UrlFaultKind::InvalidIpv6Address, "words")).as_deref(),
        Some("The URL contains an invalid IPv6 address.")
    );
    assert_eq!(
        complaint_of(&fault(UrlFaultKind::InvalidPort, "words")).as_deref(),
        Some("The URL contains an invalid port number.")
    );
    assert_eq!(complaint_of(&fault(UrlFaultKind::Other, "words")).as_deref(), Some("words"));
}
