use minicurl::method::Method;
use minicurl::request::{Request, RequestSpec, UsageError};
use minicurl::response::{ResponseOutcome, TransportKind};
use minicurl::session::{conclude, prepare, prepare_with};
use minicurl::validator::{UrlFault, UrlFaultKind};

fn spec(url: &str, method: Method, data: Option<&str>, json: Option<&str>) -> RequestSpec {
    RequestSpec {
        url: url.to_string(),
        method,
        form_data: data.map(|d| d.to_string()),
        json_body: json.map(|j| j.to_string()),
    }
}

#[test]
fn a_plain_get_is_announced_and_planned() {
    let opening = prepare(&spec("https://example.com/x", Method::GET, None, None));
    assert_eq!(opening.lines, vec!["Requesting URL: https://example.com/x", "Method: GET"]);
    assert!(opening.url_accepted);
    assert!(matches!(opening.request, Ok(Request::Get { ref url }) if url == "https://example.com/x"));
}

#[test]
fn a_complaint_is_shown_and_the_request_still_planned() {
    let opening = prepare(&spec("example.com", Method::POST, Some("a=1"), None));
    assert_eq!(
        opening.lines,
        vec![
            "Requesting URL: example.com",
            "Method: POST",
            "Data: a=1",
            "Error: The URL does not have a valid base protocol.",
        ]
    );
    assert!(!opening.url_accepted);
    assert!(matches!(opening.request, Ok(Request::PostForm { ref url, .. }) if url == "example.com"));
}

#[test]
fn other_parse_failures_are_shown_in_the_parsers_words() {
    let opening = prepare(&spec("http://", Method::GET, None, None));
    assert_eq!(opening.lines, vec!["Requesting URL: http://", "Method: GET", "Error: empty host"]);
    assert!(!opening.url_accepted);
}

#[test]
fn invalid_json_ends_the_run_after_the_announcement() {
    let opening = prepare(&spec("http://example.com", Method::GET, None, Some("{oops")));
    assert_eq!(
        opening.lines,
        vec!["Requesting URL: http://example.com", "Method: POST", "JSON: {oops"]
    );
    assert!(opening.url_accepted);
    assert!(matches!(opening.request, Err(UsageError::InvalidJson)));
}

#[test]
fn post_without_data_ends_the_run() {
    let opening = prepare(&spec("http://example.com", Method::POST, None, None));
    assert_eq!(opening.lines, vec!["Requesting URL: http://example.com", "Method: POST"]);
    assert!(matches!(opening.request, Err(UsageError::MissingData)));
}

#[test]
fn the_opening_follows_the_given_reading() {
    let s = spec("anything", Method::GET, None, Some("{}"));
    let port = Err(UrlFault { kind: UrlFaultKind::InvalidPort, detail: "invalid port number".to_string() });
    let opening = prepare_with(&s, &port, true);
    assert_eq!(
        opening.lines,
        vec![
            "Requesting URL: anything",
            "Method: POST",
            "JSON: {}",
            "Error: The URL contains an invalid port number.",
        ]
    );
    assert!(!opening.url_accepted);
    assert!(matches!(opening.request, Ok(Request::PostJson { .. })));
    let fine = prepare_with(&s, &Ok("https".to_string()), false);
    assert_eq!(fine.lines, vec!["Requesting URL: anything", "Method: POST", "JSON: {}"]);
    assert!(fine.url_accepted);
    assert!(matches!(fine.request, Err(UsageError::InvalidJson)));
}

#[test]
fn a_success_closes_with_status_zero() {
    let closing = conclude(true, &ResponseOutcome::received(200, "{\"b\":2,\"a\":1}".to_string()));
    assert_eq!(
        closing.lines,
        vec!["Response body (JSON with sorted keys):", "{\n  \"a\": 1,\n  \"b\": 2\n}"]
    );
    assert_eq!(closing.exit_code, 0);
}

#[test]
fn a_failure_closes_with_status_one() {
    let not_found = conclude(true, &ResponseOutcome::received(404, "gone".to_string()));
    assert_eq!(not_found.lines, vec!["Error: Request failed with status code: 404."]);
    assert_eq!(not_found.exit_code, 1);
    let unreachable = conclude(true, &ResponseOutcome::TransportError(TransportKind::Connect));
    assert_eq!(unreachable.lines.len(), 1);
    assert!(unreachable.lines[0].starts_with("Error: Unable to connect to the server."));
    assert_eq!(unreachable.exit_code, 1);
}

#[test]
fn a_refused_url_spoils_the_status() {
    let closing = conclude(false, &ResponseOutcome::received(200, "hello world\n".to_string()));
    assert_eq!(closing.lines, vec!["Response body:", "hello world"]);
    assert_eq!(closing.exit_code, 1);
}
