use minicurl::method::Method;
use minicurl::request::{make_request, make_request_with, Request, RequestSpec, UsageError};

fn spec(url: &str, method: Method, data: Option<&str>, json: Option<&str>) -> RequestSpec {
    RequestSpec {
        url: url.to_string(),
        method,
        form_data: data.map(|d| d.to_string()),
        json_body: json.map(|j| j.to_string()),
    }
}

#[test]
fn get_carries_nothing() {
    let s = spec("http://example.com", Method::GET, None, None);
    assert!(matches!(make_request(&s), Ok(Request::Get { url }) if url == "http://example.com"));
    let with_data = spec("http://example.com", Method::GET, Some("a=1"), None);
    assert!(matches!(make_request(&with_data), Ok(Request::Get { url }) if url == "http://example.com"));
}

#[test]
fn post_carries_the_form_data() {
    let s = spec("http://example.com/form", Method::POST, Some("a=1&bogus&b=2"), None);
    match make_request(&s) {
        Ok(Request::PostForm { url, params }) => {
            assert_eq!(url, "http://example.com/form");
            assert_eq!(params.len(), 2);
            assert_eq!(params.get("a").map(|v| v.as_str()), Some("1"));
            assert_eq!(params.get("b").map(|v| v.as_str()), Some("2"));
        }
        other => panic!("{:?}", other),
    }
}

#[test]
fn post_without_form_data_is_refused() {
    let s = spec("http://example.com", Method::POST, None, None);
    assert!(matches!(make_request(&s), Err(UsageError::MissingData)));
}

#[test]
fn json_always_selects_post() {
    for method in [Method::GET, Method::POST] {
        for data in [None, Some("a=1")] {
            let s = spec("http://example.com", method, data, Some("{\"x\":1}"));
            assert_eq!(s.effective_method(), Method::POST);
            match make_request(&s) {
                Ok(Request::PostJson { url, json }) => {
                    assert_eq!(url, "http://example.com");
                    assert_eq!(json, "{\"x\":1}");
                }
                other => panic!("{:?}", other),
            }
        }
    }
}

#[test]
fn invalid_json_is_refused() {
    for json in ["{x:1}", "", "{\"x\":1", "[1,2,]", "{\"x\":1} trailing", "nul"] {
        for method in [Method::GET, Method::POST] {
            let s = spec("http://example.com", method, Some("a=1"), Some(json));
            assert!(matches!(make_request(&s), Err(UsageError::InvalidJson)), "{:?}", json);
            assert!(!s.json_body_is_json());
        }
    }
}

#[test]
fn any_json_document_is_accepted() {
    for json in ["{}", "[]", "null", "true", "12.5e3", "\"text\"", " {\"a\": [1, {\"b\": null}]} "] {
        let s = spec("http://example.com", Method::GET, None, Some(json));
        assert!(s.json_body_is_json(), "{:?}", json);
        assert!(matches!(make_request(&s), Ok(Request::PostJson { json: j, .. }) if j == json));
    }
}

#[test]
fn the_verdict_on_the_json_decides() {
    let s = spec("http://example.com", Method::GET, None, Some("{}"));
    assert!(matches!(make_request_with(&s, true), Ok(Request::PostJson { .. })));
    assert!(matches!(make_request_with(&s, false), Err(UsageError::InvalidJson)));
    let plain = spec("http://example.com", Method::GET, None, None);
    assert!(matches!(make_request_with(&plain, true), Ok(Request::Get { .. })));
    assert!(matches!(make_request_with(&plain, false), Ok(Request::Get { .. })));
}

#[test]
fn effective_method_without_json_is_the_one_asked_for() {
    assert_eq!(spec("u", Method::GET, None, None).effective_method(), Method::GET);
    assert_eq!(spec("u", Method::POST, Some("a=1"), None).effective_method(), Method::POST);
}

#[test]
fn announcement_names_url_and_method() {
    let s = spec("http://example.com", Method::GET, None, None);
    assert_eq!(s.announcement(), vec!["Requesting URL: http://example.com", "Method: GET"]);
}

#[test]
fn announcement_shows_form_data() {
    let s = spec("http://example.com", Method::POST, Some("a=1&b=2"), None);
    assert_eq!(
        s.announcement(),
        vec!["Requesting URL: http://example.com", "Method: POST", "Data: a=1&b=2"]
    );
    let get = spec("http://example.com", Method::GET, Some("a=1"), None);
    assert_eq!(
        get.announcement(),
        vec!["Requesting URL: http://example.com", "Method: GET", "Data: a=1"]
    );
}

#[test]
fn announcement_shows_json_and_post() {
    let s = spec("http://example.com", Method::GET, Some("a=1"), Some("{\"x\":1}"));
    assert_eq!(
        s.announcement(),
        vec!["Requesting URL: http://example.com", "Method: POST", "JSON: {\"x\":1}"]
    );
    let invalid = spec("nowhere", Method::GET, None, Some("{oops"));
    assert_eq!(invalid.announcement(), vec!["Requesting URL: nowhere", "Method: POST", "JSON: {oops"]);
}

#[test]
fn usage_errors_have_their_text() {
    assert_eq!(UsageError::InvalidJson.to_string(), "Invalid JSON");
    assert_eq!(UsageError::MissingData.to_string(), "POST requires form data");
}
