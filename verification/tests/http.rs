use compute_static::http::{Headers, IpAddress, Request, Response, TransportError, Url};

fn headers(entries: &[(&str, &str)]) -> Headers {
    let mut headers = Headers::new();
    for (name, value) in entries {
        headers.append(name, value);
    }
    headers
}

fn entries(headers: &Headers) -> Vec<(&str, &str)> {
    headers.entries.iter().map(|(name, value)| (name.as_str(), value.as_str())).collect()
}

fn url(path: &str, query: Option<&str>) -> Url {
    Url {
        scheme: "https".to_string(),
        authority: "static.example.org".to_string(),
        path: path.to_string(),
        query: query.map(|q| q.to_string()),
    }
}

#[test]
fn new_header_list_is_empty() {
    let headers = Headers::new();
    assert!(headers.entries.is_empty());
    assert_eq!(headers.get("Origin"), None);
    assert!(!headers.contains("Origin"));
}

#[test]
fn append_keeps_order_and_duplicates() {
    let list = headers(&[("Set-Cookie", "a=1"), ("Vary", "Origin"), ("Set-Cookie", "b=2")]);
    assert_eq!(
        entries(&list),
        vec![("Set-Cookie", "a=1"), ("Vary", "Origin"), ("Set-Cookie", "b=2")]
    );
}

#[test]
fn get_finds_the_first_value_of_a_name() {
    let list = headers(&[("Accept", "text/html"), ("accept", "*/*")]);
    assert_eq!(list.get("Accept").map(|v| v.as_str()), Some("text/html"));
    assert_eq!(list.get("ACCEPT").map(|v| v.as_str()), Some("text/html"));
}

#[test]
fn get_ignores_the_case_of_the_name() {
    let list = headers(&[("origin", "https://example.com")]);
    assert_eq!(list.get("Origin").map(|v| v.as_str()), Some("https://example.com"));
    assert!(list.contains("ORIGIN"));
    assert!(!list.contains("Origins"));
}

#[test]
fn set_replaces_every_value_of_the_name() {
    let mut list = headers(&[("X-A", "1"), ("Vary", "Origin"), ("x-a", "2")]);
    list.set("X-a", "3");
    assert_eq!(entries(&list), vec![("Vary", "Origin"), ("X-a", "3")]);
}

#[test]
fn set_on_an_absent_name_appends() {
    let mut list = headers(&[("Vary", "Origin")]);
    list.set("Location", "https://example.com/");
    assert_eq!(entries(&list), vec![("Vary", "Origin"), ("Location", "https://example.com/")]);
}

#[test]
fn cloned_headers_are_equal() {
    let list = headers(&[("A", "1"), ("B", "2")]);
    assert_eq!(list.clone(), list);
}

#[test]
fn url_text_without_query() {
    assert_eq!(
        url("/crates/a/a-1.0.0.crate", None).as_text(),
        "https://static.example.org/crates/a/a-1.0.0.crate"
    );
}

#[test]
fn url_text_with_query() {
    assert_eq!(url("/x", Some("a=1&b=2")).as_text(), "https://static.example.org/x?a=1&b=2");
}

#[test]
fn url_text_with_empty_query_keeps_the_question_mark() {
    assert_eq!(url("/x", Some("")).as_text(), "https://static.example.org/x?");
}

#[test]
fn url_text_with_port() {
    let url = Url {
        scheme: "http".to_string(),
        authority: "localhost:7676".to_string(),
        path: "/".to_string(),
        query: None,
    };
    assert_eq!(url.as_text(), "http://localhost:7676/");
}

#[test]
fn clone_without_body_drops_only_the_body() {
    let request = Request {
        method: "POST".to_string(),
        url: url("/x", Some("q")),
        client_ip: Some(IpAddress::V4(0x7f00_0001)),
        headers: headers(&[("Hello", "world!")]),
        ttl: Some(60),
        body: Some(b"hello".to_vec()),
    };
    let copy = request.clone_without_body();
    assert_eq!(copy.method, "POST");
    assert_eq!(copy.url, request.url);
    assert_eq!(copy.client_ip, Some(IpAddress::V4(0x7f00_0001)));
    assert_eq!(copy.headers, request.headers);
    assert_eq!(copy.ttl, Some(60));
    assert_eq!(copy.body, None);
    assert_eq!(request.body, Some(b"hello".to_vec()));
}

#[test]
fn cloned_request_keeps_the_body() {
    let request = Request {
        method: "PUT".to_string(),
        url: url("/x", None),
        client_ip: Some(IpAddress::V6(1)),
        headers: Headers::new(),
        ttl: None,
        body: Some(vec![1, 2, 3]),
    };
    assert_eq!(request.clone(), request);
}

#[test]
fn response_from_body_has_status_200_and_the_text() {
    let response = Response::from_body("Method not allowed");
    assert_eq!(response.status, 200);
    assert!(response.headers.entries.is_empty());
    assert_eq!(response.content_length, None);
    assert_eq!(response.body, b"Method not allowed".to_vec());
}

#[test]
fn response_body_is_utf8() {
    let response = Response::from_body("é");
    assert_eq!(response.body, vec![0xc3, 0xa9]);
}

#[test]
fn with_status_changes_only_the_status() {
    let response = Response::from_body("x").with_status(401);
    assert_eq!(response.status, 401);
    assert_eq!(response.body, b"x".to_vec());
    assert!(response.headers.entries.is_empty());
    assert_eq!(response.content_length, None);
}

#[test]
fn temporary_redirect_is_307_with_location() {
    let response = Response::temporary_redirect("https://www.fastly.com");
    assert_eq!(response.status, 307);
    assert_eq!(
        response.headers.get("Location").map(|v| v.as_str()),
        Some("https://www.fastly.com")
    );
    assert_eq!(response.headers.entries.len(), 1);
    assert!(response.body.is_empty());
    assert_eq!(response.content_length, None);
}

#[test]
fn set_header_on_a_response_leaves_the_rest() {
    let mut response = Response {
        status: 200,
        headers: headers(&[("Content-Length", "3"), ("etag", "\"a\"")]),
        content_length: Some(3),
        body: b"abc".to_vec(),
    };
    response.set_header("ETag", "\"b\"");
    assert_eq!(response.status, 200);
    assert_eq!(response.content_length, Some(3));
    assert_eq!(response.body, b"abc".to_vec());
    assert_eq!(entries(&response.headers), vec![("Content-Length", "3"), ("ETag", "\"b\"")]);
}

#[test]
fn cloned_response_and_error_are_equal() {
    let response = Response::temporary_redirect("https://example.com/");
    assert_eq!(response.clone(), response);
    let error = TransportError { message: "connection refused".to_string() };
    assert_eq!(error.clone(), error);
}
