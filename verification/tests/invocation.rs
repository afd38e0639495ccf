use compute_static::config::Config;
use compute_static::http::{Headers, IpAddress, Request, Response, TransportError, Url};
use compute_static::invocation::{handle, handle_at, is_purge_request, resume, Action};
use compute_static::log_line::{LogLine, LogLineV1};
use compute_static::logger::LogOutput;
use compute_static::warning::Warning;
use time::OffsetDateTime;

type Reply = Result<Response, TransportError>;

/// What an invocation came to, with the requests that it sent on the way.
struct Run {
    sent: Vec<(String, Request)>,
    warnings: Vec<Warning>,
    response: Reply,
    log: Option<LogOutput>,
}

fn settings() -> Config {
    Config {
        static_ttl: 86_400,
        primary_host: "s3-eu".to_string(),
        fallback_host: "s3-us".to_string(),
        cloudfront_url: "cloudfront-static.example.org".to_string(),
        request_logs_endpoint: "request-logs".to_string(),
        service_logs_endpoint: "service-logs".to_string(),
    }
}

fn moment() -> OffsetDateTime {
    OffsetDateTime::from_unix_timestamp(1_700_000_000).unwrap()
}

fn client_request(method: &str, path: &str, origin: Option<&str>) -> Request {
    let mut headers = Headers::new();
    headers.append("user-agent", "cargo 1.67.0");
    if let Some(origin) = origin {
        headers.append("origin", origin);
    }
    Request {
        method: method.to_string(),
        url: Url {
            scheme: "https".to_string(),
            authority: "static.example.org".to_string(),
            path: path.to_string(),
            query: None,
        },
        client_ip: Some(IpAddress::V4(0xcb00_7101)),
        headers,
        ttl: None,
        body: None,
    }
}

fn origin_response(status: u16, length: usize) -> Response {
    let mut headers = Headers::new();
    headers.append("content-length", &length.to_string());
    headers.append("etag", "\"5d41402abc4b2a76b9719d911017c592\"");
    Response { status, headers, content_length: Some(length), body: vec![b'x'; length] }
}

fn unreachable_origin(message: &str) -> Reply {
    Err(TransportError { message: message.to_string() })
}

/// Carries out the actions of an invocation, answering each request to an
/// origin with the next of `replies`.
fn carry_out(first: Action, replies: Vec<Reply>) -> Run {
    let config = settings();
    let mut replies = replies.into_iter();
    let mut sent = Vec::new();
    let mut warnings = Vec::new();
    let mut action = first;
    loop {
        match action {
            Action::Send { invocation, host, request, warning } => {
                sent.push((host, request));
                warnings.extend(warning);
                let reply = replies.next().expect("more requests than replies");
                action = resume(&config, invocation, reply);
            }
            Action::Finish { response, log } => {
                return Run { sent, warnings, response, log };
            }
        }
    }
}

fn run(request: Request, replies: Vec<Reply>) -> Run {
    carry_out(handle_at(&settings(), request, moment()), replies)
}

fn logged_line(run: &Run) -> &LogLineV1 {
    match &run.log {
        Some(LogOutput::Line { endpoint, line: LogLine::V1(line) }) => {
            assert_eq!(endpoint, "request-logs");
            line
        }
        other => panic!("expected a log line, got {:?}", other),
    }
}

fn cors_headers(response: &Response) -> Vec<Option<&str>> {
    ["Access-Control-Allow-Origin", "Access-Control-Allow-Methods", "Access-Control-Max-Age"]
        .iter()
        .map(|name| response.headers.get(name).map(|v| v.as_str()))
        .collect()
}

#[test]
fn get_without_origin_header_is_relayed_and_logged() {
    let run = run(
        client_request("GET", "/crate/1.0%2Bmeta", None),
        vec![Ok(origin_response(200, 120))],
    );
    assert_eq!(run.response, Ok(origin_response(200, 120)));
    assert_eq!(cors_headers(run.response.as_ref().unwrap()), vec![None, None, None]);
    let line = logged_line(&run);
    assert_eq!(line.method().map(|m| m.as_str()), Some("GET"));
    assert_eq!(line.status(), Some(200));
    assert_eq!(line.bytes(), Some(120));
    assert_eq!(line.url(), "https://static.example.org/crate/1.0%2Bmeta");
    assert_eq!(line.ip(), Some(IpAddress::V4(0xcb00_7101)));
    assert_eq!(line.date_time(), moment());
    assert_eq!(run.sent.len(), 1);
    assert_eq!(run.sent[0].0, "s3-eu");
    assert!(run.warnings.is_empty());
}

#[test]
fn purge_is_told_by_the_exact_method() {
    assert!(is_purge_request(&client_request("PURGE", "/", None)));
    assert!(!is_purge_request(&client_request("purge", "/", None)));
    assert!(!is_purge_request(&client_request("PURGES", "/", None)));
    assert!(!is_purge_request(&client_request("GET", "/PURGE", None)));
}

#[test]
fn purge_is_forwarded_unmodified_and_not_logged() {
    let mut request = client_request("PURGE", "/crate/1.0", Some("https://example.com"));
    request.body = Some(b"body".to_vec());
    let mut forwarded = request.clone();
    forwarded.body = None;

    let run = run(request, vec![Ok(origin_response(200, 2))]);
    assert_eq!(run.sent, vec![("s3-eu".to_string(), forwarded)]);
    assert_eq!(run.response, Ok(origin_response(200, 2)));
    assert_eq!(run.log, None);
}

#[test]
fn purge_follows_the_fallback_rule() {
    let request = client_request("PURGE", "/crate/1.0+x", None);
    let forwarded = request.clone();

    let run = run(request, vec![Ok(origin_response(500, 0)), Ok(origin_response(404, 9))]);
    assert_eq!(
        run.sent,
        vec![("s3-eu".to_string(), forwarded.clone()), ("s3-us".to_string(), forwarded)]
    );
    assert_eq!(run.response, Ok(origin_response(404, 9)));
    assert_eq!(run.log, None);
    assert_eq!(run.warnings.len(), 1);
}

#[test]
fn purge_is_not_logged_when_both_origins_fail() {
    let run = run(
        client_request("PURGE", "/crate/1.0", None),
        vec![unreachable_origin("primary down"), unreachable_origin("fallback down")],
    );
    assert_eq!(run.response, unreachable_origin("fallback down"));
    assert_eq!(run.log, None);
    assert_eq!(run.sent.len(), 2);
}

#[test]
fn purge_is_taken_up_without_the_clock() {
    let request = client_request("PURGE", "/crate/1.0", None);
    let first = handle(&settings(), request.clone());
    let with_clock = carry_out(first, vec![Ok(origin_response(200, 0))]);
    let at_moment = run(request, vec![Ok(origin_response(200, 0))]);
    assert_eq!(with_clock.sent, at_moment.sent);
    assert_eq!(with_clock.response, at_moment.response);
    assert_eq!(with_clock.log, None);
}

#[test]
fn other_methods_get_401_and_no_origin_is_asked() {
    for method in ["POST", "PUT", "DELETE", "PATCH", "OPTIONS", "get", "purge"] {
        let run = run(client_request(method, "/crates/a/a-1.0.0.crate", None), vec![]);
        assert!(run.sent.is_empty());
        let response = run.response.as_ref().unwrap();
        assert_eq!(response.status, 401);
        assert_eq!(response.body, b"Method not allowed".to_vec());
        assert!(response.headers.entries.is_empty());
        let line = logged_line(&run);
        assert_eq!(line.method().map(|m| m.as_str()), Some(method));
        assert_eq!(line.status(), Some(401));
        assert_eq!(line.bytes(), None);
    }
}

#[test]
fn rejected_request_with_origin_header_gets_cors_headers() {
    let run = run(client_request("POST", "/", Some("https://example.com")), vec![]);
    let response = run.response.as_ref().unwrap();
    assert_eq!(response.status, 401);
    assert_eq!(response.body, b"Method not allowed".to_vec());
    assert_eq!(cors_headers(response), vec![Some("*"), Some("GET"), Some("3000")]);
}

#[test]
fn plus_in_the_path_is_encoded_on_the_way_to_the_origin() {
    let run = run(
        client_request("GET", "/crates/a/a-1.0.0+b.crate", None),
        vec![Ok(origin_response(200, 3))],
    );
    let mut expected = client_request("GET", "/crates/a/a-1.0.0%2Bb.crate", None);
    expected.ttl = Some(86_400);
    assert_eq!(run.sent, vec![("s3-eu".to_string(), expected)]);
    // The log holds the URL as the client sent it.
    assert_eq!(logged_line(&run).url(), "https://static.example.org/crates/a/a-1.0.0+b.crate");
}

#[test]
fn primary_below_500_is_returned_and_fallback_is_not_asked() {
    for status in [200, 304, 403, 404, 499] {
        let run = run(
            client_request("GET", "/crates/a/a-1.0.0.crate", None),
            vec![Ok(origin_response(status, 5))],
        );
        assert_eq!(run.response, Ok(origin_response(status, 5)));
        assert_eq!(run.sent.len(), 1);
        assert_eq!(run.sent[0].0, "s3-eu");
        assert_eq!(logged_line(&run).status(), Some(status));
    }
}

#[test]
fn primary_server_error_is_answered_by_the_fallback() {
    let run = run(
        client_request("GET", "/crates/a/a-1.0.0+b.crate", None),
        vec![Ok(origin_response(502, 0)), Ok(origin_response(200, 77))],
    );
    let mut expected = client_request("GET", "/crates/a/a-1.0.0%2Bb.crate", None);
    expected.ttl = Some(86_400);
    assert_eq!(
        run.sent,
        vec![("s3-eu".to_string(), expected.clone()), ("s3-us".to_string(), expected)]
    );
    assert_eq!(run.response, Ok(origin_response(200, 77)));
    assert_eq!(
        run.warnings,
        vec![Warning {
            endpoint: "service-logs".to_string(),
            message: "Request to host s3-eu returned status code 502".to_string(),
        }]
    );
    let line = logged_line(&run);
    assert_eq!(line.status(), Some(200));
    assert_eq!(line.bytes(), Some(77));
}

#[test]
fn primary_transport_failure_is_answered_by_the_fallback() {
    let run = run(
        client_request("HEAD", "/crates/a/a-1.0.0.crate", None),
        vec![unreachable_origin("connection refused"), Ok(origin_response(200, 10))],
    );
    assert_eq!(run.sent.len(), 2);
    assert_eq!(run.sent[1].0, "s3-us");
    assert_eq!(run.response, Ok(origin_response(200, 10)));
    assert_eq!(
        run.warnings,
        vec![Warning {
            endpoint: "service-logs".to_string(),
            message: "Request to host s3-eu failed: connection refused".to_string(),
        }]
    );
}

#[test]
fn fallback_server_error_is_returned_as_it_is() {
    let run = run(
        client_request("GET", "/crates/a/a-1.0.0.crate", None),
        vec![Ok(origin_response(500, 1)), Ok(origin_response(503, 2))],
    );
    assert_eq!(run.response, Ok(origin_response(503, 2)));
    assert_eq!(run.sent.len(), 2);
    let line = logged_line(&run);
    assert_eq!(line.status(), Some(503));
    assert_eq!(line.bytes(), Some(2));
}

#[test]
fn fallback_transport_failure_is_the_result() {
    let run = run(
        client_request("GET", "/crates/a/a-1.0.0.crate", Some("https://example.com")),
        vec![Ok(origin_response(500, 1)), unreachable_origin("fallback down")],
    );
    assert_eq!(run.response, unreachable_origin("fallback down"));
    assert_eq!(run.sent.len(), 2);
    let line = logged_line(&run);
    assert_eq!(line.status(), Some(500));
    assert_eq!(line.bytes(), None);
    assert_eq!(line.method().map(|m| m.as_str()), Some("GET"));
}

#[test]
fn db_dump_is_redirected_without_asking_an_origin() {
    for path in ["/db-dump.tar.gz", "/archive/db-dump.tar.gz"] {
        let run = run(client_request("GET", path, None), vec![]);
        assert!(run.sent.is_empty());
        let response = run.response.as_ref().unwrap();
        assert_eq!(response.status, 307);
        assert_eq!(
            response.headers.get("Location").map(|v| v.as_str()),
            Some("https://cloudfront-static.example.org/db-dump.tar.gz")
        );
        assert_eq!(response.headers.entries.len(), 1);
        let line = logged_line(&run);
        assert_eq!(line.status(), Some(307));
        assert_eq!(line.bytes(), None);
    }
}

#[test]
fn db_dump_with_origin_header_keeps_its_location() {
    let run = run(client_request("HEAD", "/db-dump.tar.gz", Some("https://example.com")), vec![]);
    let response = run.response.as_ref().unwrap();
    assert_eq!(response.status, 307);
    assert_eq!(
        response.headers.get("location").map(|v| v.as_str()),
        Some("https://cloudfront-static.example.org/db-dump.tar.gz")
    );
    assert_eq!(cors_headers(response), vec![Some("*"), Some("GET"), Some("3000")]);
}

#[test]
fn origin_header_adds_the_three_cors_headers() {
    let run = run(
        client_request("GET", "/crates/a/a-1.0.0.crate", Some("https://example.com")),
        vec![Ok(origin_response(200, 4))],
    );
    let response = run.response.as_ref().unwrap();
    assert_eq!(cors_headers(response), vec![Some("*"), Some("GET"), Some("3000")]);
    assert_eq!(response.status, 200);
    assert_eq!(response.body, origin_response(200, 4).body);
    assert_eq!(response.content_length, Some(4));
    assert_eq!(response.headers.get("etag"), origin_response(200, 4).headers.get("etag"));
    assert_eq!(response.headers.entries.len(), 5);
}

#[test]
fn origin_header_is_found_whatever_its_case() {
    let mut request = client_request("GET", "/crates/a/a-1.0.0.crate", None);
    request.headers.append("ORIGIN", "https://example.com");
    let run = run(request, vec![Ok(origin_response(404, 0))]);
    assert_eq!(
        cors_headers(run.response.as_ref().unwrap()),
        vec![Some("*"), Some("GET"), Some("3000")]
    );
}

#[test]
fn every_logged_invocation_makes_one_log_output() {
    let scripts: Vec<(Request, Vec<Reply>)> = vec![
        (client_request("GET", "/a", None), vec![Ok(origin_response(200, 1))]),
        (
            client_request("GET", "/a", None),
            vec![Ok(origin_response(500, 1)), Ok(origin_response(500, 1))],
        ),
        (client_request("GET", "/a", None), vec![unreachable_origin("a"), unreachable_origin("b")]),
        (client_request("POST", "/a", None), vec![]),
        (client_request("GET", "/db-dump.tar.gz", None), vec![]),
    ];
    for (request, replies) in scripts {
        let run = run(request, replies);
        assert!(matches!(run.log, Some(LogOutput::Line { .. })));
    }
}

#[test]
fn handle_reads_the_clock_for_the_log() {
    let before = OffsetDateTime::now_utc();
    let first = handle(&settings(), client_request("GET", "/a", None));
    let after = OffsetDateTime::now_utc();
    let run = carry_out(first, vec![Ok(origin_response(200, 1))]);
    let line = logged_line(&run);
    assert!(before <= line.date_time() && line.date_time() <= after);
    assert_eq!(line.status(), Some(200));
}
