use kantara::forward::{
    client_response, outbound_request, ForwardError, Header, InboundRequest, ResponseBody,
    UpstreamResponse,
};

fn header(name: &str, value: &str) -> Header {
    Header { name: name.as_bytes().to_vec(), value: value.as_bytes().to_vec() }
}

fn names(hs: &[Header]) -> Vec<String> {
    hs.iter().map(|h| String::from_utf8(h.name.clone()).unwrap()).collect()
}

fn inbound(method: &str, path: &str, headers: Vec<Header>, body: &[u8]) -> InboundRequest {
    InboundRequest {
        method: method.to_string(),
        path_and_query: path.to_string(),
        headers,
        body: body.to_vec(),
    }
}

#[test]
fn url_is_upstream_followed_by_path_and_query() {
    let r = outbound_request(inbound("GET", "/a/b?x=1&y=2", vec![], b""), "http://127.0.0.1:3000");
    assert_eq!(r.url, "http://127.0.0.1:3000/a/b?x=1&y=2");
    assert_eq!(r.method, "GET");
}

#[test]
fn empty_path_leaves_upstream_alone() {
    let r = outbound_request(inbound("GET", "", vec![], b""), "http://example.test");
    assert_eq!(r.url, "http://example.test");
}

#[test]
fn host_and_content_length_are_not_forwarded() {
    let hs = vec![
        header("host", "localhost:8080"),
        header("x-trace", "abc"),
        header("Content-Length", "5"),
        header("accept", "*/*"),
        header("HOST", "other"),
        header("x-trace", "def"),
    ];
    let r = outbound_request(inbound("POST", "/p", hs, b"hello"), "http://u");
    assert_eq!(names(&r.headers), vec!["x-trace", "accept", "x-trace"]);
    assert_eq!(r.headers[0].value, b"abc".to_vec());
    assert_eq!(r.headers[2].value, b"def".to_vec());
    assert_eq!(r.method, "POST");
}

#[test]
fn lookalike_header_names_are_forwarded() {
    let hs = vec![header("hosts", "1"), header("content-lengt", "2"), header("x-host", "3")];
    let r = outbound_request(inbound("GET", "/", hs, b""), "http://u");
    assert_eq!(names(&r.headers), vec!["hosts", "content-lengt", "x-host"]);
}

#[test]
fn empty_body_is_not_attached() {
    let r = outbound_request(inbound("GET", "/", vec![], b""), "http://u");
    assert!(r.body.is_none());
}

#[test]
fn non_empty_body_is_attached_unchanged() {
    let r = outbound_request(inbound("PUT", "/", vec![], b"\x00payload"), "http://u");
    assert_eq!(r.body, Some(b"\x00payload".to_vec()));
}

#[test]
fn upstream_response_relayed_without_transfer_encoding() {
    let u = UpstreamResponse {
        status: 404,
        headers: vec![
            header("content-type", "text/plain"),
            header("Transfer-Encoding", "chunked"),
            header("x-echo-method", "PATCH"),
        ],
        body: b"not here".to_vec(),
    };
    let r = client_response(Ok(u));
    assert_eq!(r.status, 404);
    assert_eq!(names(&r.headers), vec!["content-type", "x-echo-method"]);
    assert_eq!(r.headers[1].value, b"PATCH".to_vec());
    match r.body {
        ResponseBody::Bytes(b) => assert_eq!(b, b"not here".to_vec()),
        ResponseBody::Text(_) => panic!("expected the upstream body"),
    }
}

#[test]
fn unreachable_upstream_gives_bad_gateway() {
    let r = client_response(Err(ForwardError::Transport("connection refused".to_string())));
    assert_eq!(r.status, 502);
    assert!(r.headers.is_empty());
    match r.body {
        ResponseBody::Text(t) => {
            assert_eq!(t, "Failed to send request to upstream server: connection refused")
        }
        ResponseBody::Bytes(_) => panic!("expected a text body"),
    }
}

#[test]
fn unreadable_body_gives_internal_error() {
    let r = client_response(Err(ForwardError::BodyRead("stream truncated".to_string())));
    assert_eq!(r.status, 500);
    match r.body {
        ResponseBody::Text(t) => assert_eq!(t, "Failed to get response body: stream truncated"),
        ResponseBody::Bytes(_) => panic!("expected a text body"),
    }
}

#[test]
fn client_construction_failure_gives_internal_error() {
    let e = ForwardError::ClientConstruction("no tls".to_string());
    assert_eq!(e.status(), 500);
    assert_eq!(e.message(), "Failed to create HTTP client: no tls");
    let r = client_response(Err(e));
    assert_eq!(r.status, 500);
}

#[test]
fn echoing_upstream_round_trip_keeps_everything_but_hop_headers() {
    let hs = vec![header("host", "h"), header("x-a", "1"), header("content-length", "3")];
    let out = outbound_request(inbound("DELETE", "/r?q", hs, b"abc"), "http://up");
    let mut echoed = out.headers;
    echoed.push(header("transfer-encoding", "chunked"));
    let r = client_response(Ok(UpstreamResponse {
        status: 200,
        headers: echoed,
        body: out.body.unwrap(),
    }));
    assert_eq!(r.status, 200);
    assert_eq!(names(&r.headers), vec!["x-a"]);
    match r.body {
        ResponseBody::Bytes(b) => assert_eq!(b, b"abc".to_vec()),
        ResponseBody::Text(_) => panic!("expected the upstream body"),
    }
}
