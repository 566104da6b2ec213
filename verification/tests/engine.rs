use loadbalancer::{
    build_outbound, handle_upstream_outcome, health_response, join_uri, InboundRequest,
    Loadbalancer, Policy, RoundRobinServerPolicy, SingleServerPolicy, TransportError,
    UpstreamResponse,
};

fn request(method: &str, path_and_query: &str, body: &[u8]) -> InboundRequest {
    InboundRequest {
        method: method.to_string(),
        path_and_query: path_and_query.to_string(),
        body: body.to_vec(),
    }
}

#[test]
fn health_is_200_and_empty_whatever_the_upstreams_do() {
    // A balancer whose only target is unreachable: the health answer does not
    // look at it.
    let policy = Policy::Single(SingleServerPolicy::new("http://unreachable:1".to_string()));
    let _lb = Loadbalancer::new(8080, policy);
    let r = health_response();
    assert_eq!(r.status, 200);
    assert!(r.body.is_empty());
    assert!(r.headers.is_empty());
}

#[test]
fn forwarded_request_keeps_method_path_query_and_body() {
    let req = request("GET", "/foo?x=1", b"payload");
    let out = build_outbound("http://u:9", &req);
    assert_eq!(out.uri, "http://u:9/foo?x=1");
    assert_eq!(out.method, "GET");
    assert_eq!(out.body, b"payload".to_vec());
}

#[test]
fn join_uri_normalizes_the_separator() {
    assert_eq!(join_uri("http://u:9", "/foo"), "http://u:9/foo");
    assert_eq!(join_uri("http://u:9/", "/foo"), "http://u:9/foo");
    assert_eq!(join_uri("http://u:9/", "foo"), "http://u:9/foo");
    assert_eq!(join_uri("http://u:9", "foo"), "http://u:9/foo");
    assert_eq!(join_uri("http://u:9", "/foo?x=1&y=2"), "http://u:9/foo?x=1&y=2");
}

#[test]
fn upstream_response_relayed_verbatim() {
    let upstream = UpstreamResponse {
        status: 200,
        headers: vec![
            ("content-type".to_string(), b"text/plain".to_vec()),
            ("x-one".to_string(), b"1".to_vec()),
        ],
        body: b"backend".to_vec(),
    };
    let r = handle_upstream_outcome(Ok(upstream));
    assert_eq!(r.status, 200);
    assert_eq!(r.body, b"backend".to_vec());
    assert_eq!(r.headers.len(), 2);
    assert_eq!(r.headers[0].0, "content-type");
    assert_eq!(r.headers[0].1, b"text/plain".to_vec());
    assert_eq!(r.headers[1].0, "x-one");
    assert_eq!(r.headers[1].1, b"1".to_vec());
}

#[test]
fn transport_failure_becomes_500_with_message() {
    let err = TransportError { message: "connection refused".to_string() };
    let r = handle_upstream_outcome(Err(err));
    assert_eq!(r.status, 500);
    assert_eq!(r.body, b"Forwarding error: connection refused".to_vec());
}

#[test]
fn failure_does_not_stop_later_requests() {
    let policy = Policy::RoundRobin(RoundRobinServerPolicy::new(vec![
        "http://dead:1".to_string(),
        "http://live:2".to_string(),
    ]));
    let mut lb = Loadbalancer::new(8080, policy);

    // First request: the selected upstream is unreachable; the caller gets a
    // 500-class answer.
    let first = lb.plan_forward(&request("GET", "/a", b""));
    assert_eq!(first.uri, "http://dead:1/a");
    let failed = handle_upstream_outcome(Err(TransportError {
        message: "connect timeout".to_string(),
    }));
    assert!(500 <= failed.status && failed.status < 600);

    // A subsequent, independent request is still served.
    let second = lb.plan_forward(&request("GET", "/b", b""));
    assert_eq!(second.uri, "http://live:2/b");
    let ok = handle_upstream_outcome(Ok(UpstreamResponse {
        status: 200,
        headers: vec![],
        body: b"backend".to_vec(),
    }));
    assert_eq!(ok.status, 200);
    assert_eq!(ok.body, b"backend".to_vec());
}

#[test]
fn balancer_uri_names_loopback_and_port() {
    let policy = Policy::Single(SingleServerPolicy::new("http://a:1".to_string()));
    let lb = Loadbalancer::new(8080, policy);
    assert_eq!(lb.uri(), "http://127.0.0.1:8080");
    let lb2 = Loadbalancer::new(
        65535,
        Policy::Single(SingleServerPolicy::new("http://a:1".to_string())),
    );
    assert_eq!(lb2.uri(), "http://127.0.0.1:65535");
    let lb3 = Loadbalancer::new(
        0,
        Policy::Single(SingleServerPolicy::new("http://a:1".to_string())),
    );
    assert_eq!(lb3.uri(), "http://127.0.0.1:0");
}

#[test]
fn plan_forward_walks_the_targets() {
    let policy = Policy::RoundRobin(RoundRobinServerPolicy::new(vec![
        "http://one:1".to_string(),
        "http://two:2".to_string(),
    ]));
    let mut lb = Loadbalancer::new(9000, policy);
    let out1 = lb.plan_forward(&request("POST", "/p?q=1", b"data"));
    let out2 = lb.plan_forward(&request("GET", "/g", b""));
    let out3 = lb.plan_forward(&request("GET", "/h", b""));
    assert_eq!(out1.uri, "http://one:1/p?q=1");
    assert_eq!(out1.method, "POST");
    assert_eq!(out1.body, b"data".to_vec());
    assert_eq!(out2.uri, "http://two:2/g");
    assert_eq!(out3.uri, "http://one:1/h");
}
