use ferrum::certificates::ca::{CertificateAuthority, RootFiles};
use ferrum::certificates::cache::CertificateCache;
use ferrum::proxy::connection::{ConnectionAction, ConnectionEvent, ConnectionState};
use ferrum::proxy::message::{find_header, same_name, Header, HttpRequest, HttpResponse, HttpVersion};
use ferrum::proxy::pipeline::{
    answer_for, deliver, finish_exchange, finish_exchange_with, hop_by_hop, plan_exchange,
    plan_exchange_with, plan_intercepted, route, strip_hop_by_hop, synthesize, OriginOutcome, Step,
};
use ferrum::proxy::server::{AcceptAction, AcceptEvent, Endpoint, IpAddress};
use ferrum::proxy::target::{
    destination_from_parts, parse_target, resolve_origin, Destination, OriginTarget, UriParts,
};
use ferrum::proxy::tunnel::{established, event_for, open_tunnel, open_tunnel_to};
use ferrum::utils::error::{ErrorKind, FerrumError};
use ferrum::{ProxyServer, RequestInterceptor, ResponseInterceptor};

fn header(name: &str, value: &str) -> Header {
    Header { name: name.to_string(), value: value.to_string() }
}

fn request(method: &str, target: &str, headers: Vec<Header>) -> HttpRequest {
    HttpRequest {
        method: method.to_string(),
        target: target.to_string(),
        version: HttpVersion::Http11,
        headers,
        body: Vec::new(),
    }
}

fn answer(status: u16, body: &str) -> HttpResponse {
    HttpResponse {
        status,
        version: HttpVersion::Http11,
        headers: vec![header("Content-Type", "text/plain")],
        body: body.as_bytes().to_vec(),
    }
}

fn origin(destination: Destination) -> OriginTarget {
    match destination {
        Destination::Origin(o) => o,
        other => panic!("no origin: {:?}", other),
    }
}

fn local(port: u16) -> Endpoint {
    Endpoint { ip: IpAddress::V4(0x7f00_0001), port }
}

fn exchange(method: &str, status: u16, body: &str) -> HttpResponse {
    let server = ProxyServer::new(local(0));
    let planned = plan_exchange(
        server.request_interceptor(),
        Some(request(method, "http://127.0.0.1:4000/test", vec![header("Host", "127.0.0.1:4000")])),
        false,
    );
    match planned.step {
        Step::Forward { origin, request } => {
            assert_eq!(origin.host, "127.0.0.1");
            assert_eq!(origin.port, 4000);
            assert_eq!(origin.path, "/test");
            assert!(!origin.secure);
            assert_eq!(request.method, method);
        }
        Step::Respond(r) => panic!("unexpected answer {}", r.status),
    }
    finish_exchange(server.response_interceptor(), OriginOutcome::Answered(answer(status, body)))
        .response
}

#[test]
fn test_proxy_forwards_requests() {
    let response = exchange("GET", 200, "Hello from target server");
    assert_eq!(response.status, 200, "Expected 200 OK response");
    assert_eq!(response.body, b"Hello from target server".to_vec(), "Unexpected response body");
}

#[test]
fn test_proxy_handles_different_http_methods() {
    assert_eq!(exchange("GET", 200, "GET response").status, 200, "Expected 200 OK for GET");
    assert_eq!(
        exchange("POST", 201, "POST response").status,
        201,
        "Expected 201 Created for POST"
    );
    assert_eq!(exchange("PUT", 200, "PUT response").status, 200, "Expected 200 OK for PUT");
}

#[test]
fn test_proxy_server_starts_and_accepts_connections() {
    let mut server = ProxyServer::new(local(0));
    assert_eq!(server.address(), local(0));
    assert!(server.start(Some(local(41234))).is_ok());
    assert_eq!(server.address(), local(41234));
    assert_eq!(server.on_accept(AcceptEvent::Accepted), AcceptAction::Spawn);
}

#[test]
fn test_proxy_server_responds_to_requests() {
    let mut server = ProxyServer::new(local(0));
    server.start(Some(local(41235))).unwrap();
    let planned = plan_exchange(
        server.request_interceptor(),
        Some(request("GET", "/", vec![header("host", "127.0.0.1:41235")])),
        false,
    );
    match planned.step {
        Step::Respond(resp) => {
            assert_eq!(resp.status, 200, "Expected 200 OK response");
            assert_eq!(resp.body, b"Ferrum Proxy - Request received and logged".to_vec());
        }
        Step::Forward { .. } => panic!("a request to the proxy itself was forwarded"),
    }
}

#[test]
fn bind_failure_is_a_network_error() {
    let mut server = ProxyServer::new(local(8080));
    let failed = server.start(None);
    assert!(matches!(failed, Err(FerrumError::NetworkError(_))));
    assert_eq!(server.address(), local(8080));
}

#[test]
fn accept_errors_never_stop_the_loop() {
    let server = ProxyServer::new(local(0));
    assert_eq!(server.on_accept(AcceptEvent::Failed), AcceptAction::LogAndContinue);
    assert_eq!(server.on_accept(AcceptEvent::Accepted), AcceptAction::Spawn);
    assert_eq!(server.on_accept(AcceptEvent::Shutdown), AcceptAction::Stop);
}

#[test]
fn server_switches_its_interceptors() {
    let mut server = ProxyServer::new(local(0));
    assert!(server.request_interceptor().is_enabled());
    assert!(server.response_interceptor().is_enabled());
    server.set_request_interception(false);
    assert!(!server.request_interceptor().is_enabled());
    assert!(server.response_interceptor().is_enabled());
    server.set_response_interception(false);
    server.set_request_interception(true);
    assert!(server.request_interceptor().is_enabled());
    assert!(!server.response_interceptor().is_enabled());
}

#[test]
fn unreachable_origin_gives_bad_gateway() {
    let responses = ResponseInterceptor::new();
    let down = finish_exchange(&responses, OriginOutcome::Unreachable).response;
    assert_eq!(down.status, 502);
    assert_eq!(down.body, b"Bad Gateway".to_vec());
    let garbled = finish_exchange(&responses, OriginOutcome::NotHttp).response;
    assert_eq!(garbled.status, 502);
    let slow = finish_exchange(&responses, OriginOutcome::TimedOut).response;
    assert_eq!(slow.status, 504);
    assert_eq!(slow.body, b"Gateway Timeout".to_vec());
    assert!(slow.headers.is_empty());
}

#[test]
fn malformed_request_gives_bad_request() {
    let requests = RequestInterceptor::new();
    let planned = plan_exchange(&requests, None, false);
    assert!(planned.record.is_none());
    match planned.step {
        Step::Respond(r) => {
            assert_eq!(r.status, 400);
            assert_eq!(r.body, b"Bad Request".to_vec());
        }
        Step::Forward { .. } => panic!("a malformed request was forwarded"),
    }
}

#[test]
fn request_with_a_broken_target_never_reaches_the_interceptor() {
    let requests = RequestInterceptor::new();
    for target in ["http://[", "http://exa mple/", ""] {
        let planned = plan_exchange(&requests, Some(request("GET", target, Vec::new())), false);
        assert!(planned.record.is_none(), "a record was made for {:?}", target);
        match planned.step {
            Step::Respond(r) => {
                assert_eq!(r.status, 400);
                assert_eq!(r.body, b"Bad Request".to_vec());
            }
            Step::Forward { .. } => panic!("a malformed request was forwarded"),
        }
        let with = plan_exchange_with(
            &requests,
            Some(request("GET", target, Vec::new())),
            false,
            |_r: HttpRequest| -> Result<HttpRequest, FerrumError> {
                panic!("the transformation ran on a malformed request")
            },
        );
        assert!(with.record.is_none());
        assert!(matches!(with.step, Step::Respond(HttpResponse { status: 400, .. })));
    }
}

#[test]
fn answer_goes_back_without_hop_by_hop_headers() {
    let mut responses = ResponseInterceptor::new();
    let mut from_origin = answer(200, "body");
    from_origin.headers.push(header("Transfer-Encoding", "chunked"));
    from_origin.headers.push(header("connection", "keep-alive"));
    from_origin.headers.push(header("X-Origin", "1"));
    let finished = finish_exchange(&responses, OriginOutcome::Answered(from_origin));
    assert_eq!(finished.response.status, 200);
    assert_eq!(finished.response.body, b"body".to_vec());
    let names: Vec<&str> = finished.response.headers.iter().map(|h| h.name.as_str()).collect();
    assert_eq!(names, vec!["Content-Type", "X-Origin"]);
    assert!(finished.record.is_some());
    responses.disable();
    let quiet = finish_exchange(&responses, OriginOutcome::Answered(answer(404, "")));
    assert_eq!(quiet.response.status, 404);
    assert!(quiet.record.is_none());
    let relayed = deliver(Ok(HttpResponse {
        status: 201,
        version: HttpVersion::Http10,
        headers: vec![header("Upgrade", "h2c"), header("Etag", "x")],
        body: b"made".to_vec(),
    }));
    assert_eq!(relayed.status, 201);
    assert_eq!(relayed.version, HttpVersion::Http10);
    assert_eq!(relayed.headers.len(), 1);
    assert_eq!(relayed.headers[0].name, "Etag");
    assert_eq!(relayed.body, b"made".to_vec());
}

#[test]
fn disabled_interceptor_reports_nothing_of_a_request() {
    let mut requests = RequestInterceptor::new();
    requests.disable();
    let planned =
        plan_exchange(&requests, Some(request("GET", "http://example.com/", Vec::new())), false);
    assert!(planned.record.is_none());
    assert!(matches!(planned.step, Step::Forward { .. }));
}

#[test]
fn request_without_origin_gives_bad_request() {
    let requests = RequestInterceptor::new();
    let planned = plan_exchange(&requests, Some(request("GET", "/path", Vec::new())), true);
    assert!(planned.record.is_some());
    assert!(matches!(planned.step, Step::Respond(HttpResponse { status: 400, .. })));
    let odd = plan_exchange(&requests, Some(request("GET", "ftp://example.com/a", Vec::new())), false);
    assert!(matches!(odd.step, Step::Respond(HttpResponse { status: 400, .. })));
    let broken = plan_exchange(&requests, Some(request("GET", "http://exa mple/", Vec::new())), false);
    assert!(matches!(broken.step, Step::Respond(HttpResponse { status: 400, .. })));
}

#[test]
fn route_follows_the_origin_given() {
    let refused = route(request("GET", "/", Vec::new()), Destination::Unknown);
    assert!(matches!(refused, Step::Respond(HttpResponse { status: 400, .. })));
    let own = route(request("GET", "/", Vec::new()), Destination::Proxy);
    assert!(matches!(own, Step::Respond(HttpResponse { status: 200, .. })));
    let destination = resolve_origin(&request("GET", "http://example.com/a", Vec::new()), false);
    let sent = route(request("GET", "/", vec![header("Upgrade", "h2c")]), destination);
    match sent {
        Step::Forward { origin, request } => {
            assert_eq!(origin.host, "example.com");
            assert!(request.headers.is_empty());
        }
        Step::Respond(r) => panic!("unexpected answer {}", r.status),
    }
}

#[test]
fn rejected_request_reaches_no_origin() {
    let turned_down = plan_intercepted(Err(FerrumError::ProxyError("blocked".to_string())), false);
    match turned_down {
        Step::Respond(r) => {
            assert_eq!(r.status, 403);
            assert_eq!(r.body, b"Forbidden".to_vec());
        }
        Step::Forward { .. } => panic!("a rejected request was forwarded"),
    }
    let requests = RequestInterceptor::new();
    let planned = plan_exchange_with(
        &requests,
        Some(request("GET", "http://example.com/", Vec::new())),
        false,
        |_r: HttpRequest| -> Result<HttpRequest, FerrumError> {
            Err(FerrumError::ProxyError("blocked".to_string()))
        },
    );
    assert!(planned.record.is_some());
    assert!(matches!(planned.step, Step::Respond(HttpResponse { status: 403, .. })));
}

#[test]
fn transformation_runs_only_while_enabled() {
    let rewrite = |mut r: HttpRequest| -> Result<HttpRequest, FerrumError> {
        r.target = "http://other.test/".to_string();
        r.headers.push(Header { name: "X-Seen".to_string(), value: "1".to_string() });
        Ok(r)
    };
    let mut requests = RequestInterceptor::new();
    let planned = plan_exchange_with(
        &requests,
        Some(request("GET", "http://example.com/", Vec::new())),
        false,
        rewrite,
    );
    match planned.step {
        Step::Forward { origin, request } => {
            assert_eq!(origin.host, "other.test");
            assert_eq!(request.headers.len(), 1);
        }
        Step::Respond(r) => panic!("unexpected answer {}", r.status),
    }
    requests.disable();
    let untouched = plan_exchange_with(
        &requests,
        Some(request("GET", "http://example.com/", Vec::new())),
        false,
        rewrite,
    );
    assert!(untouched.record.is_none());
    match untouched.step {
        Step::Forward { origin, request } => {
            assert_eq!(origin.host, "example.com");
            assert!(request.headers.is_empty());
        }
        Step::Respond(r) => panic!("unexpected answer {}", r.status),
    }
    let passed = requests
        .intercept_with(request("GET", "http://example.com/", Vec::new()), rewrite)
        .unwrap();
    assert_eq!(passed.target, "http://example.com/");
}

#[test]
fn response_transformation_can_replace_the_answer() {
    let replace = |_r: HttpResponse| -> Result<HttpResponse, FerrumError> {
        Ok(synthesize(451, "Unavailable"))
    };
    let mut responses = ResponseInterceptor::new();
    let finished =
        finish_exchange_with(&responses, OriginOutcome::Answered(answer(200, "ok")), replace);
    assert_eq!(finished.response.status, 451);
    assert!(finished.record.is_some());
    let turned_down = finish_exchange_with(
        &responses,
        OriginOutcome::Answered(answer(200, "ok")),
        |_r: HttpResponse| -> Result<HttpResponse, FerrumError> {
            Err(FerrumError::ProxyError("blocked".to_string()))
        },
    );
    assert_eq!(turned_down.response.status, 502);
    responses.disable();
    let untouched =
        finish_exchange_with(&responses, OriginOutcome::Answered(answer(200, "ok")), replace);
    assert_eq!(untouched.response.status, 200);
    assert_eq!(untouched.response.body, b"ok".to_vec());
    assert!(untouched.record.is_none());
    let kept = responses.intercept_with(answer(204, ""), replace).unwrap();
    assert_eq!(kept.status, 204);
}

#[test]
fn outcomes_become_answers() {
    assert_eq!(answer_for(OriginOutcome::Answered(answer(201, "made"))).status, 201);
    assert_eq!(answer_for(OriginOutcome::TimedOut).status, 504);
    assert_eq!(answer_for(OriginOutcome::Unreachable).status, 502);
    assert_eq!(answer_for(OriginOutcome::NotHttp).status, 502);
    assert_eq!(deliver(Ok(answer(200, "ok"))).body, b"ok".to_vec());
    assert_eq!(deliver(Err(FerrumError::NetworkError("x".to_string()))).status, 502);
}

#[test]
fn absolute_target_names_the_origin() {
    let found = origin(resolve_origin(
        &request("GET", "http://example.com:8080/test?x=1", Vec::new()),
        false,
    ));
    assert_eq!(found.host, "example.com");
    assert_eq!(found.port, 8080);
    assert_eq!(found.path, "/test?x=1");
    assert!(!found.secure);

    let secure = origin(resolve_origin(&request("GET", "https://example.com", Vec::new()), false));
    assert_eq!(secure.port, 443);
    assert_eq!(secure.path, "/");
    assert!(secure.secure);

    let plain = origin(resolve_origin(&request("GET", "http://example.com/a", Vec::new()), true));
    assert_eq!(plain.port, 80);
    assert!(!plain.secure);
}

#[test]
fn host_header_names_the_origin_of_a_path() {
    let through_tunnel = origin(resolve_origin(
        &request("GET", "/path", vec![header("Accept", "*/*"), header("HOST", "example.com")]),
        true,
    ));
    assert_eq!(through_tunnel.host, "example.com");
    assert_eq!(through_tunnel.port, 443);
    assert_eq!(through_tunnel.path, "/path");
    assert!(through_tunnel.secure);

    let with_port = origin(resolve_origin(
        &request("GET", "/path", vec![header("host", "example.com:81")]),
        true,
    ));
    assert_eq!(with_port.port, 81);
    assert!(with_port.secure);

    let missing = resolve_origin(&request("GET", "/path", Vec::new()), true);
    assert!(matches!(missing, Destination::Unknown));
    let own = resolve_origin(&request("GET", "/path", vec![header("host", "example.com")]), false);
    assert!(matches!(own, Destination::Proxy));
}

#[test]
fn target_is_parsed_into_its_parts() {
    let parts = parse_target(&request("GET", "http://example.com:8080/a?b", Vec::new())).unwrap();
    assert_eq!(parts.scheme.as_deref(), Some("http"));
    assert_eq!(parts.host.as_deref(), Some("example.com"));
    assert_eq!(parts.port, Some(8080));
    assert_eq!(parts.path.as_deref(), Some("/a?b"));
    assert!(parse_target(&request("GET", "", Vec::new())).is_none());
    let authority = parse_target(&request("CONNECT", "example.com:443", Vec::new())).unwrap();
    assert_eq!(authority.scheme, None);
    assert_eq!(authority.host.as_deref(), Some("example.com"));
    assert_eq!(authority.port, Some(443));
    assert_eq!(authority.path, None);
}

#[test]
fn destination_from_parts_covers_each_form() {
    let absolute = UriParts {
        scheme: Some("https".to_string()),
        host: Some("example.com".to_string()),
        port: None,
        path: None,
    };
    let found = origin(destination_from_parts(Some(absolute), None, false));
    assert_eq!((found.host.as_str(), found.port, found.path.as_str()), ("example.com", 443, "/"));

    let path_only =
        || UriParts { scheme: None, host: None, port: None, path: Some("/x".to_string()) };
    let host =
        || UriParts { scheme: None, host: Some("h.test".to_string()), port: Some(9), path: None };
    let found = origin(destination_from_parts(Some(path_only()), Some(host()), true));
    assert_eq!((found.host.as_str(), found.port, found.path.as_str()), ("h.test", 9, "/x"));
    assert!(found.secure);
    assert!(matches!(
        destination_from_parts(Some(path_only()), Some(host()), false),
        Destination::Proxy
    ));
    assert!(matches!(destination_from_parts(Some(path_only()), None, true), Destination::Unknown));

    assert!(matches!(destination_from_parts(None, None, false), Destination::Unknown));
    let unknown = UriParts {
        scheme: Some("ftp".to_string()),
        host: Some("example.com".to_string()),
        port: None,
        path: None,
    };
    assert!(matches!(destination_from_parts(Some(unknown), None, false), Destination::Unknown));
}

#[test]
fn hop_by_hop_headers_are_left_out() {
    let headers = vec![
        header("Host", "example.com"),
        header("Connection", "keep-alive"),
        header("Accept", "*/*"),
        header("KEEP-ALIVE", "timeout=5"),
        header("proxy-authorization", "Basic abc"),
        header("Transfer-Encoding", "chunked"),
        header("X-Trace", "1"),
        header("TE", "trailers"),
        header("Upgrade", "h2c"),
    ];
    let kept = strip_hop_by_hop(&headers);
    let names: Vec<&str> = kept.iter().map(|h| h.name.as_str()).collect();
    assert_eq!(names, vec!["Host", "Accept", "X-Trace"]);
    assert_eq!(kept[2].value, "1");
    assert!(hop_by_hop("Proxy-Connection"));
    assert!(hop_by_hop("trailer"));
    assert!(hop_by_hop("Proxy-Authenticate"));
    assert!(!hop_by_hop("Content-Length"));
    assert!(!hop_by_hop(""));
}

#[test]
fn forwarded_request_keeps_all_but_hop_by_hop_headers() {
    let requests = RequestInterceptor::new();
    let mut incoming = request(
        "POST",
        "http://example.com/submit",
        vec![header("Connection", "close"), header("Content-Type", "text/plain")],
    );
    incoming.body = b"test=data".to_vec();
    match plan_exchange(&requests, Some(incoming), false).step {
        Step::Forward { request, .. } => {
            assert_eq!(request.method, "POST");
            assert_eq!(request.target, "http://example.com/submit");
            assert_eq!(request.body, b"test=data".to_vec());
            assert_eq!(request.headers.len(), 1);
            assert_eq!(request.headers[0].name, "Content-Type");
        }
        Step::Respond(r) => panic!("unexpected answer {}", r.status),
    }
}

#[test]
fn names_are_compared_without_case() {
    assert!(same_name("Host", "host"));
    assert!(same_name("HOST", "hOsT"));
    assert!(!same_name("Host", "Hosts"));
    assert!(!same_name("@ost", "`ost"));
    assert!(!same_name("[", "{"));
    assert!(same_name("", ""));
    let headers = vec![header("A", "1"), header("b", "2"), header("B", "3")];
    assert_eq!(find_header(&headers, "B"), Some(1));
    assert_eq!(find_header(&headers, "c"), None);
}

#[test]
fn synthesized_answer_has_status_and_reason() {
    let made = synthesize(418, "teapot");
    assert_eq!(made.status, 418);
    assert_eq!(made.version, HttpVersion::Http11);
    assert!(made.headers.is_empty());
    assert_eq!(made.body, b"teapot".to_vec());
}

#[test]
fn connection_follows_its_states() {
    let start = ConnectionState::new();
    assert_eq!(start, ConnectionState::AwaitingRequestLine);
    assert_eq!(
        start.step(ConnectionEvent::ConnectRead),
        (ConnectionState::Handshaking, ConnectionAction::EstablishTunnel)
    );
    assert_eq!(
        start.step(ConnectionEvent::RequestRead),
        (ConnectionState::PlaintextForwarding, ConnectionAction::Forward)
    );
    assert_eq!(
        ConnectionState::Handshaking.step(ConnectionEvent::HandshakeDone),
        (ConnectionState::DecryptedForwarding, ConnectionAction::ReadNext)
    );
    assert_eq!(
        ConnectionState::Handshaking.step(ConnectionEvent::HandshakeFailed),
        (ConnectionState::Closed, ConnectionAction::Fail)
    );
    assert_eq!(
        ConnectionState::Handshaking.step(ConnectionEvent::ClientDone),
        (ConnectionState::Closed, ConnectionAction::Fail)
    );
    assert_eq!(
        ConnectionState::AwaitingRequestLine.step(ConnectionEvent::ClientDone),
        (ConnectionState::Closed, ConnectionAction::Close)
    );
    assert_eq!(
        ConnectionState::DecryptedForwarding.step(ConnectionEvent::RequestRead),
        (ConnectionState::DecryptedForwarding, ConnectionAction::Forward)
    );
    assert_eq!(
        ConnectionState::PlaintextForwarding.step(ConnectionEvent::ClientDone),
        (ConnectionState::Closed, ConnectionAction::Close)
    );
    assert_eq!(
        ConnectionState::Closed.step(ConnectionEvent::RequestRead),
        (ConnectionState::Closed, ConnectionAction::Close)
    );
    assert_eq!(
        ConnectionState::PlaintextForwarding.step(ConnectionEvent::HandshakeDone),
        (ConnectionState::Closed, ConnectionAction::Fail)
    );
    assert!(ConnectionState::DecryptedForwarding.tunnelled());
    assert!(!ConnectionState::PlaintextForwarding.tunnelled());
    assert!(ConnectionState::Closed.is_closed());
    assert!(!start.is_closed());
}

#[test]
fn connect_requests_are_recognized() {
    assert_eq!(
        event_for(&request("CONNECT", "example.com:443", Vec::new())),
        ConnectionEvent::ConnectRead
    );
    assert_eq!(
        event_for(&request("GET", "http://example.com/", Vec::new())),
        ConnectionEvent::RequestRead
    );
    assert_eq!(
        event_for(&request("connect", "example.com:443", Vec::new())),
        ConnectionEvent::RequestRead
    );
}

#[test]
fn tunnel_gets_the_leaf_of_its_host() {
    let mut ca = CertificateAuthority::new(std::path::PathBuf::from("a"), std::path::PathBuf::from("b"));
    ca.init(RootFiles { certificate: None, private_key: None }).unwrap();
    let mut cache = CertificateCache::new();
    let tunnel =
        open_tunnel(&mut cache, &ca, &request("CONNECT", "example.com:8443", Vec::new()), 10)
            .unwrap();
    assert_eq!(tunnel.host, "example.com");
    assert_eq!(tunnel.port, 8443);
    assert_eq!(tunnel.leaf.domain, "example.com");
    assert_eq!(tunnel.leaf.certificate, b"Placeholder certificate for example.com".to_vec());
    assert_eq!(cache.signings(), 1);

    let again =
        open_tunnel(&mut cache, &ca, &request("CONNECT", "example.com", Vec::new()), 11).unwrap();
    assert_eq!(again.port, 443);
    assert_eq!(again.leaf.not_before, 10);
    assert_eq!(cache.signings(), 1);
}

#[test]
fn tunnel_is_announced_to_the_client() {
    let reply = established();
    assert_eq!(reply.status, 200);
    assert_eq!(reply.body, b"Connection Established".to_vec());
}

#[test]
fn tunnel_fails_without_host_or_leaf() {
    let mut ca = CertificateAuthority::new(std::path::PathBuf::from("a"), std::path::PathBuf::from("b"));
    let mut cache = CertificateCache::new();
    let no_root = open_tunnel(&mut cache, &ca, &request("CONNECT", "example.com:443", Vec::new()), 1);
    assert_eq!(no_root.unwrap_err().kind(), ErrorKind::Certificate);
    ca.init(RootFiles { certificate: None, private_key: None }).unwrap();
    let no_host = open_tunnel(&mut cache, &ca, &request("CONNECT", "/path", Vec::new()), 1);
    assert_eq!(no_host.unwrap_err().kind(), ErrorKind::Proxy);
    let nothing = open_tunnel_to(&mut cache, &ca, None, 1);
    assert_eq!(nothing.unwrap_err().kind(), ErrorKind::Proxy);
    assert_eq!(cache.signings(), 0);
}
