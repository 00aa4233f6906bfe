use http::{HeaderMap, HeaderValue};
use wm_proxy::config::{parse_u32, parse_u64, Config, ConfigFault, Overrides, WolfProxyConfig};
use wm_proxy::dial::{ConnectOutcome, DialStep, WolfProxyClient};
use wm_proxy::engine::{
    assemble_uri, build_request, plan_request, ready_response, refuse_early, relay_response,
    route_of, strip_prefix, ProxyAction, ProxyEvent, ProxyState, Route,
};
use wm_proxy::fault::{error_response, fault_response, Fault, HttpVersion};
use wm_proxy::headers::{
    header_value, is_hop_by_hop_name, is_websocket_upgrade, sanitize_request, sanitize_response,
    Header,
};
use wm_proxy::mock::MockWolfApi;
use wm_proxy::text::{bytes_equal, bytes_equal_ignoring_case, bytes_start_with};
use wm_proxy::wire::{fill_map, plan_from_map, refuse_early_from_map, relay_from_map};

fn h(name: &str, value: &str) -> Header {
    Header { name: name.as_bytes().to_vec(), value: value.as_bytes().to_vec() }
}

fn client(attempts: u32, delay_ms: u64) -> WolfProxyClient {
    WolfProxyClient::new(
        WolfProxyConfig::new("/tmp/wolf.sock".to_string(), 2000, 10000).with_retry(attempts, delay_ms),
    )
}

const HOP_BY_HOP: [&str; 8] = [
    "Connection",
    "Proxy-Authenticate",
    "Proxy-Authorization",
    "TE",
    "Trailer",
    "Transfer-Encoding",
    "Upgrade",
    "Keep-Alive",
];

fn casings(name: &str) -> Vec<String> {
    let mut mixed = String::new();
    for (i, c) in name.chars().enumerate() {
        if i % 2 == 0 {
            mixed.push(c.to_ascii_uppercase());
        } else {
            mixed.push(c.to_ascii_lowercase());
        }
    }
    vec![name.to_string(), name.to_ascii_lowercase(), name.to_ascii_uppercase(), mixed]
}

#[test]
fn hop_by_hop_names_in_every_casing() {
    for name in HOP_BY_HOP {
        for variant in casings(name) {
            assert!(is_hop_by_hop_name(variant.as_bytes()), "{}", variant);
        }
    }
    for name in ["Host", "Content-Type", "X-Custom", "Connections", "T", "", "Keep_Alive", "X-Forwarded-For"] {
        assert!(!is_hop_by_hop_name(name.as_bytes()), "{}", name);
    }
}

#[test]
fn hop_by_hop_stripped_on_both_legs() {
    for name in HOP_BY_HOP {
        for variant in casings(name) {
            let headers = vec![h("Accept", "*/*"), h(&variant, "x"), h("X-Custom", "yes")];
            let response = sanitize_response(&headers);
            assert_eq!(response, vec![h("Accept", "*/*"), h("X-Custom", "yes")]);
            let request = sanitize_request(&headers, &None, &None);
            assert_eq!(
                request,
                vec![h("Accept", "*/*"), h("X-Custom", "yes"), h("x-forwarded-proto", "http")]
            );
        }
    }
}

#[test]
fn forwarded_for_follows_the_peer() {
    let headers = vec![h("Accept", "*/*")];
    let with_peer = sanitize_request(&headers, &Some(b"203.0.113.9".to_vec()), &None);
    assert_eq!(
        with_peer,
        vec![h("Accept", "*/*"), h("x-forwarded-for", "203.0.113.9"), h("x-forwarded-proto", "http")]
    );
    let without_peer = sanitize_request(&headers, &None, &None);
    assert!(without_peer.iter().all(|x| !x.name.eq_ignore_ascii_case(b"x-forwarded-for")));
}

#[test]
fn forwarded_headers_in_order() {
    let headers = vec![h("Host", "wolf.local:8080"), h("Connection", "close"), h("Accept", "a")];
    let out = sanitize_request(
        &headers,
        &Some(b"10.1.1.1".to_vec()),
        &Some(b"wolf.local:8080".to_vec()),
    );
    assert_eq!(
        out,
        vec![
            h("Host", "wolf.local:8080"),
            h("Accept", "a"),
            h("x-forwarded-for", "10.1.1.1"),
            h("x-forwarded-proto", "http"),
            h("x-forwarded-host", "wolf.local:8080"),
        ]
    );
}

#[test]
fn forwarded_for_of_the_client_is_kept() {
    let headers = vec![h("X-Forwarded-For", "198.51.100.1"), h("X-Forwarded-For", "198.51.100.2")];
    let out = sanitize_request(&headers, &Some(b"203.0.113.9".to_vec()), &None);
    assert_eq!(
        out,
        vec![
            h("X-Forwarded-For", "198.51.100.1"),
            h("X-Forwarded-For", "198.51.100.2"),
            h("x-forwarded-for", "203.0.113.9"),
            h("x-forwarded-proto", "http"),
        ]
    );
}

#[test]
fn sanitize_empty_list() {
    assert_eq!(sanitize_response(&vec![]), vec![]);
    assert_eq!(sanitize_request(&vec![], &None, &None), vec![h("x-forwarded-proto", "http")]);
}

#[test]
fn header_lookup_takes_the_first() {
    let headers = vec![h("a", "1"), h("HOST", "first"), h("host", "second")];
    assert_eq!(header_value(&headers, b"host"), Some(b"first".to_vec()));
    assert_eq!(header_value(&headers, b"Host"), Some(b"first".to_vec()));
    assert_eq!(header_value(&headers, b"missing"), None);
    assert_eq!(header_value(&vec![], b"host"), None);
}

#[test]
fn websocket_upgrade_is_seen() {
    assert!(is_websocket_upgrade(&vec![h("Upgrade", "websocket")]));
    assert!(is_websocket_upgrade(&vec![h("upgrade", "WebSocket")]));
    assert!(is_websocket_upgrade(&vec![h("UPGRADE", "WEBSOCKET"), h("upgrade", "h2c")]));
    assert!(!is_websocket_upgrade(&vec![h("upgrade", "h2c"), h("upgrade", "websocket")]));
    assert!(!is_websocket_upgrade(&vec![h("Connection", "upgrade")]));
    assert!(!is_websocket_upgrade(&vec![h("Upgrade", "websocket, h2c")]));
    assert!(!is_websocket_upgrade(&vec![]));
}

#[test]
fn prefix_is_stripped() {
    assert_eq!(
        assemble_uri(b"/wolfapi/api/v1/foo", &Some(b"x=1".to_vec())),
        b"/api/v1/foo?x=1".to_vec()
    );
    assert_eq!(assemble_uri(b"/wolfapi", &None), b"/".to_vec());
    assert_eq!(assemble_uri(b"/wolfapi", &Some(b"a=b".to_vec())), b"/?a=b".to_vec());
    assert_eq!(assemble_uri(b"/wolfapi/", &None), b"/".to_vec());
    assert_eq!(assemble_uri(b"/api/v1/foo", &None), b"/api/v1/foo".to_vec());
    assert_eq!(assemble_uri(b"/api", &Some(b"".to_vec())), b"/api?".to_vec());
    assert_eq!(strip_prefix(b"/wolfapi/wolfapi/x"), b"/wolfapi/x".to_vec());
    assert_eq!(strip_prefix(b"/wolfap"), b"/wolfap".to_vec());
    // The prefix ends at a segment boundary or it is no prefix.
    assert_eq!(strip_prefix(b"/wolfapifoo"), b"/wolfapifoo".to_vec());
    assert_eq!(strip_prefix(b"/wolfapi?x"), b"/wolfapi?x".to_vec());
    assert_eq!(assemble_uri(b"/wolfapifoo", &Some(b"x=1".to_vec())), b"/wolfapifoo?x=1".to_vec());
    assert_eq!(strip_prefix(b"/WOLFAPI/x"), b"/WOLFAPI/x".to_vec());
    assert_eq!(strip_prefix(b""), b"".to_vec());
}

#[test]
fn request_goes_upstream_sanitised() {
    let headers = vec![h("Host", "example.org"), h("Keep-Alive", "timeout=5"), h("Accept", "a")];
    let r = plan_request(
        b"POST",
        b"/wolfapi/api/v1/foo",
        &Some(b"x=1".to_vec()),
        &headers,
        Some(b"payload".to_vec()),
        &Some(b"203.0.113.9".to_vec()),
    );
    let e = r.unwrap();
    assert_eq!(e.method, b"POST".to_vec());
    assert_eq!(e.uri, b"/api/v1/foo?x=1".to_vec());
    assert_eq!(e.body, b"payload".to_vec());
    assert_eq!(
        e.headers,
        vec![
            h("Host", "example.org"),
            h("Accept", "a"),
            h("x-forwarded-for", "203.0.113.9"),
            h("x-forwarded-proto", "http"),
            h("x-forwarded-host", "example.org"),
        ]
    );
}

#[test]
fn websocket_request_is_refused_first() {
    let headers = vec![h("Upgrade", "WebSocket")];
    let r = plan_request(b"GET", b"/wolfapi/a b", &None, &headers, None, &None);
    assert_eq!(r, Err(Fault::WebSocketUpgrade));
    let c = client(3, 100);
    assert_eq!(
        c.step(ProxyState::Idle, ProxyEvent::Start { websocket: true }),
        (ProxyState::Done, ProxyAction::Fail { fault: Fault::WebSocketUpgrade })
    );
    assert_eq!(Fault::WebSocketUpgrade.status(), 501);
    assert_eq!(Fault::WebSocketUpgrade.code(), "NotImplemented");
}

#[test]
fn invalid_uri_is_refused() {
    let r = plan_request(b"GET", b"/wolfapi/a b", &None, &vec![], Some(vec![]), &None);
    assert_eq!(r, Err(Fault::InvalidUri));
    let r = plan_request(b"GET", b"", &None, &vec![], Some(vec![]), &None);
    assert_eq!(r, Err(Fault::InvalidUri));
    let r = plan_request(b"GET", b"/wolfapi/ok", &None, &vec![], Some(vec![]), &None);
    assert!(r.is_ok());
    // What parses as a URI but is no absolute path is refused too.
    let r = plan_request(b"GET", b"foo", &None, &vec![], Some(vec![]), &None);
    assert_eq!(r, Err(Fault::InvalidUri));
    let r = plan_request(b"GET", b"http://example.org/x", &None, &vec![], Some(vec![]), &None);
    assert_eq!(r, Err(Fault::InvalidUri));
    let r = build_request(b"GET", b"foo".to_vec(), true, &vec![], Some(vec![]), &None);
    assert_eq!(r, Err(Fault::InvalidUri));
    let r = build_request(b"GET", Vec::new(), true, &vec![], Some(vec![]), &None);
    assert_eq!(r, Err(Fault::InvalidUri));
    let r = plan_request(b"GET", b"/wolfapifoo", &None, &vec![], Some(vec![]), &None);
    assert_eq!(r.unwrap().uri, b"/wolfapifoo".to_vec());
}

#[test]
fn unread_body_is_refused() {
    let r = plan_request(b"GET", b"/wolfapi/ok", &None, &vec![], None, &None);
    assert_eq!(r, Err(Fault::InvalidBody));
    let r = build_request(b"GET", b"/ok".to_vec(), false, &vec![], None, &None);
    assert_eq!(r, Err(Fault::InvalidUri));
    let r = build_request(b"GET", b"/ok".to_vec(), true, &vec![], None, &None);
    assert_eq!(r, Err(Fault::InvalidBody));
}

#[test]
fn dial_retry_budget() {
    let c = client(3, 100);
    let mut attempt: u32 = 1;
    let mut attempts_made = 0;
    let mut slept: u128 = 0;
    let end = loop {
        attempts_made += 1;
        match c.after_connect(attempt, ConnectOutcome::Failed) {
            DialStep::Retry { attempt: next, wait_ms } => {
                slept += wait_ms;
                attempt = next;
            }
            other => break other,
        }
    };
    assert_eq!(attempts_made, 3);
    assert_eq!(slept, 300);
    assert_eq!(end, DialStep::GiveUp { fault: Fault::Unavailable });
    assert_eq!(Fault::Unavailable.status(), 503);
    assert_eq!(Fault::Unavailable.code(), "UpstreamUnavailable");
}

#[test]
fn dial_steps() {
    let c = client(3, 500);
    assert_eq!(c.after_connect(1, ConnectOutcome::Connected), DialStep::Connected);
    assert_eq!(c.after_connect(3, ConnectOutcome::Connected), DialStep::Connected);
    assert_eq!(
        c.after_connect(1, ConnectOutcome::TimedOut),
        DialStep::Retry { attempt: 2, wait_ms: 500 }
    );
    assert_eq!(
        c.after_connect(2, ConnectOutcome::Failed),
        DialStep::Retry { attempt: 3, wait_ms: 1000 }
    );
    assert_eq!(
        c.after_connect(3, ConnectOutcome::TimedOut),
        DialStep::GiveUp { fault: Fault::DialTimeout }
    );
    assert_eq!(c.backoff(2), 1000);
    assert_eq!(c.backoff(0), 0);
    let big = client(u32::MAX, u64::MAX);
    assert_eq!(big.backoff(u32::MAX), (u32::MAX as u128) * (u64::MAX as u128));
    let none = client(0, 100);
    assert_eq!(
        none.after_connect(1, ConnectOutcome::Failed),
        DialStep::GiveUp { fault: Fault::Unavailable }
    );
}

#[test]
fn exchange_runs_through() {
    let c = client(2, 100);
    let (s, a) = c.step(ProxyState::Idle, ProxyEvent::Start { websocket: false });
    assert_eq!((s, a), (ProxyState::Dialing { attempt: 1 }, ProxyAction::Connect { attempt: 1 }));
    let (s, a) = c.step(s, ProxyEvent::Connect { outcome: ConnectOutcome::Failed });
    assert_eq!(
        (s, a),
        (ProxyState::Dialing { attempt: 2 }, ProxyAction::SleepThenConnect { wait_ms: 100, attempt: 2 })
    );
    let (s, a) = c.step(s, ProxyEvent::Connect { outcome: ConnectOutcome::Connected });
    assert_eq!((s, a), (ProxyState::Sent, ProxyAction::SendRequest));
    let (s, a) = c.step(s, ProxyEvent::HeadReceived);
    assert_eq!((s, a), (ProxyState::Reading, ProxyAction::ReadBody));
    let (s, a) = c.step(s, ProxyEvent::BodyReceived);
    assert_eq!((s, a), (ProxyState::Done, ProxyAction::Relay));
    let (s, a) = c.step(s, ProxyEvent::HeadReceived);
    assert_eq!((s, a), (ProxyState::Done, ProxyAction::Nothing));
}

#[test]
fn exchange_faults() {
    let c = client(1, 100);
    assert_eq!(
        c.step(ProxyState::Dialing { attempt: 1 }, ProxyEvent::Connect { outcome: ConnectOutcome::TimedOut }),
        (ProxyState::Done, ProxyAction::Fail { fault: Fault::DialTimeout })
    );
    assert_eq!(
        c.step(ProxyState::Sent, ProxyEvent::ReadTimedOut),
        (ProxyState::Done, ProxyAction::Fail { fault: Fault::ReadTimeout })
    );
    assert_eq!(Fault::ReadTimeout.status(), 504);
    assert_eq!(Fault::ReadTimeout.code(), "UpstreamTimeout");
    assert_eq!(
        c.step(ProxyState::Sent, ProxyEvent::ProtocolError),
        (ProxyState::Done, ProxyAction::Fail { fault: Fault::UpstreamProtocol })
    );
    assert_eq!(
        c.step(ProxyState::Reading, ProxyEvent::BodyFailed),
        (ProxyState::Done, ProxyAction::Fail { fault: Fault::ResponseConversion })
    );
    // An event that does not belong to the state changes nothing.
    assert_eq!(
        c.step(ProxyState::Sent, ProxyEvent::Connect { outcome: ConnectOutcome::Failed }),
        (ProxyState::Sent, ProxyAction::Nothing)
    );
    assert_eq!(
        c.step(ProxyState::Reading, ProxyEvent::Start { websocket: false }),
        (ProxyState::Reading, ProxyAction::Nothing)
    );
}

#[test]
fn cancelled_exchange_is_over() {
    let c = client(3, 100);
    for state in [
        ProxyState::Idle,
        ProxyState::Dialing { attempt: 2 },
        ProxyState::Sent,
        ProxyState::Reading,
    ] {
        assert_eq!(c.step(state, ProxyEvent::Cancelled), (ProxyState::Done, ProxyAction::Close));
    }
    assert_eq!(
        c.step(ProxyState::Done, ProxyEvent::Cancelled),
        (ProxyState::Done, ProxyAction::Nothing)
    );
    assert_eq!(
        c.step(ProxyState::Done, ProxyEvent::Connect { outcome: ConnectOutcome::Failed }),
        (ProxyState::Done, ProxyAction::Nothing)
    );
}

#[test]
fn readiness_verdicts() {
    let c = client(3, 100);
    // Missing socket file.
    let missing = c.check_readiness(false, None);
    assert_eq!(missing, Err(Fault::Unavailable));
    assert_eq!(ready_response(missing, "wolf.sock not found").status, 503);
    // The socket exists and refuses.
    let refused = c.check_readiness(true, Some(ConnectOutcome::Failed));
    assert_eq!(refused, Err(Fault::Unavailable));
    let report = ready_response(refused, "refused");
    assert_eq!(report.status, 503);
    let v: serde_json::Value = serde_json::from_slice(&report.body).unwrap();
    assert_eq!(v.get("error").and_then(|x| x.as_str()), Some("UpstreamUnavailable"));
    assert_eq!(v.get("detail").and_then(|x| x.as_str()), Some("wolf.sock not reachable: refused"));
    assert_eq!(c.check_readiness(true, Some(ConnectOutcome::TimedOut)), Err(Fault::Unavailable));
    assert_eq!(c.check_readiness(true, None), Err(Fault::Unavailable));
    assert_eq!(c.check_readiness(false, Some(ConnectOutcome::Connected)), Err(Fault::Unavailable));
    // The socket accepts.
    let ready = c.check_readiness(true, Some(ConnectOutcome::Connected));
    assert_eq!(ready, Ok(()));
    let r = ready_response(ready, "");
    assert_eq!(r.status, 200);
    assert_eq!(r.body, b"{\"status\":\"ok\"}".to_vec());
    assert_eq!(r.headers, vec![]);
}

#[test]
fn response_passes_through() {
    let headers = vec![h("X-Custom", "yes"), h("Connection", "keep-alive"), h("Content-Type", "application/json")];
    let r = relay_response(201, &headers, b"{\"ok\":1}".to_vec(), HttpVersion::Http11);
    assert_eq!(r.status, 201);
    assert_eq!(r.body, b"{\"ok\":1}".to_vec());
    assert_eq!(r.headers, vec![h("X-Custom", "yes"), h("Content-Type", "application/json")]);
    assert_eq!(r.version, HttpVersion::Http11);
    let r = relay_response(204, &vec![h("Set-Cookie", "a=1"), h("Set-Cookie", "b=2")], vec![], HttpVersion::Http10);
    assert_eq!(r.headers, vec![h("Set-Cookie", "a=1"), h("Set-Cookie", "b=2")]);
    assert_eq!(r.version, HttpVersion::Http10);
}

#[test]
fn error_response_is_json() {
    let r = error_response(503, "UpstreamUnavailable", "socket \"gone\"\n");
    assert_eq!(r.status, 503);
    assert_eq!(r.headers, vec![h("content-type", "application/json")]);
    assert_eq!(r.version, HttpVersion::Http11);
    assert_ne!(r.body, b"UpstreamUnavailable".to_vec());
    let v: serde_json::Value = serde_json::from_slice(&r.body).unwrap();
    let o = v.as_object().unwrap();
    assert_eq!(o.len(), 2);
    assert_eq!(o.get("error").and_then(|x| x.as_str()), Some("UpstreamUnavailable"));
    assert_eq!(o.get("detail").and_then(|x| x.as_str()), Some("socket \"gone\"\n"));
}

#[test]
fn fault_table() {
    let table: [(Fault, u16, &str, &str); 8] = [
        (Fault::DialTimeout, 504, "UpstreamTimeout", "Wolf API request timed out: why"),
        (Fault::ReadTimeout, 504, "UpstreamTimeout", "Wolf API request timed out: why"),
        (Fault::Unavailable, 503, "UpstreamUnavailable", "Failed to connect to wolf.sock: why"),
        (Fault::InvalidUri, 400, "InvalidUri", "Failed to parse URI: why"),
        (Fault::InvalidBody, 400, "InvalidBody", "Failed to read request body: why"),
        (Fault::ResponseConversion, 502, "ResponseConversionError", "Failed to convert upstream response: why"),
        (Fault::UpstreamProtocol, 502, "UpstreamError", "Wolf API request failed: why"),
        (Fault::WebSocketUpgrade, 501, "NotImplemented", "WebSocket proxying is not yet supported"),
    ];
    for (fault, status, code, detail) in table {
        assert_eq!(fault.status(), status);
        assert_eq!(fault.code(), code);
        assert_eq!(fault.detail("why"), detail);
        let r = fault_response(fault, "why");
        assert_eq!(r.status, status);
        let v: serde_json::Value = serde_json::from_slice(&r.body).unwrap();
        assert_eq!(v.get("error").and_then(|x| x.as_str()), Some(code));
        assert_eq!(v.get("detail").and_then(|x| x.as_str()), Some(detail));
    }
}

#[test]
fn proxy_config_values() {
    let c = WolfProxyConfig::new("/var/run/wolf/wolf.sock".to_string(), 2000, 10000);
    assert_eq!(c.socket_path, "/var/run/wolf/wolf.sock");
    assert_eq!(c.connect_timeout_ms, 2000);
    assert_eq!(c.read_timeout_ms, 10000);
    assert_eq!(c.retry_attempts, 3);
    assert_eq!(c.retry_delay_ms, 500);
    let c = c.with_retry(5, 250);
    assert_eq!(c.retry_attempts, 5);
    assert_eq!(c.retry_delay_ms, 250);
    assert_eq!(c.socket_path, "/var/run/wolf/wolf.sock");
    assert_eq!(c.check(), Ok(()));
    let client = WolfProxyClient::new(c);
    assert_eq!(client.config.retry_attempts, 5);
}

#[test]
fn proxy_config_faults() {
    let good = || WolfProxyConfig::new("/s".to_string(), 1, 1);
    assert_eq!(good().check(), Ok(()));
    assert_eq!(WolfProxyConfig::new(String::new(), 1, 1).check(), Err(ConfigFault::EmptySocketPath));
    assert_eq!(WolfProxyConfig::new("/s".to_string(), 0, 1).check(), Err(ConfigFault::ZeroConnectTimeout));
    assert_eq!(WolfProxyConfig::new("/s".to_string(), 1, 0).check(), Err(ConfigFault::ZeroReadTimeout));
    assert_eq!(good().with_retry(0, 1).check(), Err(ConfigFault::NoAttempts));
    assert_eq!(good().with_retry(1, 0).check(), Ok(()));
    assert_eq!(WolfProxyConfig::new(String::new(), 0, 0).check(), Err(ConfigFault::EmptySocketPath));
}

#[test]
fn service_config_defaults() {
    let c = Config::default();
    assert_eq!(c.bind_addr, "0.0.0.0:8080");
    assert_eq!(c.db_url, "sqlite://wm.db");
    assert_eq!(c.wolf_sock_path, "/var/run/wolf/wolf.sock");
    assert_eq!(c.docker_sock_path, "/var/run/docker.sock");
    assert_eq!(c.wolf_proxy_connect_timeout_ms, 2000);
    assert_eq!(c.wolf_proxy_read_timeout_ms, 10000);
    assert_eq!(c.wolf_proxy_retry_attempts, 3);
    assert_eq!(c.wolf_proxy_retry_delay_ms, 500);
    assert_eq!(c.public_url, None);
    assert!(!c.allow_private_origins);
    let p = c.proxy_config();
    assert_eq!(p.socket_path, "/var/run/wolf/wolf.sock");
    assert_eq!(p.connect_timeout_ms, 2000);
    assert_eq!(p.read_timeout_ms, 10000);
    assert_eq!(p.retry_attempts, 3);
    assert_eq!(p.retry_delay_ms, 500);
}

#[test]
fn byte_string_helpers() {
    assert!(bytes_equal(b"abc", b"abc"));
    assert!(!bytes_equal(b"abc", b"abd"));
    assert!(!bytes_equal(b"abc", b"ab"));
    assert!(bytes_equal(b"", b""));
    assert!(bytes_equal_ignoring_case(b"Keep-Alive", b"kEEP-aLIVE"));
    assert!(!bytes_equal_ignoring_case(b"Keep-Alive", b"Keep_Alive"));
    assert!(!bytes_equal_ignoring_case(b"@", b"`"));
    assert!(!bytes_equal_ignoring_case(b"[", b"{"));
    assert!(bytes_start_with(b"127.0.0.1", b"127."));
    assert!(bytes_start_with(b"abc", b""));
    assert!(!bytes_start_with(b"12", b"127."));
    assert!(!bytes_start_with(b"128.0.0.1", b"127."));
}

#[test]
fn test_mock_passthrough() {
    let client = MockWolfApi::default();
    let response = client.send_passthrough(b"GET", b"/test", &None);

    assert_eq!(response, b"{\"mock\":true}".to_vec());
}

#[test]
fn test_mock_sse_stream() {
    let client = MockWolfApi::default();
    let stream = client.sse_stream(b"/events");

    let event = stream.first();
    assert!(event.is_some());
    assert_eq!(stream, vec![b"data: {\"type\":\"mock\"}\n\n".to_vec()]);
}

#[test]
fn config_overrides() {
    let given = Overrides {
        bind_addr: Some("127.0.0.1:9000".to_string()),
        db_url: Some(String::new()),
        wolf_sock_path: None,
        docker_sock_path: Some("/run/docker.sock".to_string()),
        connect_timeout_ms: Some("250".to_string()),
        read_timeout_ms: Some("soon".to_string()),
        retry_attempts: Some("7".to_string()),
        retry_delay_ms: Some("-1".to_string()),
        public_url: Some("https://app.example.com".to_string()),
        allow_private_origins: Some("TRUE".to_string()),
    };
    let c = Config::default().load(&given);
    assert_eq!(c.bind_addr, "127.0.0.1:9000");
    assert_eq!(c.db_url, "sqlite://wm.db");
    assert_eq!(c.wolf_sock_path, "/var/run/wolf/wolf.sock");
    assert_eq!(c.docker_sock_path, "/run/docker.sock");
    assert_eq!(c.wolf_proxy_connect_timeout_ms, 250);
    assert_eq!(c.wolf_proxy_read_timeout_ms, 10000);
    assert_eq!(c.wolf_proxy_retry_attempts, 7);
    assert_eq!(c.wolf_proxy_retry_delay_ms, 500);
    assert_eq!(c.public_url, Some("https://app.example.com".to_string()));
    assert!(c.allow_private_origins);
    let c = Config::default().load(&Overrides::default());
    assert_eq!(c.public_url, None);
    assert!(!c.allow_private_origins);
    assert_eq!(c.bind_addr, "0.0.0.0:8080");
    assert_eq!(c.wolf_proxy_retry_attempts, 3);
    let c = Config::default().with_values(&Overrides::default(), Some(1), None, Some(2), Some(3));
    assert_eq!(c.wolf_proxy_connect_timeout_ms, 1);
    assert_eq!(c.wolf_proxy_read_timeout_ms, 10000);
    assert_eq!(c.wolf_proxy_retry_attempts, 2);
    assert_eq!(c.wolf_proxy_retry_delay_ms, 3);
    let c = Config::default().load(&Overrides {
        retry_attempts: Some("4294967296".to_string()),
        retry_delay_ms: Some("18446744073709551615".to_string()),
        ..Overrides::default()
    });
    assert_eq!(c.wolf_proxy_retry_attempts, 3);
    assert_eq!(c.wolf_proxy_retry_delay_ms, u64::MAX);
}

fn pairs_of(map: &HeaderMap) -> Vec<Header> {
    map.iter()
        .map(|(n, v)| Header { name: n.as_str().as_bytes().to_vec(), value: v.as_bytes().to_vec() })
        .collect()
}

#[test]
fn config_switch_and_public_url() {
    let with = |text: &str| {
        Config::default()
            .load(&Overrides { allow_private_origins: Some(text.to_string()), ..Overrides::default() })
            .allow_private_origins
    };
    assert!(with("1"));
    assert!(with("true"));
    assert!(with("True"));
    assert!(!with("yes"));
    assert!(!with("0"));
    assert!(!with(""));
    assert!(!with("11"));
    let mut on = Config::default();
    on.allow_private_origins = true;
    on.public_url = Some("https://a.example".to_string());
    let kept = on.clone().load(&Overrides::default());
    assert!(kept.allow_private_origins);
    assert_eq!(kept.public_url, Some("https://a.example".to_string()));
    let off = on.load(&Overrides {
        allow_private_origins: Some("false".to_string()),
        public_url: Some(String::new()),
        ..Overrides::default()
    });
    assert!(!off.allow_private_origins);
    assert_eq!(off.public_url, Some("https://a.example".to_string()));
}

#[test]
fn config_is_checked_when_loaded() {
    let set = |f: fn(&mut Overrides)| {
        let mut o = Overrides::default();
        f(&mut o);
        Config::default().load_checked(&o).map(|c| c.wolf_proxy_connect_timeout_ms)
    };
    assert_eq!(set(|_| {}), Ok(2000));
    assert_eq!(set(|o| o.connect_timeout_ms = Some("5".to_string())), Ok(5));
    assert_eq!(
        set(|o| o.connect_timeout_ms = Some("0".to_string())),
        Err(ConfigFault::ZeroConnectTimeout)
    );
    assert_eq!(set(|o| o.read_timeout_ms = Some("0".to_string())), Err(ConfigFault::ZeroReadTimeout));
    assert_eq!(set(|o| o.retry_attempts = Some("0".to_string())), Err(ConfigFault::NoAttempts));
    assert_eq!(set(|o| o.retry_delay_ms = Some("0".to_string())), Ok(2000));
    // An empty override leaves the socket path as it was.
    assert_eq!(set(|o| o.wolf_sock_path = Some(String::new())), Ok(2000));
    let mut bare = Config::default();
    bare.wolf_sock_path = String::new();
    assert_eq!(
        bare.clone().load_checked(&Overrides::default()).map(|c| c.bind_addr),
        Err(ConfigFault::EmptySocketPath)
    );
    assert_eq!(bare.checked().map(|c| c.bind_addr), Err(ConfigFault::EmptySocketPath));
    assert!(Config::default().checked().is_ok());
}

#[test]
fn map_is_filled_from_a_list() {
    let list = vec![h("X-Custom", "yes"), h("Set-Cookie", "a=1"), h("set-cookie", "b=2")];
    let map = fill_map(&list).unwrap();
    assert_eq!(map.len(), 3);
    assert_eq!(
        pairs_of(&map),
        vec![h("x-custom", "yes"), h("set-cookie", "a=1"), h("set-cookie", "b=2")]
    );
    assert_eq!(fill_map(&vec![]).unwrap().len(), 0);
    // The map refuses a name with a blank and a value with a line break.
    assert!(fill_map(&vec![h("bad name", "x")]).is_none());
    assert!(fill_map(&vec![h("name", "a\nb")]).is_none());
    assert!(fill_map(&vec![h("", "x")]).is_none());
    assert!(fill_map(&vec![h("ok", "x"), h("na:me", "x")]).is_none());
    assert!(fill_map(&vec![h("name", "a\u{7f}")]).is_none());
    assert!(fill_map(&vec![h("name", "tab\there"), h("!#$%&'*+-.^_`|~09az", "")]).is_some());
}

#[test]
fn map_keeps_the_headers_of_a_name_together() {
    let list = vec![h("a", "1"), h("b", "2"), h("A", "3"), h("c", "4"), h("b", "5")];
    let map = fill_map(&list).unwrap();
    assert_eq!(
        pairs_of(&map),
        vec![h("a", "1"), h("a", "3"), h("b", "2"), h("b", "5"), h("c", "4")]
    );
}

#[test]
fn map_takes_many_headers() {
    let mut list = Vec::new();
    for i in 0..4096 {
        list.push(h(&format!("x-h{}", i), "v"));
    }
    let map = fill_map(&list).unwrap();
    assert_eq!(map.len(), 4096);
    let long_name = "n".repeat(65535);
    assert!(fill_map(&vec![h(&long_name, "v")]).is_some());
    let too_long = "n".repeat(65536);
    assert!(fill_map(&vec![h(&too_long, "v")]).is_none());
}

#[test]
fn response_from_a_map_passes_through() {
    let mut map = HeaderMap::new();
    map.append("x-custom", HeaderValue::from_static("yes"));
    map.append("connection", HeaderValue::from_static("keep-alive"));
    map.append("Keep-Alive", HeaderValue::from_static("timeout=5"));
    map.append("set-cookie", HeaderValue::from_static("a=1"));
    map.append("set-cookie", HeaderValue::from_static("b=2"));
    let r = relay_from_map(201, &map, b"{\"ok\":1}".to_vec(), HttpVersion::Http11);
    assert_eq!(r.status, 201);
    assert_eq!(r.body, b"{\"ok\":1}".to_vec());
    assert_eq!(r.version, HttpVersion::Http11);
    assert_eq!(
        r.headers,
        vec![h("x-custom", "yes"), h("set-cookie", "a=1"), h("set-cookie", "b=2")]
    );
}

#[test]
fn request_from_a_map_goes_upstream() {
    let mut map = HeaderMap::new();
    map.append("host", HeaderValue::from_static("example.org"));
    map.append("te", HeaderValue::from_static("trailers"));
    map.append("accept", HeaderValue::from_static("a"));
    map.append("host", HeaderValue::from_static("second.example.org"));
    let e = plan_from_map(
        b"GET",
        b"/wolfapi/api/v1/foo",
        &Some(b"x=1".to_vec()),
        &map,
        Some(vec![]),
        &Some(b"203.0.113.9".to_vec()),
    )
    .unwrap();
    assert_eq!(e.uri, b"/api/v1/foo?x=1".to_vec());
    assert_eq!(
        e.headers,
        vec![
            h("host", "example.org"),
            h("host", "second.example.org"),
            h("accept", "a"),
            h("x-forwarded-for", "203.0.113.9"),
            h("x-forwarded-proto", "http"),
            h("x-forwarded-host", "example.org"),
        ]
    );
    let mut upgrade = HeaderMap::new();
    upgrade.append("upgrade", HeaderValue::from_static("websocket"));
    assert_eq!(
        plan_from_map(b"GET", b"/wolfapi/ws", &None, &upgrade, Some(vec![]), &None),
        Err(Fault::WebSocketUpgrade)
    );
    assert_eq!(
        refuse_early_from_map(b"/wolfapi/ws", &None, &upgrade),
        Some(Fault::WebSocketUpgrade)
    );
    assert_eq!(refuse_early_from_map(b"/wolfapi/a b", &None, &map), Some(Fault::InvalidUri));
    assert_eq!(refuse_early_from_map(b"/wolfapi/ok", &None, &map), None);
}

#[test]
fn refusal_before_the_body() {
    let ws = vec![h("Upgrade", "websocket")];
    assert_eq!(refuse_early(b"foo", &None, &ws), Some(Fault::WebSocketUpgrade));
    assert_eq!(refuse_early(b"foo", &None, &vec![]), Some(Fault::InvalidUri));
    assert_eq!(refuse_early(b"", &None, &vec![]), Some(Fault::InvalidUri));
    assert_eq!(refuse_early(b"/wolfapi", &None, &vec![]), None);
    assert_eq!(refuse_early(b"/wolfapi/x", &Some(b"a=1".to_vec()), &vec![]), None);
}

#[test]
fn routes() {
    assert_eq!(route_of(b"GET", b"/wolfapi/_ready"), Route::Ready);
    assert_eq!(route_of(b"GET", b"/_ready"), Route::Ready);
    assert_eq!(route_of(b"POST", b"/wolfapi/_ready"), Route::Passthrough);
    assert_eq!(route_of(b"get", b"/wolfapi/_ready"), Route::Passthrough);
    assert_eq!(route_of(b"GET", b"/wolfapi/_ready/"), Route::Passthrough);
    assert_eq!(route_of(b"GET", b"/wolfapi/api/v1/apps"), Route::Passthrough);
    assert_eq!(route_of(b"GET", b"/wolfapi"), Route::Passthrough);
    assert_eq!(route_of(b"GET", b"/wolfapi_ready"), Route::Passthrough);
    assert_eq!(route_of(b"DELETE", b"/wolfapi/x"), Route::Passthrough);
}

#[test]
fn numbers_are_read_as_the_standard_library_reads_them() {
    let texts = [
        "0", "7", "007", "+5", "+", "", "-", "-0", "-5", "++5", "5+", " 5", "5 ", "5_000", "1e3",
        "0x10", "٣", "12a", "4294967295", "4294967296", "+4294967295", "18446744073709551615",
        "18446744073709551616", "+18446744073709551615", "99999999999999999999999999",
        "000000000000000000000000000001", "184467440737095516150", "42949672950",
    ];
    for t in texts {
        assert_eq!(parse_u64(t), t.parse::<u64>().ok(), "{:?}", t);
        assert_eq!(parse_u32(t), t.parse::<u32>().ok(), "{:?}", t);
    }
    assert_eq!(parse_u64("18446744073709551615"), Some(u64::MAX));
    assert_eq!(parse_u64("18446744073709551616"), None);
    assert_eq!(parse_u32("4294967295"), Some(u32::MAX));
    assert_eq!(parse_u32("4294967296"), None);
    assert_eq!(parse_u64("+12"), Some(12));
    assert_eq!(parse_u64("+"), None);
}
