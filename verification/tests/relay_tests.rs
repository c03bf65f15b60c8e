use rpc_relay::directory::Directory;
use rpc_relay::endpoint::Endpoint;
use rpc_relay::errors::RelayError;
use rpc_relay::events::{next_event, subscribe_stream, StreamStep};
use rpc_relay::hub::Hub;
use rpc_relay::relay::{complete_http_relay, prepare_http_relay, HttpResponse, RelayRequest};

fn endpoint(id: &str, name: &str, rpc_http: &str, rpc_ws: Option<&str>) -> Endpoint {
    Endpoint {
        id: id.to_string(),
        name: name.to_string(),
        rpc_http: rpc_http.to_string(),
        rpc_ws: rpc_ws.map(|u| u.to_string()),
        enabled: true,
        is_dev: false,
        date_added: String::from("2023-03-06T13:52:26Z"),
        explorer_url: None,
    }
}

fn request(method: &str, headers: &[(&[u8], &[u8])], body: &[u8]) -> RelayRequest {
    RelayRequest {
        method: method.to_string(),
        headers: headers.iter().map(|(n, v)| (n.to_vec(), v.to_vec())).collect(),
        body: body.to_vec(),
    }
}

#[test]
fn unknown_endpoint_is_not_found() {
    let directory = Directory::new();
    let id = String::from("endpoint:missing");
    let req = request("POST", &[], b"{}");
    match prepare_http_relay(&directory, &id, req) {
        Err(RelayError::EndpointNotFound) => {},
        _ => panic!("expected EndpointNotFound"),
    }
}

#[test]
fn prepare_rewrites_target_and_strips_hop_headers() {
    let mut directory = Directory::new();
    directory.create(endpoint("e1", "one", "https://rpc.example/rpc", None)).unwrap();
    let id = String::from("e1");
    let req = request(
        "POST",
        &[
            (b"host", b"proxy.local"),
            (b"Content-Length", b"42"),
            (b"content-type", b"application/json"),
        ],
        b"{\"jsonrpc\":\"2.0\",\"id\":1,\"method\":\"eth_chainId\"}",
    );
    let prepared = prepare_http_relay(&directory, &id, req).unwrap();
    assert_eq!(prepared.url, "https://rpc.example/rpc");
    assert_eq!(prepared.method, "POST");
    assert_eq!(prepared.body, b"{\"jsonrpc\":\"2.0\",\"id\":1,\"method\":\"eth_chainId\"}".to_vec());
    assert_eq!(
        prepared.headers,
        vec![(b"content-type".to_vec(), b"application/json".to_vec())]
    );
}

#[test]
fn transport_failure_is_upstream_unreachable() {
    let mut hub = Hub::new(2);
    let id = String::from("e1");
    match complete_http_relay(&mut hub, &id, None) {
        Err(RelayError::UpstreamUnreachable) => {},
        _ => panic!("expected UpstreamUnreachable"),
    }
    // A failed call must not have created or fed a fan-out entry.
    match hub.subscribe(&id) {
        Err(RelayError::EndpointNotPublishing) => {},
        _ => panic!("expected no entry after a failed relay"),
    }
}

#[test]
fn upstream_status_and_body_are_returned_unchanged() {
    let mut hub = Hub::new(2);
    let id = String::from("e1");
    let out = complete_http_relay(
        &mut hub,
        &id,
        Some(HttpResponse { status: 502, body: b"bad gateway".to_vec() }),
    )
    .unwrap();
    assert_eq!(out.status, 502);
    assert_eq!(out.body, b"bad gateway".to_vec());
}

#[test]
fn relay_round_trip_feeds_a_prior_subscriber() {
    // Register the endpoint, seed its fan-out entry with one relay call,
    // open a subscriber, then relay the canonical chain-id request: the
    // caller gets the upstream bytes back unchanged and the subscriber
    // receives one event carrying exactly the same bytes.
    let mut directory = Directory::new();
    directory.create(endpoint("e1", "one", "http://upstream/rpc", None)).unwrap();
    let id = String::from("e1");
    let mut hub = Hub::new(2);

    let seed = prepare_http_relay(&directory, &id, request("POST", &[], b"{}")).unwrap();
    assert_eq!(seed.url, "http://upstream/rpc");
    complete_http_relay(
        &mut hub,
        &id,
        Some(HttpResponse { status: 200, body: b"seed".to_vec() }),
    )
    .unwrap();

    let mut sub = subscribe_stream(&directory, &hub, &id).unwrap();

    let req = request(
        "POST",
        &[(b"content-type", b"application/json")],
        b"{\"jsonrpc\":\"2.0\",\"id\":1,\"method\":\"eth_chainId\"}",
    );
    let prepared = prepare_http_relay(&directory, &id, req).unwrap();
    assert_eq!(prepared.url, "http://upstream/rpc");
    let upstream_body = b"{\"id\":1,\"result\":\"0x1\",\"jsonrpc\":\"2.0\"}\n".to_vec();
    let out = complete_http_relay(
        &mut hub,
        &id,
        Some(HttpResponse { status: 200, body: upstream_body.clone() }),
    )
    .unwrap();
    assert_eq!(out.status, 200);
    assert_eq!(out.body, upstream_body);

    match next_event(&hub, &mut sub) {
        StreamStep::Event(data) => assert_eq!(data, upstream_body),
        other => panic!("expected the relayed body as an event, got {:?}", other),
    }
    match next_event(&hub, &mut sub) {
        StreamStep::Pending => {},
        other => panic!("expected no further events, got {:?}", other),
    }
}

#[test]
fn subscription_surface_checks_directory_first() {
    let directory = Directory::new();
    let hub = Hub::new(2);
    let id = String::from("endpoint:missing");
    match subscribe_stream(&directory, &hub, &id) {
        Err(RelayError::EndpointNotFound) => {},
        _ => panic!("expected EndpointNotFound"),
    }
}

#[test]
fn subscription_before_any_relay_activity_fails() {
    let mut directory = Directory::new();
    directory.create(endpoint("e1", "one", "http://upstream/rpc", None)).unwrap();
    let hub = Hub::new(2);
    let id = String::from("e1");
    match subscribe_stream(&directory, &hub, &id) {
        Err(RelayError::EndpointNotPublishing) => {},
        _ => panic!("expected EndpointNotPublishing"),
    }
}

#[test]
fn lagged_subscription_stream_ends() {
    let mut directory = Directory::new();
    directory.create(endpoint("e1", "one", "http://upstream/rpc", None)).unwrap();
    let id = String::from("e1");
    let mut hub = Hub::new(2);
    complete_http_relay(&mut hub, &id, Some(HttpResponse { status: 200, body: b"seed".to_vec() }))
        .unwrap();
    let mut sub = subscribe_stream(&directory, &hub, &id).unwrap();
    for n in 0..3u8 {
        complete_http_relay(
            &mut hub,
            &id,
            Some(HttpResponse { status: 200, body: vec![n] }),
        )
        .unwrap();
    }
    match next_event(&hub, &mut sub) {
        StreamStep::Ended => {},
        other => panic!("expected the stream to end on lag, got {:?}", other),
    }
}
