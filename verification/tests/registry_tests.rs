use rpc_relay::directory::Directory;
use rpc_relay::endpoint::Endpoint;
use rpc_relay::errors::{RegistryError, RelayError};

fn endpoint(id: &str, name: &str, rpc_http: &str, rpc_ws: Option<&str>) -> Endpoint {
    Endpoint {
        id: id.to_string(),
        name: name.to_string(),
        rpc_http: rpc_http.to_string(),
        rpc_ws: rpc_ws.map(|u| u.to_string()),
        enabled: true,
        is_dev: false,
        date_added: String::from("2023-03-06T13:52:26Z"),
        explorer_url: None,
    }
}

#[test]
fn create_then_get_resolves_by_id() {
    let mut directory = Directory::new();
    directory.create(endpoint("e1", "one", "http://upstream/rpc", None)).unwrap();
    let id = String::from("e1");
    let found = directory.get(&id).unwrap();
    assert_eq!(found.rpc_http, "http://upstream/rpc");
    assert_eq!(found.name, "one");
}

#[test]
fn get_unknown_id_is_not_found() {
    let directory = Directory::new();
    let id = String::from("endpoint:missing");
    match directory.get(&id) {
        Err(RelayError::EndpointNotFound) => {},
        _ => panic!("expected EndpointNotFound"),
    }
}

#[test]
fn duplicate_name_is_rejected_trimmed_and_case_insensitive() {
    let mut directory = Directory::new();
    directory.create(endpoint("e1", "Mainnet", "http://a/rpc", None)).unwrap();
    match directory.create(endpoint("e2", "  mainNET ", "http://b/rpc", None)) {
        Err(RegistryError::DuplicateName) => {},
        _ => panic!("expected DuplicateName"),
    }
    // A genuinely different name passes.
    directory.create(endpoint("e2", "testnet", "http://b/rpc", None)).unwrap();
}

#[test]
fn duplicate_id_is_rejected() {
    let mut directory = Directory::new();
    directory.create(endpoint("e1", "one", "http://a/rpc", None)).unwrap();
    match directory.create(endpoint("e1", "two", "http://b/rpc", None)) {
        Err(RegistryError::DuplicateId) => {},
        _ => panic!("expected DuplicateId"),
    }
}

#[test]
fn update_replaces_the_record() {
    let mut directory = Directory::new();
    directory.create(endpoint("e1", "one", "http://old/rpc", None)).unwrap();
    let id = String::from("e1");
    directory.update(&id, endpoint("e1", "one", "http://new/rpc", Some("ws://new/ws"))).unwrap();
    let found = directory.get(&id).unwrap();
    assert_eq!(found.rpc_http, "http://new/rpc");
    assert_eq!(found.rpc_ws.as_deref(), Some("ws://new/ws"));
}

#[test]
fn update_unknown_id_is_not_found() {
    let mut directory = Directory::new();
    let id = String::from("e1");
    match directory.update(&id, endpoint("e1", "one", "http://a/rpc", None)) {
        Err(RelayError::EndpointNotFound) => {},
        _ => panic!("expected EndpointNotFound"),
    }
}

#[test]
fn delete_removes_the_record() {
    let mut directory = Directory::new();
    directory.create(endpoint("e1", "one", "http://a/rpc", None)).unwrap();
    directory.create(endpoint("e2", "two", "http://b/rpc", None)).unwrap();
    let id = String::from("e1");
    directory.delete(&id).unwrap();
    assert!(directory.get(&id).is_err());
    let other = String::from("e2");
    assert!(directory.get(&other).is_ok());
    assert_eq!(directory.list().len(), 1);
}

#[test]
fn delete_unknown_id_is_not_found() {
    let mut directory = Directory::new();
    let id = String::from("e1");
    match directory.delete(&id) {
        Err(RelayError::EndpointNotFound) => {},
        _ => panic!("expected EndpointNotFound"),
    }
}

#[test]
fn list_returns_every_registered_endpoint() {
    let mut directory = Directory::new();
    assert!(directory.list().is_empty());
    directory.create(endpoint("e1", "one", "http://a/rpc", None)).unwrap();
    directory.create(endpoint("e2", "two", "http://b/rpc", None)).unwrap();
    let names: Vec<String> = directory.list().iter().map(|e| e.name.clone()).collect();
    assert_eq!(names, vec![String::from("one"), String::from("two")]);
}

#[test]
fn descriptor_validation_passes() {
    let ep = endpoint("e1", "one", "http://a/rpc", None);
    assert_eq!(ep.validate(), Ok(true));
    assert_eq!(ep.test_connection(), Ok(true));
}

#[test]
fn duplicate_copies_every_field() {
    let ep = endpoint("e1", "one", "http://a/rpc", Some("ws://a/ws"));
    let copy = ep.duplicate();
    assert_eq!(copy.id, ep.id);
    assert_eq!(copy.name, ep.name);
    assert_eq!(copy.rpc_http, ep.rpc_http);
    assert_eq!(copy.rpc_ws, ep.rpc_ws);
    assert_eq!(copy.enabled, ep.enabled);
    assert_eq!(copy.is_dev, ep.is_dev);
    assert_eq!(copy.date_added, ep.date_added);
    assert_eq!(copy.explorer_url, ep.explorer_url);
}

#[test]
fn errors_map_to_their_status_codes() {
    assert_eq!(RelayError::EndpointNotFound.status_code(), 404);
    assert_eq!(RelayError::UnsupportedTransport.status_code(), 400);
    assert_eq!(RelayError::UpstreamUnreachable.status_code(), 502);
    assert_eq!(RelayError::EndpointNotPublishing.status_code(), 404);
    assert_eq!(RelayError::ConsumerLagged.status_code(), 500);
}

#[test]
fn errors_describe_themselves() {
    assert_eq!(RelayError::EndpointNotFound.describe(), "endpoint not found");
    assert_eq!(
        RelayError::UnsupportedTransport.describe(),
        "endpoint does not support duplex RPC"
    );
    assert_eq!(
        RelayError::UpstreamUnreachable.describe(),
        "upstream endpoint unreachable"
    );
    assert_eq!(
        RelayError::EndpointNotPublishing.describe(),
        "no event publisher exists for this endpoint"
    );
    assert_eq!(
        RelayError::ConsumerLagged.describe(),
        "subscriber lagged behind the publisher"
    );
    assert_eq!(
        RegistryError::DuplicateName.describe(),
        "an endpoint with that name already exists"
    );
    assert_eq!(
        RegistryError::DuplicateId.describe(),
        "an endpoint with that identifier already exists"
    );
}
