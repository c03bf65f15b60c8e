use rpc_relay::endpoint::Endpoint;
use rpc_relay::errors::RelayError;
use rpc_relay::store::{endpoint_query, first_endpoint, missing_definitions, StoreConfig};

fn config() -> StoreConfig {
    StoreConfig::new("http://localhost:8000/sql", "admin", "admin", "test", "test")
}

#[test]
fn auth_header_encodes_the_credentials() {
    let cfg = config();
    // base64 of "admin:admin" under the standard alphabet.
    assert_eq!(cfg.auth_header_value(), "Basic YWRtaW46YWRtaW4=");
    let other = StoreConfig::new("http://localhost:8000/sql", "root", "s3cret", "test", "test");
    assert_eq!(
        other.auth_header_value(),
        format!("Basic {}", base64::encode("root:s3cret"))
    );
}

#[test]
fn query_headers_carry_namespace_database_and_credentials() {
    let cfg = config();
    let headers = cfg.query_headers();
    assert_eq!(headers.len(), 4);
    assert_eq!(headers[0], ("Accept".to_string(), "application/json".to_string()));
    assert_eq!(headers[1], ("NS".to_string(), "test".to_string()));
    assert_eq!(headers[2], ("DB".to_string(), "test".to_string()));
    assert_eq!(
        headers[3],
        ("Authorization".to_string(), "Basic YWRtaW46YWRtaW4=".to_string())
    );
}

#[test]
fn endpoint_query_names_the_identifier() {
    let id = String::from("endpoint:jplluhvaqi5oyajvnhh6");
    assert_eq!(
        endpoint_query(&id),
        "SELECT * FROM endpoint WHERE id == endpoint:jplluhvaqi5oyajvnhh6;"
    );
}

#[test]
fn first_endpoint_of_an_empty_result_is_not_found() {
    match first_endpoint(Vec::new()) {
        Err(RelayError::EndpointNotFound) => {},
        _ => panic!("expected EndpointNotFound"),
    }
}

#[test]
fn first_endpoint_takes_the_first_record() {
    let records = vec![
        Endpoint {
            id: String::from("e1"),
            name: String::from("one"),
            rpc_http: String::from("http://a/rpc"),
            rpc_ws: None,
            enabled: true,
            is_dev: false,
            date_added: String::from("2023-03-06T13:52:26Z"),
            explorer_url: None,
        },
        Endpoint {
            id: String::from("e2"),
            name: String::from("two"),
            rpc_http: String::from("http://b/rpc"),
            rpc_ws: None,
            enabled: true,
            is_dev: false,
            date_added: String::from("2023-03-06T13:52:26Z"),
            explorer_url: None,
        },
    ];
    let first = first_endpoint(records).unwrap();
    assert_eq!(first.id, "e1");
}

#[test]
fn missing_definitions_flag_exactly_the_absent_names() {
    let tables = vec![String::from("user"), String::from("endpoint")];
    let scopes: Vec<String> = Vec::new();
    let plan = missing_definitions(&tables, &scopes);
    assert!(!plan.create_user_table);
    assert!(plan.create_scope);
    assert!(!plan.create_endpoint_table);

    let no_tables: Vec<String> = Vec::new();
    let scopes = vec![String::from("allusers")];
    let plan = missing_definitions(&no_tables, &scopes);
    assert!(plan.create_user_table);
    assert!(!plan.create_scope);
    assert!(plan.create_endpoint_table);
}
