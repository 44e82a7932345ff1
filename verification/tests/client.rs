use hello_rs::grpc_client::{
    checked_metadata_entry, metadata_entry, ClientError, Config, HelloTonicClient, InjectError,
};
use hello_rs::grpc_server::header_value_text;
use hello_rs::metadata::header_name_valid;
use hello_rs::grpc_server::Config as GrpcConfig;
use hello_rs::http_server::Config as HttpConfig;
use hello_rs::net::IpAddress;

#[test]
fn client_accepts_uri() {
    let client = HelloTonicClient::new(Config { endpoint: "http://localhost:9090".to_string() });
    let client = client.ok().expect("valid endpoint");
    assert_eq!(client.endpoint().uri().to_string(), "http://localhost:9090/");
}

#[test]
fn client_rejects_invalid_uri() {
    for endpoint in ["", "http://local host:9090", "http://[::1:9090"] {
        match HelloTonicClient::new(Config { endpoint: endpoint.to_string() }) {
            Err(ClientError::InvalidEndpoint { endpoint: e }) => assert_eq!(e, endpoint),
            Ok(_) => panic!("{endpoint} accepted"),
        }
    }
}

#[test]
fn client_error_message() {
    let error = ClientError::InvalidEndpoint { endpoint: "foo bar".to_string() };
    assert_eq!(error.message(), "Cannot create endpoint for happy-hacking-grpc from foo bar");
}

#[test]
fn metadata_entry_for_trace_context() {
    let value = "00-4bf92f3577b34da6a3ce929d0e0e4736-00f067aa0ba902b7-01".to_string();
    let entry = metadata_entry("traceparent", &value).ok().expect("valid entry");
    assert_eq!(entry.key.into_raw().0.as_str(), "traceparent");
    assert_eq!(entry.value.into_raw().0.to_str().unwrap(), value);
}

#[test]
fn metadata_entry_normalizes_key() {
    let entry = metadata_entry("TraceState", &"a=b".to_string()).ok().expect("valid entry");
    assert_eq!(entry.key.into_raw().0.as_str(), "tracestate");
}

#[test]
fn metadata_entry_invalid_key() {
    match metadata_entry("trace parent", &"x".to_string()) {
        Err(InjectError::InvalidKey { key }) => assert_eq!(key, "trace parent"),
        _ => panic!("expected an invalid key"),
    }
    match metadata_entry("", &"x\u{1}".to_string()) {
        Err(InjectError::InvalidKey { key }) => assert_eq!(key, ""),
        _ => panic!("expected an invalid key"),
    }
}

#[test]
fn metadata_entry_invalid_value() {
    match metadata_entry("tracestate", &"a=\nb".to_string()) {
        Err(InjectError::InvalidValue { value }) => assert_eq!(value, "a=\nb"),
        _ => panic!("expected an invalid value"),
    }
    assert!(metadata_entry("tracestate", &"a=\u{7f}".to_string()).is_err());
}

#[test]
fn metadata_entry_accepts_tab_and_high_bytes() {
    assert!(metadata_entry("tracestate", &"a\tb".to_string()).is_ok());
    assert!(metadata_entry("tracestate", &"é".to_string()).is_ok());
}

#[test]
fn inject_error_messages() {
    let key = InjectError::InvalidKey { key: "a b".to_string() };
    assert_eq!(key.message(), "Cannot parse a b as metadata value");
    let value = InjectError::InvalidValue { value: "x\ny".to_string() };
    assert_eq!(value.message(), "Cannot parse x\ny as metadata value");
}

#[test]
fn checked_metadata_entry_refuses_binary_keys() {
    assert!(checked_metadata_entry("grpc-status-details-bin", &"x".to_string()).is_none());
    assert!(checked_metadata_entry("Trace-BIN", &"x".to_string()).is_none());
}

#[test]
fn checked_metadata_entry_passes_others_through() {
    assert!(matches!(
        checked_metadata_entry("bad key-bin", &"x".to_string()),
        Some(Err(InjectError::InvalidKey { .. }))
    ));
    assert!(matches!(checked_metadata_entry("traceparent", &"x".to_string()), Some(Ok(_))));
    assert!(matches!(checked_metadata_entry("bin", &"x".to_string()), Some(Ok(_))));
}

#[test]
fn http_socket_addr() {
    let config = HttpConfig { addr: IpAddress::V4([127, 0, 0, 1]), port: 8080 };
    let addr = config.socket_addr();
    assert_eq!(addr.port, 8080);
    assert!(matches!(addr.ip, IpAddress::V4([127, 0, 0, 1])));
}

#[test]
fn grpc_socket_addr() {
    let mut v6 = [0u8; 16];
    v6[15] = 1;
    let config = GrpcConfig { addr: IpAddress::V6(v6), port: 9090, delay_millis: 250 };
    let addr = config.socket_addr();
    assert_eq!(addr.port, 9090);
    assert!(matches!(addr.ip, IpAddress::V6(octets) if octets == v6));
    assert_eq!(config.delay_millis, 250);
}

#[test]
fn extracted_header_text_can_be_injected() {
    for raw in [&b"00-4bf92f3577b34da6a3ce929d0e0e4736-00f067aa0ba902b7-01"[..], b"a=1,\tb=2", b""] {
        let text = header_value_text(raw).expect("visible ASCII");
        assert!(metadata_entry("traceparent", &text.to_string()).is_ok());
    }
}

#[test]
fn header_name_validity() {
    assert!(header_name_valid(b"traceparent"));
    assert!(header_name_valid(b"X-Trace_Id.1!#$%&'*+^`|~\""));
    assert!(!header_name_valid(b""));
    assert!(!header_name_valid(b"trace parent"));
    assert!(!header_name_valid(b"trace:parent"));
    assert!(!header_name_valid("tr\u{e9}ce".as_bytes()));
    assert!(header_name_valid(&vec![b'a'; 65535]));
    assert!(!header_name_valid(&vec![b'a'; 65536]));
}

#[test]
fn metadata_entry_keeps_value_bytes() {
    let value = "k=v\t\u{e9}".to_string();
    let entry = metadata_entry("State", &value).ok().expect("valid entry");
    assert_eq!(entry.key.into_raw().0.as_str(), "state");
    assert_eq!(entry.value.into_raw().0.as_encoded_bytes(), value.as_bytes());
}
