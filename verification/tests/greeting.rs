use hello_rs::greeting::{local_reponse, unknown_stranger};
use hello_rs::grpc_client::hello_request_name;
use hello_rs::grpc_server::say_hello_text;
use hello_rs::http_server::{
    hello, proxy_response, HelloAction, NameQuery, ProxyQuery, STATUS_INTERNAL_SERVER_ERROR,
    STATUS_OK,
};

fn local(name: Option<&str>) -> String {
    match hello(NameQuery { name: name.map(|n| n.to_string()) }, ProxyQuery { proxy: false }, true) {
        HelloAction::Respond { status, body } => {
            assert_eq!(status, 200);
            body
        }
        HelloAction::Proxy { .. } => panic!("expected a local response"),
    }
}

fn proxied(name: Option<&str>) -> String {
    match hello(NameQuery { name: name.map(|n| n.to_string()) }, ProxyQuery { proxy: true }, true) {
        HelloAction::Proxy { name } => {
            let reply = say_hello_text(hello_request_name(name));
            let (status, body) = proxy_response::<()>(Ok(reply));
            assert_eq!(status, 200);
            body
        }
        HelloAction::Respond { .. } => panic!("expected a proxied response"),
    }
}

#[test]
fn local_reponse_greets_by_name() {
    assert_eq!(local_reponse("Max"), "Hello, Max!");
    assert_eq!(local_reponse(""), "Hello, !");
    assert_eq!(local_reponse("Jürgen Müller"), "Hello, Jürgen Müller!");
}

#[test]
fn unknown_stranger_text() {
    assert_eq!(unknown_stranger(), "unknown stranger");
}

#[test]
fn hello_without_name_greets_stranger() {
    assert_eq!(local(None), "Hello, unknown stranger!");
}

#[test]
fn hello_with_name() {
    assert_eq!(local(Some("Max")), "Hello, Max!");
}

#[test]
fn hello_with_empty_name_keeps_it() {
    assert_eq!(local(Some("")), "Hello, !");
}

#[test]
fn hello_with_proxy_forwards_the_name() {
    match hello(NameQuery { name: Some("Max".to_string()) }, ProxyQuery { proxy: true }, true) {
        HelloAction::Proxy { name } => assert_eq!(name, Some("Max".to_string())),
        other => panic!("unexpected {other:?}"),
    }
    match hello(NameQuery { name: None }, ProxyQuery { proxy: true }, true) {
        HelloAction::Proxy { name } => assert_eq!(name, None),
        other => panic!("unexpected {other:?}"),
    }
}

#[test]
fn proxy_response_passes_reply_through() {
    let (status, body) = proxy_response::<String>(Ok("Hello, Max!".to_string()));
    assert_eq!(status, STATUS_OK);
    assert_eq!(body, "Hello, Max!");
}

#[test]
fn proxy_response_on_failure() {
    let (status, body) = proxy_response(Err("connection refused".to_string()));
    assert_eq!(status, STATUS_INTERNAL_SERVER_ERROR);
    assert_eq!(status, 500);
    assert_eq!(body, "Cannot get response from hello-tonic");
}

#[test]
fn say_hello_text_greets_by_name() {
    assert_eq!(say_hello_text("Max".to_string()), "Hello, Max!");
}

#[test]
fn say_hello_text_empty_name_is_stranger() {
    assert_eq!(say_hello_text(String::new()), "Hello, unknown stranger!");
}

#[test]
fn hello_request_name_defaults_to_empty() {
    assert_eq!(hello_request_name(None), "");
    assert_eq!(hello_request_name(Some("Max".to_string())), "Max");
}

#[test]
fn proxied_greeting_equals_local_greeting() {
    assert_eq!(proxied(None), local(None));
    assert_eq!(proxied(Some("Max")), local(Some("Max")));
    assert_eq!(proxied(None), "Hello, unknown stranger!");
}

#[test]
fn proxied_greeting_differs_for_empty_name() {
    assert_eq!(proxied(Some("")), "Hello, unknown stranger!");
    assert_eq!(local(Some("")), "Hello, !");
}

#[test]
fn hello_without_forwarding_ignores_proxy() {
    match hello(NameQuery { name: Some("Max".to_string()) }, ProxyQuery { proxy: true }, false) {
        HelloAction::Respond { status, body } => {
            assert_eq!(status, 200);
            assert_eq!(body, "Hello, Max!");
        }
        other => panic!("unexpected {other:?}"),
    }
    match hello(NameQuery { name: None }, ProxyQuery { proxy: false }, false) {
        HelloAction::Respond { body, .. } => assert_eq!(body, "Hello, unknown stranger!"),
        other => panic!("unexpected {other:?}"),
    }
}
