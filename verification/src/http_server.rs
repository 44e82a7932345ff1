//! The HTTP front end: what `GET /` answers, locally or through the gRPC
//! greeter.

use crate::greeting::{greeting, local_reponse, stranger, unknown_stranger};
use crate::net::{IpAddress, SocketAddress};
use vstd::prelude::*;

verus! {

/// HTTP status `200 OK`.
pub const STATUS_OK: u16 = 200u16;

/// HTTP status `500 Internal Server Error`.
pub const STATUS_INTERNAL_SERVER_ERROR: u16 = 500u16;

/// Where the HTTP server listens.
#[derive(Clone, Copy, Debug)]
pub struct Config {
    pub addr: IpAddress,
    pub port: u16,
}

impl Config {
    /// The socket address made of the configured address and port.
    pub fn socket_addr(&self) -> (res: SocketAddress)
        ensures
            res.ip == self.addr,
            res.port == self.port,
    {
        SocketAddress::new(self.addr, self.port)
    }
}

/// The `name` query parameter of `GET /`.
#[derive(Debug)]
pub struct NameQuery {
    pub name: Option<String>,
}

/// The `proxy` query parameter of `GET /`, `false` where it is absent.
#[derive(Debug)]
pub struct ProxyQuery {
    pub proxy: bool,
}

/// What to do with a `GET /`.
#[derive(Debug)]
pub enum HelloAction {
    /// Answer at once with this status and body.
    Respond { status: u16, body: String },
    /// Ask the gRPC greeter for the greeting of this name.
    Proxy { name: Option<String> },
}

/// The greeting the HTTP server gives itself for an optional name.
pub open spec fn local_hello_text(name: Option<Seq<char>>) -> Seq<char> {
    match name {
        Some(n) => greeting(n),
        None => greeting(stranger()),
    }
}

/// The body of a failed proxied request: `Cannot get response from hello-tonic`.
pub open spec fn proxy_failure_text() -> Seq<char> {
    seq![
        'C', 'a', 'n', 'n', 'o', 't', ' ', 'g', 'e', 't', ' ', 'r', 'e', 's', 'p', 'o', 'n', 's',
        'e', ' ', 'f', 'r', 'o', 'm', ' ', 'h', 'e', 'l', 'l', 'o', '-', 't', 'o', 'n', 'i', 'c',
    ]
}

/// Decides how `GET /` is answered. A server that forwards to a gRPC
/// greeter (`forwarding`) forwards a request with `proxy` set; every other
/// request is answered at once with `200` and `Hello, {name}!`, the name
/// being `unknown stranger` where none is given.
pub fn hello(name_query: NameQuery, proxy_query: ProxyQuery, forwarding: bool) -> (action: HelloAction)
    ensures
        forwarding && proxy_query.proxy ==> (action matches HelloAction::Proxy { name }
            && name.deep_view() == name_query.name.deep_view()),
        !(forwarding && proxy_query.proxy) ==> (action matches HelloAction::Respond { status, body }
            && status == STATUS_OK
            && body@ == local_hello_text(name_query.name.deep_view())),
{
    let name = name_query.name;
    if forwarding && proxy_query.proxy {
        HelloAction::Proxy { name }
    } else {
        let name = match name {
            Some(name) => name,
            None => unknown_stranger(),
        };
        HelloAction::Respond { status: STATUS_OK, body: local_reponse(name.as_str()) }
    }
}

/// The answer to a proxied `GET /` from what the gRPC greeter gave back:
/// `200` with its text, or `500` with `Cannot get response from hello-tonic`.
pub fn proxy_response<E>(outcome: Result<String, E>) -> (res: (u16, String))
    ensures
        match outcome {
            Ok(text) => res.0 == STATUS_OK && res.1@ == text@,
            Err(_) => res.0 == STATUS_INTERNAL_SERVER_ERROR && res.1@ == proxy_failure_text(),
        },
{
    match outcome {
        Ok(text) => (STATUS_OK, text),
        Err(_) => {
            let body = String::from_str("Cannot get response from hello-tonic");
            proof {
                reveal_strlit("Cannot get response from hello-tonic");
            }
            assert(body@ =~= proxy_failure_text());
            (STATUS_INTERNAL_SERVER_ERROR, body)
        },
    }
}

} // verus!
