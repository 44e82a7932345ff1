//! The client of the gRPC greeter, as the HTTP front end uses it: its
//! endpoint, the request it sends for a name, and how trace context is put
//! into request metadata.

use crate::endpoint::{endpoint_accepts, parse_endpoint, ParsedEndpoint};
use crate::metadata::{
    binary_key_suffix, has_binary_key_suffix, header_name_ok, header_name_valid, lowercase,
    metadata_key_from_bytes, metadata_value_accepts, metadata_value_from_string, AsciiKey,
    AsciiValue,
};
use tonic::transport::Endpoint;
use vstd::prelude::*;
use vstd::utf8::encode_utf8;

verus! {

/// Connection settings of the gRPC client.
#[derive(Debug)]
pub struct Config {
    pub endpoint: String,
}

/// Why the client could not be made.
#[derive(Debug)]
pub enum ClientError {
    /// The configured endpoint is no valid URI.
    InvalidEndpoint { endpoint: String },
}

/// `Cannot create endpoint for happy-hacking-grpc from `
pub open spec fn invalid_endpoint_prefix() -> Seq<char> {
    seq![
        'C', 'a', 'n', 'n', 'o', 't', ' ', 'c', 'r', 'e', 'a', 't', 'e', ' ', 'e', 'n', 'd', 'p',
        'o', 'i', 'n', 't', ' ', 'f', 'o', 'r', ' ', 'h', 'a', 'p', 'p', 'y', '-', 'h', 'a', 'c',
        'k', 'i', 'n', 'g', '-', 'g', 'r', 'p', 'c', ' ', 'f', 'r', 'o', 'm', ' ',
    ]
}

impl ClientError {
    /// The error's message.
    pub fn message(&self) -> (msg: String)
        ensures
            match self {
                ClientError::InvalidEndpoint { endpoint } => msg@ == invalid_endpoint_prefix() + endpoint@,
            },
    {
        match self {
            ClientError::InvalidEndpoint { endpoint } => {
                let mut msg = String::from_str("Cannot create endpoint for happy-hacking-grpc from ");
                proof {
                    reveal_strlit("Cannot create endpoint for happy-hacking-grpc from ");
                }
                assert(msg@ =~= invalid_endpoint_prefix());
                msg.append(endpoint.as_str());
                msg
            },
        }
    }
}

/// A client of the gRPC greeter.
#[derive(Clone)]
pub struct HelloTonicClient {
    endpoint: ParsedEndpoint,
}

impl HelloTonicClient {
    /// The endpoint the client connects to.
    pub closed spec fn connects_to(self) -> Endpoint {
        self.endpoint.endpoint_spec()
    }

    /// The text the client's endpoint was parsed from.
    pub closed spec fn source(self) -> Seq<char> {
        self.endpoint.source()
    }

    /// Makes a client for the endpoint parsed from the configured text;
    /// fails where that text is no valid URI.
    pub fn new(config: Config) -> (res: Result<HelloTonicClient, ClientError>)
        ensures
            res is Ok <==> endpoint_accepts(config.endpoint@),
            res matches Ok(client) ==> client.source() == config.endpoint@,
            res matches Err(ClientError::InvalidEndpoint { endpoint }) ==> endpoint@ == config.endpoint@,
    {
        match parse_endpoint(config.endpoint.as_str()) {
            Ok(endpoint) => Ok(HelloTonicClient { endpoint }),
            Err(_) => Err(ClientError::InvalidEndpoint { endpoint: config.endpoint }),
        }
    }

    /// The endpoint the client connects to.
    pub fn endpoint(&self) -> (res: &Endpoint)
        ensures
            *res == self.connects_to(),
    {
        self.endpoint.endpoint()
    }
}

/// The name sent to the greeter for an optional name: the empty name where
/// there is none.
pub open spec fn request_name(name: Option<Seq<char>>) -> Seq<char> {
    match name {
        Some(n) => n,
        None => Seq::empty(),
    }
}

/// The name field of the `SayHello` request for an optional name.
pub fn hello_request_name(name: Option<String>) -> (res: String)
    ensures
        res@ == request_name(name.deep_view()),
{
    match name {
        Some(name) => name,
        None => String::new(),
    }
}

} // verus!

verus! {

/// A metadata entry ready to be inserted into a request's metadata.
pub struct MetadataEntry {
    pub key: AsciiKey,
    pub value: AsciiValue,
}

/// Why a trace context entry could not be put into request metadata.
#[derive(Debug)]
pub enum InjectError {
    /// The key is no valid metadata key.
    InvalidKey { key: String },
    /// The value holds a byte that a metadata value cannot.
    InvalidValue { value: String },
}

/// `Cannot parse `
pub open spec fn cannot_parse_prefix() -> Seq<char> {
    seq!['C', 'a', 'n', 'n', 'o', 't', ' ', 'p', 'a', 'r', 's', 'e', ' ']
}

/// ` as metadata value`
pub open spec fn as_metadata_value_suffix() -> Seq<char> {
    seq![' ', 'a', 's', ' ', 'm', 'e', 't', 'a', 'd', 'a', 't', 'a', ' ', 'v', 'a', 'l', 'u', 'e']
}

/// `Cannot parse {text} as metadata value`
pub open spec fn cannot_parse_text(text: Seq<char>) -> Seq<char> {
    cannot_parse_prefix() + text + as_metadata_value_suffix()
}

fn cannot_parse(text: &str) -> (msg: String)
    ensures
        msg@ == cannot_parse_text(text@),
{
    let mut msg = String::from_str("Cannot parse ");
    msg.append(text);
    msg.append(" as metadata value");
    proof {
        reveal_strlit("Cannot parse ");
        reveal_strlit(" as metadata value");
    }
    assert(msg@ =~= cannot_parse_text(text@));
    msg
}

impl InjectError {
    /// The message logged for the error: `Cannot parse {key} as metadata
    /// value`, or the same with the value.
    pub fn message(&self) -> (msg: String)
        ensures
            match self {
                InjectError::InvalidKey { key } => msg@ == cannot_parse_text(key@),
                InjectError::InvalidValue { value } => msg@ == cannot_parse_text(value@),
            },
    {
        match self {
            InjectError::InvalidKey { key } => cannot_parse(key.as_str()),
            InjectError::InvalidValue { value } => cannot_parse(value.as_str()),
        }
    }
}

/// What `metadata_entry` gives back for `key` and `value`: an entry where
/// the key is a valid name and every byte of the value may stand in
/// metadata; else the error for the key, which is checked first, or for
/// the value.
pub open spec fn metadata_entry_outcome(
    key: Seq<char>,
    value: Seq<char>,
    res: Result<MetadataEntry, InjectError>,
) -> bool {
    let name = encode_utf8(key);
    &&& (res is Ok <==> header_name_ok(name) && metadata_value_accepts(value))
    &&& (res matches Ok(entry) ==> entry.key.bytes() == lowercase(name) && entry.value.bytes()
        == encode_utf8(value))
    &&& (!header_name_ok(name) ==> (res matches Err(InjectError::InvalidKey { key: k }) && k@ == key))
    &&& (header_name_ok(name) && !metadata_value_accepts(value) ==> (res matches Err(
        InjectError::InvalidValue { value: v },
    ) && v@ == value))
}

/// Makes the metadata entry for one trace context field. The key must not
/// be a valid name ending in `-bin`: tonic panics on such an ASCII key.
pub fn metadata_entry(key: &str, value: &String) -> (res: Result<MetadataEntry, InjectError>)
    requires
        !(header_name_ok(encode_utf8(key@)) && binary_key_suffix(encode_utf8(key@))),
    ensures
        metadata_entry_outcome(key@, value@, res),
{
    let name = key.as_bytes();
    match metadata_key_from_bytes(name) {
        Ok(key) => match metadata_value_from_string(value) {
            Ok(value) => Ok(MetadataEntry { key, value }),
            Err(_) => Err(InjectError::InvalidValue { value: value.clone() }),
        },
        Err(_) => Err(InjectError::InvalidKey { key: key.to_owned() }),
    }
}

/// Makes the metadata entry for one trace context field, as
/// `metadata_entry`, where the key is not a valid name ending in `-bin`;
/// for such a key, on which tonic panics, gives back `None`.
pub fn checked_metadata_entry(key: &str, value: &String) -> (res: Option<Result<MetadataEntry, InjectError>>)
    ensures
        res is None <==> header_name_ok(encode_utf8(key@)) && binary_key_suffix(encode_utf8(key@)),
        res matches Some(outcome) ==> metadata_entry_outcome(key@, value@, outcome),
{
    let name = key.as_bytes();
    if has_binary_key_suffix(name) && header_name_valid(name) {
        None
    } else {
        Some(metadata_entry(key, value))
    }
}

} // verus!
