//! Endpoints of gRPC servers, parsed by tonic, kept with the text they were
//! parsed from.

use tonic::transport::Endpoint;
use vstd::prelude::*;

verus! {

#[verifier::external_type_specification]
#[verifier::external_body]
pub struct ExEndpoint(Endpoint);

#[verifier::external_type_specification]
#[verifier::external_body]
pub struct ExTransportError(tonic::transport::Error);

/// tonic's `Endpoint::clone`, which its `derive(Clone)` wrote; nothing is
/// stated of the copy.
pub assume_specification[ <Endpoint as Clone>::clone ](endpoint: &Endpoint) -> Endpoint;

/// Whether tonic's `Endpoint::from_str` accepts `uri`: it accepts exactly
/// the strings that parse as an HTTP URI.
pub uninterp spec fn endpoint_accepts(uri: Seq<char>) -> bool;

/// An endpoint together with the text it was parsed from. Only
/// `parse_endpoint` makes one.
#[derive(Clone)]
pub struct ParsedEndpoint {
    endpoint: Endpoint,
    source: Ghost<Seq<char>>,
}

impl ParsedEndpoint {
    /// The text the endpoint was parsed from.
    pub closed spec fn source(self) -> Seq<char> {
        self.source@
    }

    /// The endpoint.
    pub closed spec fn endpoint_spec(self) -> Endpoint {
        self.endpoint
    }

    /// The endpoint.
    pub fn endpoint(&self) -> (res: &Endpoint)
        ensures
            *res == self.endpoint_spec(),
    {
        &self.endpoint
    }
}

/// Parses an endpoint URI with tonic's `Endpoint::from_str`: `Ok` exactly
/// where `endpoint_accepts` holds, and then the endpoint parsed from `uri`.
/// Of the endpoint itself nothing more is stated.
#[verifier::external_body]
pub fn parse_endpoint(uri: &str) -> (res: Result<ParsedEndpoint, tonic::transport::Error>)
    ensures
        res is Ok <==> endpoint_accepts(uri@),
        res matches Ok(parsed) ==> parsed.source() == uri@,
{
    match uri.parse::<Endpoint>() {
        Ok(endpoint) => Ok(ParsedEndpoint { endpoint, source: Ghost(uri@) }),
        Err(error) => Err(error),
    }
}

} // verus!
