//! Request handling, greeting and tracing decisions of the hello services:
//! an HTTP front end that greets locally or forwards to a gRPC greeter, the
//! gRPC greeter itself, and the client that talks to it.

pub mod endpoint;
pub mod greeting;
pub mod grpc_client;
pub mod grpc_server;
pub mod http_server;
pub mod laws;
pub mod metadata;
pub mod net;
pub mod sampler;
mod text;
pub mod trace_id;
