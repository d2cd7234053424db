//! A typed client for the REST interface of a home-automation service.
//!
//! A request is a value of a type that implements [`endpoints::Endpoint`]:
//! the type says with which method the request is sent, where to, and what
//! the answer decodes into. [`endpoints::services::Post`] makes such a
//! request of any call of a remote service ([`types::Service`]).
//! [`client::Client`] holds the authority of the service and a transport
//! handle that carries the bearer token.
//!
//! The library waits for nothing. Its caller sends the request and reads the
//! response, and asks the library what to do before, between and after:
//! [`client::Client::request_uri`] and [`http_utils::checked_downgrade`]
//! say what to send, [`client::receive`] takes the head of the response,
//! [`client::settle`] its body, and [`client::decoded`] the decoded value.
//!
//! The values of the `http` and `reqwest` crates pass through the library as
//! they are. What the contracts say of them, they say through the texts that
//! these values hold; [`uri`], [`http_utils`] and [`transport`] name these
//! texts and state what the calls into the two crates do.

pub mod client;
pub mod endpoints;
pub mod http_utils;
pub mod text;
pub mod transport;
pub mod types;
pub mod uri;
