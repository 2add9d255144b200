//! Transport selection for HTTP-style clients.
//!
//! A small URL dialect (`<scheme>::<transport>//<remainder>`) names the
//! channel over which a server is reached: TCP, a Unix domain socket, or a
//! tunnel through a local anonymizing daemon. This crate holds the dialect's
//! parser, the transport model, the dispatcher's rules and the daemon's
//! framing protocol, each with a contract that Verus proves.

pub mod text;
pub mod types;
pub mod transport_url;
pub mod tor_connector;
pub mod unix_connector;
pub mod tcp_connector;
pub mod composed;
pub mod embed;
pub mod servoshell;

pub use transport_url::TransportUrl;
pub use types::{Transport, TransportChain, TransportError};
pub use unix_connector::UnixConnector;
