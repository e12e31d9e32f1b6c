//! The verified core of an echo service that hashes messages through an
//! upstream resource: the connection pools that lease connections to it,
//! the wire protocol spoken with it, the request handler's decisions, and
//! the protocol selection that follows a TLS handshake.

pub mod cert;
pub mod echo;
pub mod pool;
pub mod text;
pub mod tls;
pub mod upstream;
