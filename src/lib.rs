//! Connection-configuration core of an HTTP client: HTTP/2 connection
//! parameters, the identity used to key connection reuse, and the ALPN/ALPS
//! protocol-token encodings.

pub mod tls;
pub mod config;
pub mod identity;
pub mod rt;
pub mod pool;
