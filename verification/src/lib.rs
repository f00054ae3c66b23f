//! Verified core of a TCP-over-QUIC tunnel.
//!
//! The tunnel forwards plain TCP traffic over an encrypted, multiplexed QUIC
//! transport: a client accepts local TCP connections and forwards each over
//! one QUIC stream, and a server accepts QUIC streams and forwards each to a
//! fixed TCP destination. This crate holds the engine's decisions and their
//! proofs: endpoint configuration with its mutually exclusive trust modes,
//! the per-direction byte-relay state machine with its shutdown sequencing,
//! the TLS and transport configuration built through the QUIC library, and
//! the accept-loop policies of the two drivers. The sockets, the async
//! runtime and the actual QUIC transport live with the caller.

pub mod config;
pub mod driver;
pub mod provision;
pub mod relay;
