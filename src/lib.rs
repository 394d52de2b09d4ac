//! A SOCKS5-over-QUIC tunnel: the wire codec for the SOCKS5 handshake, the
//! server-side session state machine that resolves the target of a flow, the
//! decisions of the forwarding loops, and the tunnel's configuration records.
pub mod text;
pub mod wire;
pub mod session;
pub mod forward;
pub mod config;
