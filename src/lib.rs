//! Client library for the KuCoin trading venue: request signing, realtime
//! feed negotiation, the realtime session state machine and the message
//! router, together with the data shapes the venue returns.
pub mod text;
pub mod klines;
pub mod symbol;
pub mod market;
pub mod api;
pub mod websocket;
pub mod router;
pub mod signer;
pub mod keepalive;
pub mod negotiate;
pub mod session;
pub mod candle_request;
pub mod query;
pub mod endpoints;
