//! Core of a Bitcoin payment service: invoice lifecycle, settlement
//! reconciliation, the signing-device protocol, webhook preparation, and
//! rate limiting. External transports (HTTP, storage engines, device
//! wiring) live outside this crate and exchange plain values with it.

pub mod auth;
pub mod encoding;
pub mod handlers;
pub mod issuer;
pub mod limiter;
pub mod models;
pub mod store;
pub mod trezor;
pub mod webhook;
