//! A pay-per-request gateway core: payment-gated forwarding decisions,
//! streaming relay, change settlement, and the append-only ledger they write,
//! with the observable behaviour of each step stated and verified.
pub mod amount;
pub mod error;
pub mod forward;
pub mod headers;
pub mod ids;
pub mod json;
pub mod ledger;
pub mod models;
pub mod pagination;
pub mod relay;
pub mod server_config;
pub mod settle;
pub mod text;
pub mod wallet_api;
