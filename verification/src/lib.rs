//! A client library for the Bybit v5 REST API.
//!
//! The crate holds the parts of the client that compute: the request signer,
//! the construction of a request that is ready to be sent, the decoding of the
//! response envelope, and the data shapes of the endpoints. Every function
//! carries a contract and is proved against it; the few calls into other
//! crates stand behind small functions whose contracts are taken on trust,
//! each marked where it stands.

pub mod text;
pub mod auth;
pub mod error;
pub mod types;
pub mod client;
pub mod json;
pub mod market;
pub mod trade;
pub mod account;

pub use client::BybitClient;
pub use error::BybitError;
pub use types::{CreateOrderRequest, CreateOrderResponse};
