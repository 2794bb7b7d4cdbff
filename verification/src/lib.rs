//! A cross-chain event relay: the session that watches one chain for accepted
//! proposals, and the dispatcher that answers each of them with a token
//! transfer on a second chain.
//!
//! The crate holds the decisions only. The host performs the remote calls and
//! hands their results back as plain values.

pub mod address;
pub mod amount;
pub mod event;
pub mod nonce;
pub mod relay;
pub mod session;
pub mod transfer;
