//! Verified decision logic of a family of Stellar payment contracts: an
//! escrow, a fee collector, a wrap/unwrap token bridge, a deployment factory
//! and the payment contract itself (batch payments, payment requests and
//! recurring subscriptions).
//!
//! Every function here is a transition from the state a contract invocation
//! loads (instance fields, the one stored record it touches, the ledger time)
//! and the caller's arguments to the next state and the token movements the
//! host must carry out. Storage, authorization checks, token calls and event
//! publication belong to the host glue around this crate.

pub mod common;
pub mod escrow;

pub mod reentrancy;
pub mod stellar_send;
pub mod batch;
pub mod payment_request;
pub mod subscription;
pub mod token_bridge;
pub mod fee_collector;
pub mod factory;
