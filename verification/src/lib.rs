//! An on-ledger API-billing gateway: metered consumers prepay a balance and a
//! trusted backend charges them per call under a token-bucket rate limit, a
//! rolling quota window, and a utilization-based surge price.  Every state
//! transition is a deterministic, total function over its inputs, proved to
//! commit either completely or not at all.

pub mod error;
pub mod instruction;
pub mod logic;
pub mod processor;
pub mod state;
