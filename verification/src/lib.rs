//! Cross-chain bridge core: a transfer lifecycle state machine with
//! replay-safety guarantees, a validator-threshold consensus rule, and the
//! decision logic of the off-chain relay loop that connects the two chains.

pub mod errors;
pub mod types;
pub mod policy;
pub mod state;
pub mod validators;
pub mod crypto;
pub mod protocol;
pub mod relay;
pub mod validator_metrics;
