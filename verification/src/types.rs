//! Chain-neutral data model shared by the on-chain protocol and the
//! off-chain relay: transfer status and direction, cross-chain messages,
//! and the wire-level request/response records.

use vstd::prelude::*;

verus! {

/// Lifecycle status of a bridge transfer. `Completed`, `Failed` and
/// `Expired` are terminal: no operation transitions out of them.
#[derive(Clone, Copy, Debug, PartialEq, Eq, Structural)]
pub enum BridgeStatus {
    Pending,
    Confirmed,
    Completed,
    Failed,
    Expired,
}

impl BridgeStatus {
    /// Whether this status is terminal.
    pub open spec fn spec_is_terminal(self) -> bool {
        self is Completed || self is Failed || self is Expired
    }

    pub fn is_terminal(&self) -> (r: bool)
        ensures
            r == self.spec_is_terminal(),
    {
        match self {
            BridgeStatus::Completed => true,
            BridgeStatus::Failed => true,
            BridgeStatus::Expired => true,
            _ => false,
        }
    }
}

/// Direction of a transfer between the two chains.
#[derive(Clone, Copy, Debug, PartialEq, Eq, Structural)]
pub enum BridgeDirection {
    SolanaToQubic,
    QubicToSolana,
}

#[derive(Clone, Copy, Debug, PartialEq, Eq, Structural)]
pub enum ChainId {
    Solana,
    Qubic,
}

#[derive(Clone, Copy, Debug, PartialEq, Eq, Structural)]
pub enum MessageType {
    AssetTransfer,
    StateSync,
    Emergency,
    Heartbeat,
}

#[derive(Clone, Copy, Debug, PartialEq, Eq, Structural)]
pub enum MessageStatus {
    Pending,
    Sent,
    Delivered,
    Failed,
}

#[derive(Clone, Copy, Debug, PartialEq, Eq, Structural)]
pub enum AssetType {
    Native,
    Token,
    NFT,
}

/// A bridgeable asset description.
#[derive(Clone, Debug)]
pub struct Asset {
    pub id: u64,
    pub token_type: AssetType,
    pub decimals: u8,
    pub symbol: String,
    pub name: String,
    pub total_supply: u64,
    pub circulating_supply: u64,
}

/// A message exchanged between the two chains by the relay.
#[derive(Clone, Debug)]
pub struct CrossChainMessage {
    pub message_id: u64,
    pub source_chain: ChainId,
    pub destination_chain: ChainId,
    pub message_type: MessageType,
    pub payload: Vec<u8>,
    pub timestamp: i64,
    pub status: MessageStatus,
    pub retry_count: u32,
}

/// One validator's attestation over a transfer: who signed, the raw
/// signature bytes, and when.
#[derive(Clone, Copy, Debug)]
pub struct ValidatorSignature {
    pub validator_id: [u8; 32],
    pub signature: [u8; 64],
    pub timestamp: i64,
}

/// A transfer request as carried on the relay wire.
#[derive(Clone, Debug)]
pub struct BridgeRequest {
    pub id: [u8; 32],
    pub source_chain: String,
    pub target_chain: String,
    pub asset_id: [u8; 32],
    pub amount: u64,
    pub recipient: [u8; 32],
    pub timestamp: u64,
    pub direction: BridgeDirection,
}

/// The outcome of a relayed request as carried on the relay wire.
#[derive(Clone, Debug)]
pub struct BridgeResponse {
    pub request_id: [u8; 32],
    pub success: bool,
    pub error_message: Option<String>,
    pub transaction_hash: Option<[u8; 32]>,
    pub timestamp: u64,
}

/// Static relay-side bridge parameters.
#[derive(Clone, Copy, Debug)]
pub struct BridgeConfig {
    pub min_confirmations: u64,
    pub max_confirmations: u64,
    pub validator_threshold: u8,
    pub max_validators: u8,
    pub emergency_pause_enabled: bool,
    pub fee_rate: u64,
    pub min_bridge_amount: u64,
    pub max_bridge_amount: u64,
    pub bridge_timeout_seconds: u64,
}

} // verus!
