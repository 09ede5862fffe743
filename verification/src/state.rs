//! The bridge ledger singleton and the per-transfer transaction record.

use vstd::prelude::*;
use crate::policy::{FEE_DENOMINATOR, MAX_FEE_BPS, fee_of, net_of, price_amount};
use crate::types::{BridgeStatus, BridgeDirection, ValidatorSignature};

verus! {

/// Wire codes of `BridgeStatus`, used by the status-update entry point.
pub const BRIDGE_STATUS_PENDING: u8 = 0;

pub const BRIDGE_STATUS_CONFIRMED: u8 = 1;

pub const BRIDGE_STATUS_COMPLETED: u8 = 2;

pub const BRIDGE_STATUS_FAILED: u8 = 3;

pub const BRIDGE_STATUS_EXPIRED: u8 = 4;

/// Cap on the attached signature list of one transaction record, so that a
/// record's serialized size stays bounded. Checked at insert time.
pub const MAX_ATTACHED_SIGNATURES: usize = 10;

/// Configuration defaults installed by `initialize_bridge`.
pub const DEFAULT_MIN_LOCK_AMOUNT: u64 = 1000000;

pub const DEFAULT_MAX_LOCK_AMOUNT: u64 = 1000000000000;

pub const DEFAULT_BRIDGE_FEE_BPS: u64 = 100;

/// The bridge ledger: one instance per deployment. Owns the configuration,
/// the aggregate counters, and the issuance of new transfer ids.
#[derive(Clone, Copy, Debug)]
pub struct BridgeState {
    pub admin: [u8; 32],
    pub is_paused: bool,
    pub bridge_id: u64,
    pub min_lock_amount: u64,
    pub max_lock_amount: u64,
    /// Fee in basis points (100 = 1%).
    pub bridge_fee: u64,
    pub is_active: bool,
    /// Minimum distinct active validator attestations required by an unlock.
    pub validator_threshold: u8,
    /// Cardinality of the active entries of the validator registry.
    pub active_validators: u8,
    pub qubic_chain_id: u64,
    pub total_locked_tokens: u64,
    pub total_unlocked_tokens: u64,
    pub total_bridge_transactions: u64,
    pub total_validator_actions: u64,
    /// Strictly increasing; every lock consumes and increments it.
    pub next_lock_id: u64,
    pub last_qubic_block: u64,
    pub emergency_pause_timestamp: i64,
}

impl BridgeState {
    /// Configuration well-formedness: the fee ceiling, non-degenerate
    /// bounds, and a positive threshold. Established at initialization and
    /// preserved by every configuration update.
    pub open spec fn wf(self) -> bool {
        &&& self.bridge_fee <= MAX_FEE_BPS
        &&& 1 <= self.min_lock_amount
        &&& self.min_lock_amount <= self.max_lock_amount
        &&& 1 <= self.validator_threshold
    }

    pub fn is_emergency_paused(&self) -> (r: bool)
        ensures
            r == self.is_paused,
    {
        self.is_paused
    }

    /// Whether a transfer of `amount` may proceed: both flags must permit
    /// it and the amount must lie within the inclusive bounds.
    pub fn can_bridge(&self, amount: u64) -> (r: bool)
        ensures
            r == (self.is_active && !self.is_paused && self.min_lock_amount <= amount
                <= self.max_lock_amount),
    {
        self.is_active && !self.is_paused && amount >= self.min_lock_amount && amount
            <= self.max_lock_amount
    }

    /// Prices `amount` at this ledger's fee rate; returns `(net, fee)`.
    pub fn calculate_fee(&self, amount: u64) -> (r: (u64, u64))
        requires
            self.bridge_fee <= FEE_DENOMINATOR,
        ensures
            r.1 == fee_of(amount, self.bridge_fee),
            r.0 == net_of(amount, self.bridge_fee),
            r.0 + r.1 == amount,
    {
        price_amount(amount, self.bridge_fee)
    }
}

/// One cross-chain transfer attempt. Created only by a lock; its identity
/// (`id`) never changes afterwards.
#[derive(Clone, Debug)]
pub struct BridgeTransaction {
    /// The issued transfer id; equals the ledger's counter at creation.
    pub id: u64,
    pub user: [u8; 32],
    pub token_mint: [u8; 32],
    /// Gross amount before fees.
    pub amount: u64,
    /// Net amount after fees; the amount credited on unlock.
    pub actual_amount: u64,
    pub fee: u64,
    pub qubic_destination: [u8; 32],
    pub memo: [u8; 64],
    pub status: BridgeStatus,
    /// Count of validator confirmation events observed pre-completion.
    pub confirmations: u64,
    pub created_at: i64,
    pub updated_at: i64,
    /// Zero until the transaction reaches a terminal state.
    pub completed_at: i64,
    pub qubic_tx_hash: [u8; 32],
    /// Attestations collected for the unlock decision; capped at
    /// `MAX_ATTACHED_SIGNATURES` while they are gathered one by one.
    pub validator_signatures: Vec<ValidatorSignature>,
    /// One-way latch: once set, no further unlock may apply to this id.
    pub is_processed: bool,
    pub direction: BridgeDirection,
    pub retry_count: u32,
}

impl BridgeTransaction {
    /// A fresh `Pending` record for a transfer of `amount` initiated by
    /// `user` at time `now`. Pricing and destination details are filled in
    /// by the lock operation.
    pub fn new(id: u64, user: [u8; 32], token_mint: [u8; 32], amount: u64,
        direction: BridgeDirection, now: i64) -> (r: Self)
        ensures
            r.id == id,
            r.user == user,
            r.token_mint == token_mint,
            r.amount == amount,
            r.actual_amount == amount,
            r.fee == 0,
            r.qubic_destination@ =~= Seq::<u8>::new(32, |i: int| 0u8),
            r.memo@ =~= Seq::<u8>::new(64, |i: int| 0u8),
            r.status == BridgeStatus::Pending,
            r.confirmations == 0,
            r.created_at == now,
            r.updated_at == now,
            r.completed_at == 0,
            r.validator_signatures@.len() == 0,
            !r.is_processed,
            r.direction == direction,
            r.retry_count == 0,
    {
        BridgeTransaction {
            id,
            user,
            token_mint,
            amount,
            actual_amount: amount,
            fee: 0,
            qubic_destination: [0u8; 32],
            memo: [0u8; 64],
            status: BridgeStatus::Pending,
            confirmations: 0,
            created_at: now,
            updated_at: now,
            completed_at: 0,
            qubic_tx_hash: [0u8; 32],
            validator_signatures: Vec::new(),
            is_processed: false,
            direction,
            retry_count: 0,
        }
    }

    pub fn is_completed(&self) -> (r: bool)
        ensures
            r == (self.status is Completed),
    {
        self.status == BridgeStatus::Completed
    }

    pub fn is_pending(&self) -> (r: bool)
        ensures
            r == (self.status is Pending),
    {
        self.status == BridgeStatus::Pending
    }

    /// The lazy expiry check: a record is expired once more than
    /// `timeout_seconds` have passed since its creation.
    pub fn is_expired(&self, now: i64, timeout_seconds: u64) -> (r: bool)
        ensures
            r == (now - self.created_at > timeout_seconds),
    {
        let age: i128 = (now as i128) - (self.created_at as i128);
        age > timeout_seconds as i128
    }

    /// Attaches one more validator attestation, unless the capped list is
    /// already full. Returns whether the attestation was kept.
    pub fn add_validator_signature(&mut self, signature: ValidatorSignature) -> (ok: bool)
        ensures
            ok == (old(self).validator_signatures@.len() < MAX_ATTACHED_SIGNATURES),
            ok ==> final(self).validator_signatures@ =~= old(self).validator_signatures@.push(
                signature),
            !ok ==> *final(self) == *old(self),
            final(self).id == old(self).id,
            final(self).status == old(self).status,
            final(self).is_processed == old(self).is_processed,
    {
        if self.validator_signatures.len() < MAX_ATTACHED_SIGNATURES {
            self.validator_signatures.push(signature);
            true
        } else {
            false
        }
    }

    /// Whether the raw attached-signature count reaches `threshold`.
    /// The unlock decision itself uses the stricter distinct-active-signer
    /// count of the validator registry.
    pub fn has_enough_signatures(&self, threshold: u8) -> (r: bool)
        ensures
            r == (self.validator_signatures@.len() >= threshold),
    {
        self.validator_signatures.len() >= threshold as usize
    }
}

/// The status a wire code denotes, if any.
pub open spec fn spec_status_from_code(code: u8) -> Option<BridgeStatus> {
    if code == BRIDGE_STATUS_PENDING {
        Some(BridgeStatus::Pending)
    } else if code == BRIDGE_STATUS_CONFIRMED {
        Some(BridgeStatus::Confirmed)
    } else if code == BRIDGE_STATUS_COMPLETED {
        Some(BridgeStatus::Completed)
    } else if code == BRIDGE_STATUS_FAILED {
        Some(BridgeStatus::Failed)
    } else if code == BRIDGE_STATUS_EXPIRED {
        Some(BridgeStatus::Expired)
    } else {
        None
    }
}

/// The wire code of a status.
pub open spec fn spec_status_code(status: BridgeStatus) -> u8 {
    match status {
        BridgeStatus::Pending => BRIDGE_STATUS_PENDING,
        BridgeStatus::Confirmed => BRIDGE_STATUS_CONFIRMED,
        BridgeStatus::Completed => BRIDGE_STATUS_COMPLETED,
        BridgeStatus::Failed => BRIDGE_STATUS_FAILED,
        BridgeStatus::Expired => BRIDGE_STATUS_EXPIRED,
    }
}

/// Decodes a wire status code. Returns `None` for an unknown code.
pub fn status_from_code(code: u8) -> (r: Option<BridgeStatus>)
    ensures
        r == spec_status_from_code(code),
{
    if code == BRIDGE_STATUS_PENDING {
        Some(BridgeStatus::Pending)
    } else if code == BRIDGE_STATUS_CONFIRMED {
        Some(BridgeStatus::Confirmed)
    } else if code == BRIDGE_STATUS_COMPLETED {
        Some(BridgeStatus::Completed)
    } else if code == BRIDGE_STATUS_FAILED {
        Some(BridgeStatus::Failed)
    } else if code == BRIDGE_STATUS_EXPIRED {
        Some(BridgeStatus::Expired)
    } else {
        None
    }
}

/// Encodes a status as its wire code.
pub fn status_code(status: BridgeStatus) -> (r: u8)
    ensures
        r == spec_status_code(status),
{
    match status {
        BridgeStatus::Pending => BRIDGE_STATUS_PENDING,
        BridgeStatus::Confirmed => BRIDGE_STATUS_CONFIRMED,
        BridgeStatus::Completed => BRIDGE_STATUS_COMPLETED,
        BridgeStatus::Failed => BRIDGE_STATUS_FAILED,
        BridgeStatus::Expired => BRIDGE_STATUS_EXPIRED,
    }
}

} // verus!
