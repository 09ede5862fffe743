//! The transfer protocol: the bridge singleton, the keyed transaction
//! store, and the Lock / Unlock / Validate / administrative entry points,
//! together with the laws they obey.
//!
//! The host chain's token-transfer primitive (debit on lock, credit on
//! unlock) is an external collaborator: the caller performs the matching
//! transfer atomically with a successful call here, and hands this module
//! plain values (the caller's balance, the clock) in exchange.

use vstd::prelude::*;
use crate::errors::BridgeError;
use crate::policy::{MAX_FEE_BPS, fee_of, net_of};
use crate::state::{BridgeState, BridgeTransaction, DEFAULT_MIN_LOCK_AMOUNT,
    DEFAULT_MAX_LOCK_AMOUNT, DEFAULT_BRIDGE_FEE_BPS, status_from_code, status_code,
    spec_status_from_code, spec_status_code};
use crate::types::{BridgeStatus, BridgeDirection, ValidatorSignature};
use crate::validators::{ValidatorInfo, ValidatorRegistry, is_registered, is_active_validator_spec,
    count_active, distinct_active_signers, lemma_count_active_push, lemma_count_active_update,
    lemma_single_inactive_signer, bytes32_eq};
use crate::crypto::{hex_of, hex_encode32};

verus! {

broadcast use vstd::array::group_array_axioms;

/// The keyed store of transfer records. Ids are issued consecutively from
/// 1, so the record with id `n` sits at index `n - 1`.
#[derive(Debug)]
pub struct TransactionStore {
    pub entries: Vec<BridgeTransaction>,
}

impl TransactionStore {
    /// Entry `k` carries id `k + 1`: ids are dense, strictly increasing,
    /// and never reused.
    pub open spec fn wf(self) -> bool {
        forall|k: int| 0 <= k < self.entries@.len() ==> (#[trigger] self.entries@[k].id) == 1 + k
    }

    /// A record with this id exists.
    pub open spec fn contains_id(self, id: u64) -> bool {
        1 <= id <= self.entries@.len()
    }

    /// The record with this id.
    pub open spec fn tx(self, id: u64) -> BridgeTransaction {
        self.entries@[id - 1]
    }

    pub fn new() -> (r: Self)
        ensures
            r.entries@.len() == 0,
            r.wf(),
    {
        TransactionStore { entries: Vec::new() }
    }

    /// Index of the record with `id`, if one exists.
    pub fn find_transaction(&self, id: u64) -> (r: Option<usize>)
        requires
            self.wf(),
        ensures
            r matches Some(i) ==> self.contains_id(id) && i == id - 1 && i < self.entries@.len()
                && self.entries@[i as int].id == id,
            r is None ==> !self.contains_id(id),
    {
        if id >= 1 && id <= self.entries.len() as u64 {
            Some((id - 1) as usize)
        } else {
            None
        }
    }
}

/// The whole bridge: ledger, transaction store and validator registry,
/// passed explicitly to every operation.
#[derive(Debug)]
pub struct Bridge {
    pub state: BridgeState,
    pub store: TransactionStore,
    pub registry: ValidatorRegistry,
}

impl Bridge {
    /// Global well-formedness, established by `initialize_bridge` and
    /// preserved by every operation:
    /// the configuration invariants of the ledger; dense, never-reused
    /// transfer ids with `next_lock_id` one past the last issued one;
    /// unique validator pubkeys with `active_validators` equal to the
    /// cardinality of the active entries; and the replay latch only ever
    /// set on completed records.
    pub open spec fn wf(self) -> bool {
        &&& self.state.wf()
        &&& self.store.wf()
        &&& self.registry.wf()
        &&& self.state.next_lock_id == 1 + self.store.entries@.len()
        &&& self.state.active_validators == count_active(self.registry.entries@)
        &&& forall|k: int|
            0 <= k < self.store.entries@.len() ==> ((#[trigger] self.store.entries@[
                k].is_processed) ==> self.store.entries@[k].status is Completed)
    }
}

/// The ledger's configuration fields are unchanged.
pub open spec fn same_config(pre: BridgeState, post: BridgeState) -> bool {
    &&& post.admin == pre.admin
    &&& post.is_paused == pre.is_paused
    &&& post.bridge_id == pre.bridge_id
    &&& post.min_lock_amount == pre.min_lock_amount
    &&& post.max_lock_amount == pre.max_lock_amount
    &&& post.bridge_fee == pre.bridge_fee
    &&& post.is_active == pre.is_active
    &&& post.validator_threshold == pre.validator_threshold
    &&& post.qubic_chain_id == pre.qubic_chain_id
    &&& post.emergency_pause_timestamp == pre.emergency_pause_timestamp
}

/// The ledger's aggregate counters are unchanged.
pub open spec fn same_counters(pre: BridgeState, post: BridgeState) -> bool {
    &&& post.active_validators == pre.active_validators
    &&& post.total_locked_tokens == pre.total_locked_tokens
    &&& post.total_unlocked_tokens == pre.total_unlocked_tokens
    &&& post.total_bridge_transactions == pre.total_bridge_transactions
    &&& post.total_validator_actions == pre.total_validator_actions
    &&& post.next_lock_id == pre.next_lock_id
    &&& post.last_qubic_block == pre.last_qubic_block
}

/// Sets up a fresh bridge: the given admin and threshold, the default
/// amount bounds and fee, no transactions, no validators, active and
/// unpaused. A zero threshold is rejected.
pub fn initialize_bridge(admin: [u8; 32], validator_threshold: u8) -> (r: Result<Bridge,
    BridgeError>)
    ensures
        r is Ok <==> validator_threshold >= 1,
        r is Err ==> r == Err::<Bridge, BridgeError>(BridgeError::InvalidValidatorThreshold),
        r matches Ok(b) ==> {
            &&& b.wf()
            &&& b.state.admin == admin
            &&& !b.state.is_paused
            &&& b.state.bridge_id == 1
            &&& b.state.min_lock_amount == DEFAULT_MIN_LOCK_AMOUNT
            &&& b.state.max_lock_amount == DEFAULT_MAX_LOCK_AMOUNT
            &&& b.state.bridge_fee == DEFAULT_BRIDGE_FEE_BPS
            &&& b.state.is_active
            &&& b.state.validator_threshold == validator_threshold
            &&& b.state.active_validators == 0
            &&& b.state.qubic_chain_id == 1
            &&& b.state.total_locked_tokens == 0
            &&& b.state.total_unlocked_tokens == 0
            &&& b.state.total_bridge_transactions == 0
            &&& b.state.total_validator_actions == 0
            &&& b.state.next_lock_id == 1
            &&& b.state.last_qubic_block == 0
            &&& b.state.emergency_pause_timestamp == 0
            &&& b.store.entries@.len() == 0
            &&& b.registry.entries@.len() == 0
        },
{
    if validator_threshold == 0 {
        return Err(BridgeError::InvalidValidatorThreshold);
    }
    let state = BridgeState {
        admin,
        is_paused: false,
        bridge_id: 1,
        min_lock_amount: DEFAULT_MIN_LOCK_AMOUNT,
        max_lock_amount: DEFAULT_MAX_LOCK_AMOUNT,
        bridge_fee: DEFAULT_BRIDGE_FEE_BPS,
        is_active: true,
        validator_threshold,
        active_validators: 0,
        qubic_chain_id: 1,
        total_locked_tokens: 0,
        total_unlocked_tokens: 0,
        total_bridge_transactions: 0,
        total_validator_actions: 0,
        next_lock_id: 1,
        last_qubic_block: 0,
        emergency_pause_timestamp: 0,
    };
    Ok(Bridge { state, store: TransactionStore::new(), registry: ValidatorRegistry::new() })
}

/// Why a lock would be refused, in check order, or `None` if it proceeds.
pub open spec fn lock_denied(b: Bridge, amount: u64, user_balance: u64) -> Option<BridgeError> {
    if !b.state.is_active {
        Some(BridgeError::BridgeNotActive)
    } else if b.state.is_paused {
        Some(BridgeError::BridgePaused)
    } else if amount < b.state.min_lock_amount || amount > b.state.max_lock_amount {
        Some(BridgeError::InvalidAmount)
    } else if user_balance < amount {
        Some(BridgeError::InsufficientBalance)
    } else {
        None
    }
}

/// The effect of a successful lock: one fresh `Pending` record priced at
/// the ledger's fee rate, the locked total grown by the net amount, the
/// transfer counter and the id counter each grown by one, and nothing
/// else touched.
pub open spec fn lock_ok_post(pre: Bridge, post: Bridge, user: [u8; 32], token_mint: [u8; 32],
    amount: u64, qubic_destination: [u8; 32], memo: [u8; 64], now: i64) -> bool {
    let tx = post.store.entries@.last();
    &&& post.store.entries@.len() == pre.store.entries@.len() + 1
    &&& post.store.entries@.subrange(0, pre.store.entries@.len() as int) == pre.store.entries@
    &&& tx.id == pre.state.next_lock_id
    &&& tx.user == user
    &&& tx.token_mint == token_mint
    &&& tx.amount == amount
    &&& tx.actual_amount == net_of(amount, pre.state.bridge_fee)
    &&& tx.fee == fee_of(amount, pre.state.bridge_fee)
    &&& tx.qubic_destination == qubic_destination
    &&& tx.memo == memo
    &&& tx.status is Pending
    &&& tx.confirmations == 0
    &&& tx.created_at == now
    &&& tx.updated_at == now
    &&& tx.completed_at == 0
    &&& tx.validator_signatures@.len() == 0
    &&& !tx.is_processed
    &&& post.state.total_locked_tokens == pre.state.total_locked_tokens + net_of(amount,
        pre.state.bridge_fee)
    &&& post.state.total_bridge_transactions == pre.state.total_bridge_transactions + 1
    &&& post.state.next_lock_id == pre.state.next_lock_id + 1
    &&& post.state.active_validators == pre.state.active_validators
    &&& post.state.total_unlocked_tokens == pre.state.total_unlocked_tokens
    &&& post.state.total_validator_actions == pre.state.total_validator_actions
    &&& post.state.last_qubic_block == pre.state.last_qubic_block
    &&& same_config(pre.state, post.state)
    &&& post.registry == pre.registry
}

/// Lock: the entry point on the source chain. Creates the transfer record
/// and updates the aggregates; the caller debits the user by the gross
/// amount atomically with a successful call (both succeed or neither).
/// On any refusal the bridge is left exactly as it was.
pub fn lock_assets(bridge: &mut Bridge, user: [u8; 32], token_mint: [u8; 32], amount: u64,
    user_balance: u64, qubic_destination: [u8; 32], memo: [u8; 64], now: i64) -> (r: Result<u64,
    BridgeError>)
    requires
        old(bridge).wf(),
        old(bridge).state.total_locked_tokens + amount <= u64::MAX,
        old(bridge).state.total_bridge_transactions < u64::MAX,
        old(bridge).state.next_lock_id < u64::MAX,
    ensures
        final(bridge).wf(),
        lock_denied(*old(bridge), amount, user_balance) matches Some(e) ==> r == Err::<u64,
            BridgeError>(e) && *final(bridge) == *old(bridge),
        lock_denied(*old(bridge), amount, user_balance) is None ==> r == Ok::<u64, BridgeError>(
            old(bridge).state.next_lock_id) && lock_ok_post(*old(bridge), *final(bridge), user,
            token_mint, amount, qubic_destination, memo, now),
{
    if !bridge.state.is_active {
        return Err(BridgeError::BridgeNotActive);
    }
    if bridge.state.is_paused {
        return Err(BridgeError::BridgePaused);
    }
    if amount < bridge.state.min_lock_amount || amount > bridge.state.max_lock_amount {
        return Err(BridgeError::InvalidAmount);
    }
    if user_balance < amount {
        return Err(BridgeError::InsufficientBalance);
    }
    let (actual_amount, fee) = bridge.state.calculate_fee(amount);
    let lock_id = bridge.state.next_lock_id;
    let mut tx = BridgeTransaction::new(lock_id, user, token_mint, amount,
        BridgeDirection::SolanaToQubic, now);
    tx.actual_amount = actual_amount;
    tx.fee = fee;
    tx.qubic_destination = qubic_destination;
    tx.memo = memo;
    bridge.store.entries.push(tx);
    proof {
        assert(bridge.store.entries@.subrange(0, old(bridge).store.entries@.len() as int) =~= old(
            bridge).store.entries@);
    }
    bridge.state.total_locked_tokens = bridge.state.total_locked_tokens + actual_amount;
    bridge.state.total_bridge_transactions = bridge.state.total_bridge_transactions + 1;
    bridge.state.next_lock_id = bridge.state.next_lock_id + 1;
    Ok(lock_id)
}

/// Why an unlock would be refused, in check order, or `None` if it
/// proceeds. The signature rule compares the count of distinct *active*
/// signer identities — never the raw signature count — to the threshold.
pub open spec fn unlock_denied(b: Bridge, lock_id: u64, amount: u64,
    sigs: Seq<ValidatorSignature>, validator: [u8; 32]) -> Option<BridgeError> {
    if !b.state.is_active {
        Some(BridgeError::BridgeNotActive)
    } else if b.state.is_paused {
        Some(BridgeError::BridgePaused)
    } else if !is_active_validator_spec(b.registry.entries@, validator@) {
        Some(BridgeError::UnauthorizedValidator)
    } else if !b.store.contains_id(lock_id) {
        Some(BridgeError::InvalidBridgeTransaction)
    } else if b.store.tx(lock_id).is_processed || b.store.tx(lock_id).status is Completed {
        Some(BridgeError::TransactionAlreadyCompleted)
    } else if b.store.tx(lock_id).status is Failed {
        Some(BridgeError::TransactionAlreadyFailed)
    } else if b.store.tx(lock_id).status is Expired {
        Some(BridgeError::BridgeTransactionExpired)
    } else if distinct_active_signers(sigs, b.registry.entries@) < b.state.validator_threshold {
        Some(BridgeError::InsufficientValidatorSignatures)
    } else if amount == 0 {
        Some(BridgeError::InvalidAmount)
    } else {
        None
    }
}

/// The effect of a successful unlock: the record is completed and latched
/// processed with the submitted signature set stored, the unlocked total
/// grows by the credited amount, the validator-action counter by one, and
/// nothing else is touched.
pub open spec fn unlock_ok_post(pre: Bridge, post: Bridge, lock_id: u64, amount: u64,
    sigs: Seq<ValidatorSignature>, now: i64) -> bool {
    let i = lock_id - 1;
    let t0 = pre.store.entries@[i];
    let t1 = post.store.entries@[i];
    &&& post.store.entries@.len() == pre.store.entries@.len()
    &&& forall|k: int|
        0 <= k < pre.store.entries@.len() && k != i ==> post.store.entries@[k]
            == pre.store.entries@[k]
    &&& t1.status is Completed
    &&& t1.is_processed
    &&& t1.updated_at == now
    &&& t1.completed_at == now
    &&& t1.validator_signatures@ == sigs
    &&& t1.id == t0.id
    &&& t1.user == t0.user
    &&& t1.token_mint == t0.token_mint
    &&& t1.amount == t0.amount
    &&& t1.actual_amount == t0.actual_amount
    &&& t1.fee == t0.fee
    &&& t1.qubic_destination == t0.qubic_destination
    &&& t1.memo == t0.memo
    &&& t1.confirmations == t0.confirmations
    &&& t1.created_at == t0.created_at
    &&& t1.qubic_tx_hash == t0.qubic_tx_hash
    &&& t1.direction == t0.direction
    &&& t1.retry_count == t0.retry_count
    &&& post.state.total_unlocked_tokens == pre.state.total_unlocked_tokens + amount
    &&& post.state.total_validator_actions == pre.state.total_validator_actions + 1
    &&& post.state.active_validators == pre.state.active_validators
    &&& post.state.total_locked_tokens == pre.state.total_locked_tokens
    &&& post.state.total_bridge_transactions == pre.state.total_bridge_transactions
    &&& post.state.next_lock_id == pre.state.next_lock_id
    &&& post.state.last_qubic_block == pre.state.last_qubic_block
    &&& same_config(pre.state, post.state)
    &&& post.registry == pre.registry
}

/// Unlock: the entry point on the destination chain, and the single
/// irreversible step. The caller credits `recipient` with `amount` — the
/// net amount computed at lock time; this side does not re-price —
/// atomically with a successful call. On any refusal the bridge is left
/// exactly as it was, so a corrected retry can still succeed.
pub fn unlock_assets(bridge: &mut Bridge, lock_id: u64, recipient: [u8; 32], amount: u64,
    qubic_signatures: Vec<ValidatorSignature>, validator: [u8; 32], now: i64) -> (r: Result<(),
    BridgeError>)
    requires
        old(bridge).wf(),
        old(bridge).state.total_unlocked_tokens + amount <= u64::MAX,
        old(bridge).state.total_validator_actions < u64::MAX,
    ensures
        final(bridge).wf(),
        unlock_denied(*old(bridge), lock_id, amount, qubic_signatures@, validator) matches Some(
            e) ==> r == Err::<(), BridgeError>(e) && *final(bridge) == *old(bridge),
        unlock_denied(*old(bridge), lock_id, amount, qubic_signatures@, validator) is None ==> r
            is Ok && unlock_ok_post(*old(bridge), *final(bridge), lock_id, amount,
            qubic_signatures@, now),
{
    if !bridge.state.is_active {
        return Err(BridgeError::BridgeNotActive);
    }
    if bridge.state.is_paused {
        return Err(BridgeError::BridgePaused);
    }
    if !bridge.registry.is_active_validator(&validator) {
        return Err(BridgeError::UnauthorizedValidator);
    }
    let idx = match bridge.store.find_transaction(lock_id) {
        Some(i) => i,
        None => {
            return Err(BridgeError::InvalidBridgeTransaction);
        },
    };
    let already_completed = {
        let txr = &bridge.store.entries[idx];
        txr.is_processed || txr.status == BridgeStatus::Completed
    };
    if already_completed {
        return Err(BridgeError::TransactionAlreadyCompleted);
    }
    let cur_status = {
        let txr = &bridge.store.entries[idx];
        txr.status
    };
    if cur_status == BridgeStatus::Failed {
        return Err(BridgeError::TransactionAlreadyFailed);
    }
    if cur_status == BridgeStatus::Expired {
        return Err(BridgeError::BridgeTransactionExpired);
    }
    let distinct = bridge.registry.count_distinct_active_signers(&qubic_signatures);
    if distinct < bridge.state.validator_threshold as usize {
        return Err(BridgeError::InsufficientValidatorSignatures);
    }
    if amount == 0 {
        return Err(BridgeError::InvalidAmount);
    }
    let mut tx = bridge.store.entries.remove(idx);
    let ghost tx0 = tx;
    tx.status = BridgeStatus::Completed;
    tx.updated_at = now;
    tx.completed_at = now;
    tx.validator_signatures = qubic_signatures;
    tx.is_processed = true;
    let ghost tx1 = tx;
    bridge.store.entries.insert(idx, tx);
    proof {
        assert(bridge.store.entries@ =~= old(bridge).store.entries@.update(idx as int, tx1));
    }
    bridge.state.total_unlocked_tokens = bridge.state.total_unlocked_tokens + amount;
    bridge.state.total_validator_actions = bridge.state.total_validator_actions + 1;
    Ok(())
}

/// Why adding a validator would be refused, in check order.
pub open spec fn add_validator_denied(b: Bridge, caller: [u8; 32], validator_pubkey: [u8;
    32]) -> Option<BridgeError> {
    if caller@ != b.state.admin@ {
        Some(BridgeError::UnauthorizedAdmin)
    } else if is_registered(b.registry.entries@, validator_pubkey@) {
        Some(BridgeError::ValidatorAlreadyExists)
    } else if b.state.active_validators == u8::MAX {
        Some(BridgeError::MaximumValidatorsReached)
    } else {
        None
    }
}

/// The effect of a successful validator addition: one fresh active entry
/// with zero reputation and the hex rendering of its cross-chain id, the
/// active count grown by one, and nothing else touched.
pub open spec fn add_validator_ok_post(pre: Bridge, post: Bridge, validator_pubkey: [u8; 32],
    qubic_validator_id: [u8; 32], now: i64) -> bool {
    let e = post.registry.entries@.last();
    &&& post.registry.entries@.len() == pre.registry.entries@.len() + 1
    &&& post.registry.entries@.subrange(0, pre.registry.entries@.len() as int)
        == pre.registry.entries@
    &&& e.pubkey == validator_pubkey
    &&& e.qubic_validator_id@ == hex_of(qubic_validator_id@)
    &&& e.is_active
    &&& e.stake == 0
    &&& e.last_activity == now
    &&& post.state.active_validators == pre.state.active_validators + 1
    &&& post.state.total_locked_tokens == pre.state.total_locked_tokens
    &&& post.state.total_unlocked_tokens == pre.state.total_unlocked_tokens
    &&& post.state.total_bridge_transactions == pre.state.total_bridge_transactions
    &&& post.state.total_validator_actions == pre.state.total_validator_actions
    &&& post.state.next_lock_id == pre.state.next_lock_id
    &&& post.state.last_qubic_block == pre.state.last_qubic_block
    &&& same_config(pre.state, post.state)
    &&& post.store == pre.store
}

/// Admin-only: registers a new validator, active from the start.
pub fn add_validator(bridge: &mut Bridge, caller: [u8; 32], validator_pubkey: [u8; 32],
    qubic_validator_id: [u8; 32], now: i64) -> (r: Result<(), BridgeError>)
    requires
        old(bridge).wf(),
    ensures
        final(bridge).wf(),
        add_validator_denied(*old(bridge), caller, validator_pubkey) matches Some(e) ==> r
            == Err::<(), BridgeError>(e) && *final(bridge) == *old(bridge),
        add_validator_denied(*old(bridge), caller, validator_pubkey) is None ==> r is Ok
            && add_validator_ok_post(*old(bridge), *final(bridge), validator_pubkey,
            qubic_validator_id, now),
{
    if !bytes32_eq(&caller, &bridge.state.admin) {
        return Err(BridgeError::UnauthorizedAdmin);
    }
    match bridge.registry.find_validator(&validator_pubkey) {
        Some(_) => {
            return Err(BridgeError::ValidatorAlreadyExists);
        },
        None => {},
    }
    if bridge.state.active_validators == u8::MAX {
        return Err(BridgeError::MaximumValidatorsReached);
    }
    let entry = ValidatorInfo {
        pubkey: validator_pubkey,
        qubic_validator_id: hex_encode32(&qubic_validator_id),
        is_active: true,
        stake: 0,
        last_activity: now,
    };
    let ghost e_snap = entry;
    bridge.registry.entries.push(entry);
    proof {
        lemma_count_active_push(old(bridge).registry.entries@, e_snap);
        assert(bridge.registry.entries@.subrange(0, old(bridge).registry.entries@.len() as int)
            =~= old(bridge).registry.entries@);
        assert forall|i: int, j: int|
            0 <= i < j < bridge.registry.entries@.len() implies bridge.registry.entries@[
            i].pubkey@ != bridge.registry.entries@[j].pubkey@ by {
            if j == bridge.registry.entries@.len() - 1 {
                assert(!is_registered(old(bridge).registry.entries@, validator_pubkey@));
                assert(old(bridge).registry.entries@[i].pubkey@ != validator_pubkey@);
            }
        }
    }
    bridge.state.active_validators = bridge.state.active_validators + 1;
    Ok(())
}

/// Why removing a validator would be refused, in check order.
pub open spec fn remove_validator_denied(b: Bridge, caller: [u8; 32], validator_pubkey: [u8;
    32]) -> Option<BridgeError> {
    if caller@ != b.state.admin@ {
        Some(BridgeError::UnauthorizedAdmin)
    } else if !is_registered(b.registry.entries@, validator_pubkey@) {
        Some(BridgeError::ValidatorNotFound)
    } else {
        None
    }
}

/// The effect of a successful removal: the record stays — history is
/// retained — but is inactive afterwards, and the active count drops by
/// one exactly when the record had been active.
pub open spec fn remove_validator_ok_post(pre: Bridge, post: Bridge, validator_pubkey: [u8;
    32]) -> bool {
    &&& post.store == pre.store
    &&& post.registry.entries@.len() == pre.registry.entries@.len()
    &&& exists|i: int|
        #![auto]
        {
            &&& 0 <= i < pre.registry.entries@.len()
            &&& pre.registry.entries@[i].pubkey@ == validator_pubkey@
            &&& post.registry.entries@[i].pubkey@ == validator_pubkey@
            &&& !post.registry.entries@[i].is_active
            &&& post.registry.entries@[i].stake == pre.registry.entries@[i].stake
            &&& post.registry.entries@[i].last_activity == pre.registry.entries@[i].last_activity
            &&& (forall|k: int|
                0 <= k < pre.registry.entries@.len() && k != i ==> post.registry.entries@[k]
                    == pre.registry.entries@[k])
            &&& post.state.active_validators == pre.state.active_validators - (
            if pre.registry.entries@[i].is_active {
                1int
            } else {
                0int
            })
        }
    &&& post.state.total_locked_tokens == pre.state.total_locked_tokens
    &&& post.state.total_unlocked_tokens == pre.state.total_unlocked_tokens
    &&& post.state.total_bridge_transactions == pre.state.total_bridge_transactions
    &&& post.state.total_validator_actions == pre.state.total_validator_actions
    &&& post.state.next_lock_id == pre.state.next_lock_id
    &&& post.state.last_qubic_block == pre.state.last_qubic_block
    &&& same_config(pre.state, post.state)
}

/// Admin-only: deactivates a validator. The record is kept for history;
/// from here on its signatures no longer count towards any threshold.
pub fn remove_validator(bridge: &mut Bridge, caller: [u8; 32], validator_pubkey: [u8; 32]) -> (r:
    Result<(), BridgeError>)
    requires
        old(bridge).wf(),
    ensures
        final(bridge).wf(),
        remove_validator_denied(*old(bridge), caller, validator_pubkey) matches Some(e) ==> r
            == Err::<(), BridgeError>(e) && *final(bridge) == *old(bridge),
        remove_validator_denied(*old(bridge), caller, validator_pubkey) is None ==> r is Ok
            && remove_validator_ok_post(*old(bridge), *final(bridge), validator_pubkey),
{
    if !bytes32_eq(&caller, &bridge.state.admin) {
        return Err(BridgeError::UnauthorizedAdmin);
    }
    let idx = match bridge.registry.find_validator(&validator_pubkey) {
        Some(i) => i,
        None => {
            return Err(BridgeError::ValidatorNotFound);
        },
    };
    let was_active = {
        let e = &bridge.registry.entries[idx];
        e.is_active
    };
    bridge.registry.deactivate_at(idx);
    proof {
        let pre_entries = old(bridge).registry.entries@;
        let post_entries = bridge.registry.entries@;
        assert(post_entries =~= pre_entries.update(idx as int, post_entries[idx as int]));
        lemma_count_active_update(pre_entries, idx as int, post_entries[idx as int]);
        if was_active {
            crate::validators::lemma_count_active_ge_one(pre_entries, idx as int);
        }
        assert forall|i: int, j: int|
            0 <= i < j < post_entries.len() implies post_entries[i].pubkey@ != post_entries[
            j].pubkey@ by {
            assert(post_entries[i].pubkey@ == pre_entries[i].pubkey@);
            assert(post_entries[j].pubkey@ == pre_entries[j].pubkey@);
        }
    }
    if was_active {
        bridge.state.active_validators = bridge.state.active_validators - 1;
    }
    Ok(())
}

/// Why a configuration update would be refused, in check order.
pub open spec fn update_config_denied(b: Bridge, caller: [u8; 32], new_min_lock_amount: u64,
    new_max_lock_amount: u64, new_bridge_fee: u64, new_required_signatures: u8) -> Option<
    BridgeError> {
    if caller@ != b.state.admin@ {
        Some(BridgeError::UnauthorizedAdmin)
    } else if new_min_lock_amount == 0 {
        Some(BridgeError::InvalidAmount)
    } else if new_max_lock_amount < new_min_lock_amount {
        Some(BridgeError::InvalidAmount)
    } else if new_bridge_fee > MAX_FEE_BPS {
        Some(BridgeError::InvalidFee)
    } else if new_required_signatures == 0 {
        Some(BridgeError::InvalidValidatorThreshold)
    } else {
        None
    }
}

/// Admin-only: replaces the amount bounds, the fee rate, the threshold and
/// the active flag, after validating each. Rejected configurations leave
/// everything exactly as it was.
pub fn update_config(bridge: &mut Bridge, caller: [u8; 32], new_min_lock_amount: u64,
    new_max_lock_amount: u64, new_bridge_fee: u64, new_required_signatures: u8,
    new_is_active: bool) -> (r: Result<(), BridgeError>)
    requires
        old(bridge).wf(),
    ensures
        final(bridge).wf(),
        update_config_denied(*old(bridge), caller, new_min_lock_amount, new_max_lock_amount,
            new_bridge_fee, new_required_signatures) matches Some(e) ==> r == Err::<(),
            BridgeError>(e) && *final(bridge) == *old(bridge),
        update_config_denied(*old(bridge), caller, new_min_lock_amount, new_max_lock_amount,
            new_bridge_fee, new_required_signatures) is None ==> r is Ok && {
            &&& final(bridge).state.min_lock_amount == new_min_lock_amount
            &&& final(bridge).state.max_lock_amount == new_max_lock_amount
            &&& final(bridge).state.bridge_fee == new_bridge_fee
            &&& final(bridge).state.validator_threshold == new_required_signatures
            &&& final(bridge).state.is_active == new_is_active
            &&& final(bridge).state.admin == old(bridge).state.admin
            &&& final(bridge).state.is_paused == old(bridge).state.is_paused
            &&& final(bridge).state.bridge_id == old(bridge).state.bridge_id
            &&& final(bridge).state.qubic_chain_id == old(bridge).state.qubic_chain_id
            &&& final(bridge).state.emergency_pause_timestamp == old(
                bridge).state.emergency_pause_timestamp
            &&& same_counters(old(bridge).state, final(bridge).state)
            &&& final(bridge).store == old(bridge).store
            &&& final(bridge).registry == old(bridge).registry
        },
{
    if !bytes32_eq(&caller, &bridge.state.admin) {
        return Err(BridgeError::UnauthorizedAdmin);
    }
    if new_min_lock_amount == 0 {
        return Err(BridgeError::InvalidAmount);
    }
    if new_max_lock_amount < new_min_lock_amount {
        return Err(BridgeError::InvalidAmount);
    }
    if new_bridge_fee > MAX_FEE_BPS {
        return Err(BridgeError::InvalidFee);
    }
    if new_required_signatures == 0 {
        return Err(BridgeError::InvalidValidatorThreshold);
    }
    bridge.state.min_lock_amount = new_min_lock_amount;
    bridge.state.max_lock_amount = new_max_lock_amount;
    bridge.state.bridge_fee = new_bridge_fee;
    bridge.state.validator_threshold = new_required_signatures;
    bridge.state.is_active = new_is_active;
    Ok(())
}

/// Admin-only: pauses the bridge and records when. Lock and unlock are
/// refused while paused; queries keep answering.
pub fn emergency_pause(bridge: &mut Bridge, caller: [u8; 32], now: i64) -> (r: Result<(),
    BridgeError>)
    requires
        old(bridge).wf(),
    ensures
        final(bridge).wf(),
        caller@ != old(bridge).state.admin@ ==> r == Err::<(), BridgeError>(
            BridgeError::UnauthorizedAdmin) && *final(bridge) == *old(bridge),
        caller@ == old(bridge).state.admin@ ==> r is Ok && {
            &&& final(bridge).state.is_paused
            &&& final(bridge).state.emergency_pause_timestamp == now
            &&& final(bridge).state.admin == old(bridge).state.admin
            &&& final(bridge).state.bridge_id == old(bridge).state.bridge_id
            &&& final(bridge).state.min_lock_amount == old(bridge).state.min_lock_amount
            &&& final(bridge).state.max_lock_amount == old(bridge).state.max_lock_amount
            &&& final(bridge).state.bridge_fee == old(bridge).state.bridge_fee
            &&& final(bridge).state.is_active == old(bridge).state.is_active
            &&& final(bridge).state.validator_threshold == old(bridge).state.validator_threshold
            &&& final(bridge).state.qubic_chain_id == old(bridge).state.qubic_chain_id
            &&& same_counters(old(bridge).state, final(bridge).state)
            &&& final(bridge).store == old(bridge).store
            &&& final(bridge).registry == old(bridge).registry
        },
{
    if !bytes32_eq(&caller, &bridge.state.admin) {
        return Err(BridgeError::UnauthorizedAdmin);
    }
    bridge.state.is_paused = true;
    bridge.state.emergency_pause_timestamp = now;
    Ok(())
}

/// Admin-only: lifts the pause and clears the pause timestamp.
pub fn emergency_unpause(bridge: &mut Bridge, caller: [u8; 32]) -> (r: Result<(), BridgeError>)
    requires
        old(bridge).wf(),
    ensures
        final(bridge).wf(),
        caller@ != old(bridge).state.admin@ ==> r == Err::<(), BridgeError>(
            BridgeError::UnauthorizedAdmin) && *final(bridge) == *old(bridge),
        caller@ == old(bridge).state.admin@ ==> r is Ok && {
            &&& !final(bridge).state.is_paused
            &&& final(bridge).state.emergency_pause_timestamp == 0
            &&& final(bridge).state.admin == old(bridge).state.admin
            &&& final(bridge).state.bridge_id == old(bridge).state.bridge_id
            &&& final(bridge).state.min_lock_amount == old(bridge).state.min_lock_amount
            &&& final(bridge).state.max_lock_amount == old(bridge).state.max_lock_amount
            &&& final(bridge).state.bridge_fee == old(bridge).state.bridge_fee
            &&& final(bridge).state.is_active == old(bridge).state.is_active
            &&& final(bridge).state.validator_threshold == old(bridge).state.validator_threshold
            &&& final(bridge).state.qubic_chain_id == old(bridge).state.qubic_chain_id
            &&& same_counters(old(bridge).state, final(bridge).state)
            &&& final(bridge).store == old(bridge).store
            &&& final(bridge).registry == old(bridge).registry
        },
{
    if !bytes32_eq(&caller, &bridge.state.admin) {
        return Err(BridgeError::UnauthorizedAdmin);
    }
    bridge.state.is_paused = false;
    bridge.state.emergency_pause_timestamp = 0;
    Ok(())
}

/// The transfer state machine's edges: `Pending → Confirmed → Completed`,
/// with `Pending | Confirmed → Failed` and `Pending → Expired`, plus a
/// refresh of a non-terminal status. No transition leaves a terminal
/// state.
pub open spec fn transition_allowed(from: BridgeStatus, to: BridgeStatus) -> bool {
    ||| (from == to && !from.spec_is_terminal())
    ||| (from is Pending && (to is Confirmed || to is Failed || to is Expired))
    ||| (from is Confirmed && (to is Completed || to is Failed))
}

/// Executable form of `transition_allowed`.
pub fn check_transition(from: BridgeStatus, to: BridgeStatus) -> (r: bool)
    ensures
        r == transition_allowed(from, to),
{
    match from {
        BridgeStatus::Pending => match to {
            BridgeStatus::Pending => true,
            BridgeStatus::Confirmed => true,
            BridgeStatus::Failed => true,
            BridgeStatus::Expired => true,
            BridgeStatus::Completed => false,
        },
        BridgeStatus::Confirmed => match to {
            BridgeStatus::Confirmed => true,
            BridgeStatus::Completed => true,
            BridgeStatus::Failed => true,
            _ => false,
        },
        _ => false,
    }
}

/// Why a status update would be refused, in check order.
pub open spec fn update_bridge_state_denied(b: Bridge, bridge_id: u64, status: u8,
    validator: [u8; 32]) -> Option<BridgeError> {
    if !is_active_validator_spec(b.registry.entries@, validator@) {
        Some(BridgeError::UnauthorizedValidator)
    } else if !b.store.contains_id(bridge_id) {
        Some(BridgeError::InvalidBridgeTransaction)
    } else if spec_status_from_code(status) is None {
        Some(BridgeError::InvalidBridgeState)
    } else if !transition_allowed(b.store.tx(bridge_id).status, spec_status_from_code(
        status)->Some_0) {
        Some(BridgeError::InvalidBridgeState)
    } else {
        None
    }
}

/// Validator-driven status synchronization: moves the record along an
/// allowed edge of the state machine and refreshes its confirmation count.
/// The ledger, the registry and every other record are untouched.
pub fn update_bridge_state(bridge: &mut Bridge, bridge_id: u64, status: u8, confirmations: u64,
    validator: [u8; 32], now: i64) -> (r: Result<(), BridgeError>)
    requires
        old(bridge).wf(),
    ensures
        final(bridge).wf(),
        update_bridge_state_denied(*old(bridge), bridge_id, status, validator) matches Some(
            e) ==> r == Err::<(), BridgeError>(e) && *final(bridge) == *old(bridge),
        update_bridge_state_denied(*old(bridge), bridge_id, status, validator) is None ==> r
            is Ok && {
            let i = bridge_id - 1;
            let t0 = old(bridge).store.entries@[i];
            let t1 = final(bridge).store.entries@[i];
            &&& final(bridge).store.entries@.len() == old(bridge).store.entries@.len()
            &&& (forall|k: int|
                0 <= k < old(bridge).store.entries@.len() && k != i ==> final(
                    bridge).store.entries@[k] == old(bridge).store.entries@[k])
            &&& t1.status == spec_status_from_code(status)->Some_0
            &&& t1.confirmations == confirmations
            &&& t1.updated_at == now
            &&& t1.id == t0.id
            &&& t1.user == t0.user
            &&& t1.amount == t0.amount
            &&& t1.actual_amount == t0.actual_amount
            &&& t1.fee == t0.fee
            &&& t1.is_processed == t0.is_processed
            &&& t1.validator_signatures@ == t0.validator_signatures@
            &&& t1.created_at == t0.created_at
            &&& t1.completed_at == t0.completed_at
            &&& final(bridge).state == old(bridge).state
            &&& final(bridge).registry == old(bridge).registry
        },
{
    if !bridge.registry.is_active_validator(&validator) {
        return Err(BridgeError::UnauthorizedValidator);
    }
    let idx = match bridge.store.find_transaction(bridge_id) {
        Some(i) => i,
        None => {
            return Err(BridgeError::InvalidBridgeTransaction);
        },
    };
    let new_status = match status_from_code(status) {
        Some(s) => s,
        None => {
            return Err(BridgeError::InvalidBridgeState);
        },
    };
    let cur_status = {
        let t = &bridge.store.entries[idx];
        t.status
    };
    if !check_transition(cur_status, new_status) {
        return Err(BridgeError::InvalidBridgeState);
    }
    let mut tx = bridge.store.entries.remove(idx);
    tx.status = new_status;
    tx.confirmations = confirmations;
    tx.updated_at = now;
    let ghost tx1 = tx;
    bridge.store.entries.insert(idx, tx);
    proof {
        assert(bridge.store.entries@ =~= old(bridge).store.entries@.update(idx as int, tx1));
    }
    Ok(())
}

/// Why a validation attestation would be refused, in check order.
pub open spec fn validate_bridge_denied(b: Bridge, bridge_id: u64, validator: [u8;
    32]) -> Option<BridgeError> {
    if b.state.is_paused {
        Some(BridgeError::BridgePaused)
    } else if !is_active_validator_spec(b.registry.entries@, validator@) {
        Some(BridgeError::UnauthorizedValidator)
    } else if !b.store.contains_id(bridge_id) {
        Some(BridgeError::InvalidBridgeTransaction)
    } else if !(b.store.tx(bridge_id).status is Pending) {
        Some(BridgeError::InvalidBridgeTransaction)
    } else {
        None
    }
}

/// An individual validator confirms a pending transfer: the record takes
/// the observed cross-chain transaction hash and one more confirmation,
/// the validator's activity timestamp is refreshed, and the observed-block
/// counter advances. Status does not change here: the record stays
/// `Pending` until the destination-chain unlock validates a signature set.
pub fn validate_bridge(bridge: &mut Bridge, bridge_id: u64, qubic_tx_hash: [u8; 32],
    validator: [u8; 32], now: i64) -> (r: Result<(), BridgeError>)
    requires
        old(bridge).wf(),
        old(bridge).state.last_qubic_block < u64::MAX,
        forall|k: int|
            0 <= k < old(bridge).store.entries@.len() ==> (#[trigger] old(bridge).store.entries@[
                k].confirmations) < u64::MAX,
    ensures
        final(bridge).wf(),
        validate_bridge_denied(*old(bridge), bridge_id, validator) matches Some(e) ==> r
            == Err::<(), BridgeError>(e) && *final(bridge) == *old(bridge),
        validate_bridge_denied(*old(bridge), bridge_id, validator) is None ==> r is Ok && {
            let i = bridge_id - 1;
            let t0 = old(bridge).store.entries@[i];
            let t1 = final(bridge).store.entries@[i];
            &&& final(bridge).store.entries@.len() == old(bridge).store.entries@.len()
            &&& (forall|k: int|
                0 <= k < old(bridge).store.entries@.len() && k != i ==> final(
                    bridge).store.entries@[k] == old(bridge).store.entries@[k])
            &&& t1.qubic_tx_hash == qubic_tx_hash
            &&& t1.confirmations == t0.confirmations + 1
            &&& t1.updated_at == now
            &&& t1.status == t0.status
            &&& t1.is_processed == t0.is_processed
            &&& t1.id == t0.id
            &&& final(bridge).state.last_qubic_block == old(bridge).state.last_qubic_block + 1
            &&& same_config(old(bridge).state, final(bridge).state)
            &&& final(bridge).state.active_validators == old(bridge).state.active_validators
            &&& final(bridge).state.total_locked_tokens == old(bridge).state.total_locked_tokens
            &&& final(bridge).state.total_unlocked_tokens == old(
                bridge).state.total_unlocked_tokens
            &&& final(bridge).state.total_bridge_transactions == old(
                bridge).state.total_bridge_transactions
            &&& final(bridge).state.total_validator_actions == old(
                bridge).state.total_validator_actions
            &&& final(bridge).state.next_lock_id == old(bridge).state.next_lock_id
            &&& final(bridge).registry.entries@.len() == old(bridge).registry.entries@.len()
            &&& exists|vi: int|
                #![auto]
                {
                    &&& 0 <= vi < old(bridge).registry.entries@.len()
                    &&& old(bridge).registry.entries@[vi].pubkey@ == validator@
                    &&& final(bridge).registry.entries@[vi].last_activity == now
                    &&& final(bridge).registry.entries@[vi].pubkey == old(
                        bridge).registry.entries@[vi].pubkey
                    &&& final(bridge).registry.entries@[vi].is_active == old(
                        bridge).registry.entries@[vi].is_active
                    &&& final(bridge).registry.entries@[vi].stake == old(
                        bridge).registry.entries@[vi].stake
                    &&& (forall|k: int|
                        0 <= k < old(bridge).registry.entries@.len() && k != vi ==> final(
                            bridge).registry.entries@[k] == old(bridge).registry.entries@[k])
                }
        },
{
    if bridge.state.is_paused {
        return Err(BridgeError::BridgePaused);
    }
    if !bridge.registry.is_active_validator(&validator) {
        return Err(BridgeError::UnauthorizedValidator);
    }
    let idx = match bridge.store.find_transaction(bridge_id) {
        Some(i) => i,
        None => {
            return Err(BridgeError::InvalidBridgeTransaction);
        },
    };
    let pending = {
        let t = &bridge.store.entries[idx];
        t.status == BridgeStatus::Pending
    };
    if !pending {
        return Err(BridgeError::InvalidBridgeTransaction);
    }
    let mut tx = bridge.store.entries.remove(idx);
    tx.qubic_tx_hash = qubic_tx_hash;
    tx.confirmations = tx.confirmations + 1;
    tx.updated_at = now;
    let ghost tx1 = tx;
    bridge.store.entries.insert(idx, tx);
    proof {
        assert(bridge.store.entries@ =~= old(bridge).store.entries@.update(idx as int, tx1));
    }
    let vidx = match bridge.registry.find_validator(&validator) {
        Some(i) => i,
        None => {
            proof {
                assert(false);
            }
            return Err(BridgeError::UnauthorizedValidator);
        },
    };
    let mut e = bridge.registry.entries.remove(vidx);
    e.last_activity = now;
    let ghost e1 = e;
    bridge.registry.entries.insert(vidx, e);
    proof {
        let pre_entries = old(bridge).registry.entries@;
        assert(bridge.registry.entries@ =~= pre_entries.update(vidx as int, e1));
        lemma_count_active_update(pre_entries, vidx as int, e1);
        assert forall|i: int, j: int|
            0 <= i < j < bridge.registry.entries@.len() implies bridge.registry.entries@[
            i].pubkey@ != bridge.registry.entries@[j].pubkey@ by {
            assert(bridge.registry.entries@[i].pubkey@ == pre_entries[i].pubkey@);
            assert(bridge.registry.entries@[j].pubkey@ == pre_entries[j].pubkey@);
        }
    }
    bridge.state.last_qubic_block = bridge.state.last_qubic_block + 1;
    Ok(())
}

/// Read-only projection of the ledger; no authorization required and no
/// side effects — it answers the same whether or not the bridge is paused.
#[derive(Clone, Copy, Debug)]
pub struct BridgeInfoResponse {
    pub bridge_id: u64,
    pub min_lock_amount: u64,
    pub max_lock_amount: u64,
    pub bridge_fee: u64,
    pub is_active: bool,
    pub validator_count: u64,
    pub required_signatures: u64,
    pub total_locked: u64,
    pub total_unlocked: u64,
    pub total_transfers: u64,
    pub total_validator_actions: u64,
}

/// Read-only projection of one transfer record.
#[derive(Clone, Copy, Debug)]
pub struct LockInfoResponse {
    pub locker: [u8; 32],
    pub amount: u64,
    pub actual_amount: u64,
    pub fee: u64,
    pub timestamp: i64,
    pub qubic_destination: [u8; 32],
    pub memo: [u8; 64],
    pub is_processed: bool,
    pub status: u8,
}

/// Query: the ledger's configuration and aggregates.
pub fn get_bridge_info(bridge: &Bridge) -> (r: BridgeInfoResponse)
    ensures
        r.bridge_id == bridge.state.bridge_id,
        r.min_lock_amount == bridge.state.min_lock_amount,
        r.max_lock_amount == bridge.state.max_lock_amount,
        r.bridge_fee == bridge.state.bridge_fee,
        r.is_active == bridge.state.is_active,
        r.validator_count == bridge.state.active_validators,
        r.required_signatures == bridge.state.validator_threshold,
        r.total_locked == bridge.state.total_locked_tokens,
        r.total_unlocked == bridge.state.total_unlocked_tokens,
        r.total_transfers == bridge.state.total_bridge_transactions,
        r.total_validator_actions == bridge.state.total_validator_actions,
{
    BridgeInfoResponse {
        bridge_id: bridge.state.bridge_id,
        min_lock_amount: bridge.state.min_lock_amount,
        max_lock_amount: bridge.state.max_lock_amount,
        bridge_fee: bridge.state.bridge_fee,
        is_active: bridge.state.is_active,
        validator_count: bridge.state.active_validators as u64,
        required_signatures: bridge.state.validator_threshold as u64,
        total_locked: bridge.state.total_locked_tokens,
        total_unlocked: bridge.state.total_unlocked_tokens,
        total_transfers: bridge.state.total_bridge_transactions,
        total_validator_actions: bridge.state.total_validator_actions,
    }
}

/// Query: one transfer record's projection, by id. Succeeds exactly when
/// the id was ever issued, whether or not the bridge is paused.
pub fn get_lock_info(bridge: &Bridge, lock_id: u64) -> (r: Result<LockInfoResponse, BridgeError>)
    requires
        bridge.store.wf(),
    ensures
        r is Ok <==> bridge.store.contains_id(lock_id),
        r is Err ==> r == Err::<LockInfoResponse, BridgeError>(
            BridgeError::BridgeTransactionNotFound),
        r matches Ok(info) ==> {
            let tx = bridge.store.tx(lock_id);
            &&& info.locker == tx.user
            &&& info.amount == tx.amount
            &&& info.actual_amount == tx.actual_amount
            &&& info.fee == tx.fee
            &&& info.timestamp == tx.created_at
            &&& info.qubic_destination == tx.qubic_destination
            &&& info.memo == tx.memo
            &&& info.is_processed == tx.is_processed
            &&& info.status == spec_status_code(tx.status)
        },
{
    let idx = match bridge.store.find_transaction(lock_id) {
        Some(i) => i,
        None => {
            return Err(BridgeError::BridgeTransactionNotFound);
        },
    };
    let t = &bridge.store.entries[idx];
    Ok(LockInfoResponse {
        locker: t.user,
        amount: t.amount,
        actual_amount: t.actual_amount,
        fee: t.fee,
        timestamp: t.created_at,
        qubic_destination: t.qubic_destination,
        memo: t.memo,
        is_processed: t.is_processed,
        status: status_code(t.status),
    })
}

/// Lock rejects every out-of-bounds amount with `InvalidAmount` — and by
/// `lock_assets`' contract a refused lock leaves every counter and record
/// untouched.
pub proof fn lemma_lock_rejects_out_of_bounds(b: Bridge, amount: u64, user_balance: u64)
    requires
        b.state.is_active,
        !b.state.is_paused,
        amount < b.state.min_lock_amount || amount > b.state.max_lock_amount,
    ensures
        lock_denied(b, amount, user_balance) == Some(BridgeError::InvalidAmount),
{
}

/// A successful lock issues exactly the ledger's next id and advances the
/// counter by one; since well-formedness pins every stored record's id
/// strictly below the counter, an issued id is never reused — not even
/// after a failed or expired transfer, whose record keeps its id forever.
pub proof fn lemma_lock_fresh_id(pre: Bridge, post: Bridge, user: [u8; 32], token_mint: [u8; 32],
    amount: u64, qubic_destination: [u8; 32], memo: [u8; 64], now: i64)
    requires
        pre.wf(),
        lock_ok_post(pre, post, user, token_mint, amount, qubic_destination, memo, now),
    ensures
        post.state.next_lock_id == pre.state.next_lock_id + 1,
        post.store.entries@.last().id == pre.state.next_lock_id,
        forall|k: int|
            0 <= k < pre.store.entries@.len() ==> (#[trigger] pre.store.entries@[k].id)
                < pre.state.next_lock_id,
{
}

/// The replay guard: after a successful unlock of `lock_id`, a second
/// unlock of the same id — whatever its amount, recipient or signature
/// set — is denied with `TransactionAlreadyCompleted`, and the unlocked
/// total has grown exactly once.
pub proof fn lemma_unlock_replay_guard(pre: Bridge, post: Bridge, lock_id: u64, amount1: u64,
    sigs1: Seq<ValidatorSignature>, validator1: [u8; 32], now1: i64, amount2: u64,
    sigs2: Seq<ValidatorSignature>, validator2: [u8; 32])
    requires
        pre.wf(),
        unlock_denied(pre, lock_id, amount1, sigs1, validator1) is None,
        unlock_ok_post(pre, post, lock_id, amount1, sigs1, now1),
        is_active_validator_spec(post.registry.entries@, validator2@),
    ensures
        unlock_denied(post, lock_id, amount2, sigs2, validator2) == Some(
            BridgeError::TransactionAlreadyCompleted),
        post.state.total_unlocked_tokens == pre.state.total_unlocked_tokens + amount1,
{
}

/// The threshold gate: whenever the distinct-active-signer count of the
/// submitted set falls short of the threshold, an otherwise well-formed
/// unlock is denied with `InsufficientValidatorSignatures` — regardless of
/// the amount or the recipient.
pub proof fn lemma_unlock_threshold_gate(b: Bridge, lock_id: u64, amount: u64,
    sigs: Seq<ValidatorSignature>, validator: [u8; 32])
    requires
        b.state.is_active,
        !b.state.is_paused,
        is_active_validator_spec(b.registry.entries@, validator@),
        b.store.contains_id(lock_id),
        !b.store.tx(lock_id).is_processed,
        !b.store.tx(lock_id).status.spec_is_terminal(),
        distinct_active_signers(sigs, b.registry.entries@) < b.state.validator_threshold,
    ensures
        unlock_denied(b, lock_id, amount, sigs, validator) == Some(
            BridgeError::InsufficientValidatorSignatures),
{
}

/// After a validator is removed, a signature set that names only that
/// validator — however many times the same identity is repeated — counts
/// zero distinct active signers, so an otherwise well-formed unlock is
/// denied with `InsufficientValidatorSignatures`: the threshold compares
/// distinct active identities, not raw signature count.
pub proof fn lemma_removed_validator_signatures_rejected(pre: Bridge, post: Bridge,
    removed: [u8; 32], lock_id: u64, amount: u64, sigs: Seq<ValidatorSignature>, caller: [u8;
    32])
    requires
        pre.wf(),
        post.wf(),
        remove_validator_ok_post(pre, post, removed),
        forall|i: int| 0 <= i < sigs.len() ==> (#[trigger] sigs[i].validator_id@) == removed@,
        post.state.is_active,
        !post.state.is_paused,
        is_active_validator_spec(post.registry.entries@, caller@),
        post.store.contains_id(lock_id),
        !post.store.tx(lock_id).is_processed,
        !post.store.tx(lock_id).status.spec_is_terminal(),
    ensures
        unlock_denied(post, lock_id, amount, sigs, caller) == Some(
            BridgeError::InsufficientValidatorSignatures),
{
    assert(!is_active_validator_spec(post.registry.entries@, removed@)) by {
        if is_active_validator_spec(post.registry.entries@, removed@) {
            let j = choose|j: int|
                0 <= j < post.registry.entries@.len() && post.registry.entries@[j].pubkey@
                    == removed@ && post.registry.entries@[j].is_active;
            let i = choose|i: int|
                #![auto]
                0 <= i < pre.registry.entries@.len() && pre.registry.entries@[i].pubkey@
                    == removed@ && post.registry.entries@[i].pubkey@ == removed@
                    && !post.registry.entries@[i].is_active;
            assert(j != i);
            assert(false);
        }
    }
    lemma_single_inactive_signer(sigs, post.registry.entries@, removed@);
}

} // verus!
