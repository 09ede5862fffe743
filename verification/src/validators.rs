//! The validator registry: validator identity records, activity and
//! reputation, and the threshold rule that gates an unlock — the count of
//! *distinct active* validator identities present in a signature set.

use vstd::prelude::*;
use crate::errors::BridgeError;
use crate::types::ValidatorSignature;

verus! {

broadcast use vstd::array::group_array_axioms;

/// One registered validator of the bridge.
#[derive(Debug)]
pub struct ValidatorInfo {
    pub pubkey: [u8; 32],
    /// Hex rendering of the validator's 32-byte id on the other chain.
    pub qubic_validator_id: String,
    pub is_active: bool,
    /// Reputation counter: +1 on a successful outcome, -1 (floored at 0)
    /// on a failed one.
    pub stake: u64,
    pub last_activity: i64,
}

impl ValidatorInfo {
    /// Records the outcome of one validator action and refreshes the
    /// activity timestamp.
    pub fn update_reputation(&mut self, success: bool, now: i64)
        requires
            old(self).stake < u64::MAX,
        ensures
            success ==> final(self).stake == old(self).stake + 1,
            !success && old(self).stake > 0 ==> final(self).stake == old(self).stake - 1,
            !success && old(self).stake == 0 ==> final(self).stake == 0,
            final(self).last_activity == now,
            final(self).pubkey == old(self).pubkey,
            final(self).qubic_validator_id@ == old(self).qubic_validator_id@,
            final(self).is_active == old(self).is_active,
    {
        if success {
            self.stake = self.stake + 1;
        } else if self.stake > 0 {
            self.stake = self.stake - 1;
        }
        self.last_activity = now;
    }
}

/// Byte-for-byte equality of two 32-byte identities.
pub fn bytes32_eq(a: &[u8; 32], b: &[u8; 32]) -> (r: bool)
    ensures
        r == (a@ == b@),
{
    let mut i: usize = 0;
    while i < 32
        invariant
            i <= 32,
            forall|k: int| 0 <= k < i ==> a@[k] == b@[k],
        decreases 32 - i,
    {
        if a[i] != b[i] {
            assert(a@[i as int] != b@[i as int]);
            return false;
        }
        i = i + 1;
    }
    proof {
        assert(a@ =~= b@);
    }
    true
}

/// A pubkey occurs among the entries.
pub open spec fn is_registered(entries: Seq<ValidatorInfo>, pubkey: Seq<u8>) -> bool {
    exists|i: int| 0 <= i < entries.len() && entries[i].pubkey@ == pubkey
}

/// A pubkey occurs among the entries and that entry is active.
pub open spec fn is_active_validator_spec(entries: Seq<ValidatorInfo>, pubkey: Seq<u8>) -> bool {
    exists|i: int| 0 <= i < entries.len() && entries[i].pubkey@ == pubkey && entries[i].is_active
}

/// No two entries share a pubkey.
pub open spec fn unique_pubkeys(entries: Seq<ValidatorInfo>) -> bool {
    forall|i: int, j: int|
        0 <= i < j < entries.len() ==> entries[i].pubkey@ != entries[j].pubkey@
}

/// The number of active entries.
pub open spec fn count_active(entries: Seq<ValidatorInfo>) -> int
    decreases entries.len(),
{
    if entries.len() == 0 {
        0
    } else {
        count_active(entries.drop_last()) + if entries.last().is_active {
            1int
        } else {
            0int
        }
    }
}

pub proof fn lemma_count_active_push(entries: Seq<ValidatorInfo>, e: ValidatorInfo)
    ensures
        count_active(entries.push(e)) == count_active(entries) + if e.is_active {
            1int
        } else {
            0int
        },
{
    assert(entries.push(e).drop_last() =~= entries);
}

pub proof fn lemma_count_active_update(entries: Seq<ValidatorInfo>, i: int, e: ValidatorInfo)
    requires
        0 <= i < entries.len(),
    ensures
        count_active(entries.update(i, e)) == count_active(entries) + (if e.is_active {
            1int
        } else {
            0int
        }) - (if entries[i].is_active {
            1int
        } else {
            0int
        }),
    decreases entries.len(),
{
    let u = entries.update(i, e);
    if i == entries.len() - 1 {
        assert(u.drop_last() =~= entries.drop_last());
        assert(u.last() == e);
    } else {
        assert(u.drop_last() =~= entries.drop_last().update(i, e));
        assert(u.last() == entries.last());
        lemma_count_active_update(entries.drop_last(), i, e);
    }
}

pub proof fn lemma_count_active_ge_one(entries: Seq<ValidatorInfo>, i: int)
    requires
        0 <= i < entries.len(),
        entries[i].is_active,
    ensures
        count_active(entries) >= 1,
    decreases entries.len(),
{
    lemma_count_active_bounds(entries.drop_last());
    if i < entries.len() - 1 {
        lemma_count_active_ge_one(entries.drop_last(), i);
    }
}

pub proof fn lemma_count_active_bounds(entries: Seq<ValidatorInfo>)
    ensures
        0 <= count_active(entries) <= entries.len(),
    decreases entries.len(),
{
    if entries.len() > 0 {
        lemma_count_active_bounds(entries.drop_last());
    }
}

/// The identity occurs among the signatures.
pub open spec fn signers_contain(sigs: Seq<ValidatorSignature>, id: Seq<u8>) -> bool {
    exists|i: int| 0 <= i < sigs.len() && sigs[i].validator_id@ == id
}

/// The number of distinct validator identities in `sigs` that are active
/// in the registry. This — not the raw signature count — is what an unlock
/// compares against the threshold: a signature from a deactivated
/// validator does not count, and repeating one identity does not help.
pub open spec fn distinct_active_signers(sigs: Seq<ValidatorSignature>,
    entries: Seq<ValidatorInfo>) -> int
    decreases sigs.len(),
{
    if sigs.len() == 0 {
        0
    } else {
        distinct_active_signers(sigs.drop_last(), entries) + if is_active_validator_spec(entries,
            sigs.last().validator_id@) && !signers_contain(sigs.drop_last(),
            sigs.last().validator_id@) {
            1int
        } else {
            0int
        }
    }
}

/// A signature set whose every entry names one single identity that is
/// inactive in the registry contributes no distinct active signer at all —
/// however long the set is.
pub proof fn lemma_single_inactive_signer(sigs: Seq<ValidatorSignature>,
    entries: Seq<ValidatorInfo>, id: Seq<u8>)
    requires
        forall|i: int| 0 <= i < sigs.len() ==> sigs[i].validator_id@ == id,
        !is_active_validator_spec(entries, id),
    ensures
        distinct_active_signers(sigs, entries) == 0,
    decreases sigs.len(),
{
    if sigs.len() > 0 {
        lemma_single_inactive_signer(sigs.drop_last(), entries, id);
    }
}

/// The registry of validator records. Records are never deleted: removal
/// only deactivates, so history is retained.
#[derive(Debug)]
pub struct ValidatorRegistry {
    pub entries: Vec<ValidatorInfo>,
}

impl ValidatorRegistry {
    /// Registry well-formedness: pubkeys are unique, so activity lookups
    /// are unambiguous.
    pub open spec fn wf(self) -> bool {
        unique_pubkeys(self.entries@)
    }

    pub fn new() -> (r: Self)
        ensures
            r.entries@.len() == 0,
            r.wf(),
    {
        ValidatorRegistry { entries: Vec::new() }
    }

    /// Index of the entry holding `pubkey`, if any.
    pub fn find_validator(&self, pubkey: &[u8; 32]) -> (r: Option<usize>)
        ensures
            r matches Some(i) ==> i < self.entries@.len() && self.entries@[i as int].pubkey@
                == pubkey@,
            r is None ==> !is_registered(self.entries@, pubkey@),
    {
        let n = self.entries.len();
        let mut i: usize = 0;
        while i < n
            invariant
                n == self.entries@.len(),
                i <= n,
                forall|k: int| 0 <= k < i ==> self.entries@[k].pubkey@ != pubkey@,
            decreases n - i,
        {
            if bytes32_eq(&self.entries[i].pubkey, pubkey) {
                return Some(i);
            }
            i = i + 1;
        }
        None
    }

    /// Whether `pubkey` is a registered, active validator.
    pub fn is_active_validator(&self, pubkey: &[u8; 32]) -> (r: bool)
        requires
            self.wf(),
        ensures
            r == is_active_validator_spec(self.entries@, pubkey@),
    {
        match self.find_validator(pubkey) {
            Some(i) => {
                let active = self.entries[i].is_active;
                proof {
                    if !active && is_active_validator_spec(self.entries@, pubkey@) {
                        let j = choose|j: int|
                            0 <= j < self.entries@.len() && self.entries@[j].pubkey@ == pubkey@
                                && self.entries@[j].is_active;
                        assert(j != i);
                        assert(false);
                    }
                }
                active
            },
            None => false,
        }
    }

    /// Flips the entry at `i` to inactive; every other field and every
    /// other entry is untouched.
    pub fn deactivate_at(&mut self, i: usize)
        requires
            i < old(self).entries@.len(),
        ensures
            final(self).entries@.len() == old(self).entries@.len(),
            forall|k: int|
                0 <= k < old(self).entries@.len() && k != i ==> final(self).entries@[k] == old(
                    self).entries@[k],
            final(self).entries@[i as int].pubkey == old(self).entries@[i as int].pubkey,
            final(self).entries@[i as int].qubic_validator_id@ == old(self).entries@[
                i as int].qubic_validator_id@,
            !final(self).entries@[i as int].is_active,
            final(self).entries@[i as int].stake == old(self).entries@[i as int].stake,
            final(self).entries@[i as int].last_activity == old(self).entries@[
                i as int].last_activity,
    {
        let mut e = self.entries.remove(i);
        e.is_active = false;
        let ghost e_snap = e;
        self.entries.insert(i, e);
        proof {
            assert(self.entries@ =~= old(self).entries@.update(i as int, e_snap));
        }
    }

    /// Records the outcome of one action by the validator `pubkey`:
    /// reputation up on success, down (floored at zero) on failure, and a
    /// fresh activity timestamp. Fails only when the validator is unknown.
    pub fn record_outcome(&mut self, pubkey: &[u8; 32], success: bool, now: i64) -> (r: Result<
        (), BridgeError>)
        requires
            forall|k: int|
                0 <= k < old(self).entries@.len() ==> old(self).entries@[k].stake < u64::MAX,
        ensures
            r is Ok <==> is_registered(old(self).entries@, pubkey@),
            r is Err ==> r == Err::<(), BridgeError>(BridgeError::ValidatorNotFound) && *final(
                self) == *old(self),
            r is Ok ==> {
                &&& final(self).entries@.len() == old(self).entries@.len()
                &&& exists|i: int|
                    {
                        &&& 0 <= i < old(self).entries@.len()
                        &&& old(self).entries@[i].pubkey@ == pubkey@
                        &&& (forall|k: int|
                            0 <= k < old(self).entries@.len() && k != i ==> final(self).entries@[k]
                                == old(self).entries@[k])
                        &&& final(self).entries@[i].last_activity == now
                        &&& final(self).entries@[i].is_active == old(self).entries@[i].is_active
                        &&& final(self).entries@[i].pubkey == old(self).entries@[i].pubkey
                        &&& (success ==> final(self).entries@[i].stake == old(
                            self).entries@[i].stake + 1)
                        &&& (!success && old(self).entries@[i].stake > 0 ==> final(
                            self).entries@[i].stake == old(self).entries@[i].stake - 1)
                        &&& (!success && old(self).entries@[i].stake == 0 ==> final(
                            self).entries@[i].stake == 0)
                    }
            },
    {
        match self.find_validator(pubkey) {
            Some(i) => {
                let mut e = self.entries.remove(i);
                e.update_reputation(success, now);
                let ghost e_snap = e;
                self.entries.insert(i, e);
                proof {
                    assert(self.entries@ =~= old(self).entries@.update(i as int, e_snap));
                    assert(old(self).entries@[i as int].pubkey@ == pubkey@);
                }
                Ok(())
            },
            None => Err(BridgeError::ValidatorNotFound),
        }
    }

    /// The number of distinct identities in `sigs` that are active here.
    pub fn count_distinct_active_signers(&self, sigs: &Vec<ValidatorSignature>) -> (n: usize)
        requires
            self.wf(),
        ensures
            n == distinct_active_signers(sigs@, self.entries@),
            n <= sigs@.len(),
    {
        let m = sigs.len();
        let mut n: usize = 0;
        let mut i: usize = 0;
        while i < m
            invariant
                self.wf(),
                m == sigs@.len(),
                i <= m,
                n <= i,
                n == distinct_active_signers(sigs@.take(i as int), self.entries@),
            decreases m - i,
        {
            let active = self.is_active_validator(&sigs[i].validator_id);
            let mut dup = false;
            let mut j: usize = 0;
            while j < i
                invariant
                    m == sigs@.len(),
                    j <= i,
                    i < m,
                    dup == signers_contain(sigs@.take(j as int), sigs@[i as int].validator_id@),
                decreases i - j,
            {
                let ghost before = sigs@.take(j as int);
                if bytes32_eq(&sigs[j].validator_id, &sigs[i].validator_id) {
                    dup = true;
                }
                proof {
                    let after = sigs@.take(j as int + 1);
                    assert(after.drop_last() =~= before);
                    assert(after.last() == sigs@[j as int]);
                    if dup {
                        if sigs@[j as int].validator_id@ == sigs@[i as int].validator_id@ {
                            assert(after[j as int] == sigs@[j as int]);
                            assert(signers_contain(after, sigs@[i as int].validator_id@));
                        } else {
                            let w = choose|k: int|
                                0 <= k < before.len() && before[k].validator_id@ == sigs@[
                                    i as int].validator_id@;
                            assert(after[w] == before[w]);
                            assert(signers_contain(after, sigs@[i as int].validator_id@));
                        }
                    } else {
                        if signers_contain(after, sigs@[i as int].validator_id@) {
                            let w = choose|k: int|
                                0 <= k < after.len() && after[k].validator_id@ == sigs@[
                                    i as int].validator_id@;
                            if w < j {
                                assert(before[w] == after[w]);
                                assert(signers_contain(before, sigs@[i as int].validator_id@));
                            }
                            assert(false);
                        }
                    }
                }
                j = j + 1;
            }
            proof {
                assert(sigs@.take(i as int) =~= sigs@.take(j as int));
            }
            if active && !dup {
                n = n + 1;
            }
            proof {
                let next = sigs@.take(i as int + 1);
                assert(next.drop_last() =~= sigs@.take(i as int));
                assert(next.last() == sigs@[i as int]);
            }
            i = i + 1;
        }
        proof {
            assert(sigs@.take(m as int) =~= sigs@);
        }
        n
    }
}

/// A plain list of validator pubkeys with a set-wide active flag, as
/// stored alongside the bridge state.
#[derive(Debug)]
pub struct ValidatorSet {
    pub validators: Vec<[u8; 32]>,
    pub active: bool,
}

/// Identity record of the stand-alone validator program.
#[derive(Clone, Copy, Debug)]
pub struct ValidatorState {
    pub validator_pubkey: [u8; 32],
    pub qubic_validator_id: [u8; 32],
    pub is_active: bool,
}

/// One recorded validation verdict over a transaction hash.
#[derive(Clone, Copy, Debug)]
pub struct ValidationState {
    pub transaction_hash: [u8; 32],
    pub is_valid: bool,
}

/// Registers a validator identity: the fresh record is active.
pub fn register_validator(validator_pubkey: [u8; 32], qubic_validator_id: [u8; 32]) -> (r:
    ValidatorState)
    ensures
        r.validator_pubkey == validator_pubkey,
        r.qubic_validator_id == qubic_validator_id,
        r.is_active,
{
    ValidatorState { validator_pubkey, qubic_validator_id, is_active: true }
}

/// Sets the active flag of a validator identity record.
pub fn update_validator_status(state: &mut ValidatorState, is_active: bool)
    ensures
        final(state).is_active == is_active,
        final(state).validator_pubkey == old(state).validator_pubkey,
        final(state).qubic_validator_id == old(state).qubic_validator_id,
{
    state.is_active = is_active;
}

/// Records a validation verdict for `transaction_hash`.
pub fn validate_transaction(transaction_hash: [u8; 32], is_valid: bool) -> (r: ValidationState)
    ensures
        r.transaction_hash == transaction_hash,
        r.is_valid == is_valid,
{
    ValidationState { transaction_hash, is_valid }
}

} // verus!
