//! The relay coordinator's decision core: a pure state machine over the
//! pending-set, keyed by transfer id. The surrounding process polls the
//! two chains, performs the submissions and supplies the clock; every
//! decision — what to track, what to submit, what to retire — is made
//! here, so restarts and races cannot double-submit or resurrect an entry.

use vstd::prelude::*;
use crate::crypto::zero_bytes;
use crate::types::{BridgeStatus, BridgeDirection};

verus! {

/// Static configuration of the relay process.
#[derive(Clone, Debug)]
pub struct BridgeConfig {
    pub solana_rpc_url: String,
    pub qubic_rpc_url: String,
    pub bridge_program_id: [u8; 32],
    pub validator_private_key: String,
    /// Confirmations a tracked transfer needs before it is submitted or
    /// considered settled.
    pub confirmation_threshold: u64,
    /// Submission failures tolerated before an entry is flagged for
    /// operator attention.
    pub max_retry_attempts: u32,
    pub retry_delay_seconds: u64,
}

/// The lightweight projection of one transfer that the coordinator
/// tracks; the authoritative record stays on chain.
#[derive(Clone, Copy, Debug)]
pub struct TransactionProjection {
    pub id: u64,
    pub initiator: [u8; 32],
    pub amount: u64,
    pub destination: [u8; 32],
    pub status: BridgeStatus,
    pub confirmations: u64,
    pub created_at: i64,
    pub updated_at: i64,
    pub direction: BridgeDirection,
}

/// One tracked transfer with the coordinator's own bookkeeping.
#[derive(Clone, Copy, Debug)]
pub struct RelayEntry {
    pub tx: TransactionProjection,
    /// Backpressure marker: at most one outstanding submission per id.
    pub submitted: bool,
    pub retry_count: u32,
    /// Set once the retry ceiling is reached; the transfer is then left
    /// for an operator rather than auto-failed.
    pub needs_attention: bool,
    /// Set once the transfer was observed terminal; a retired id never
    /// re-enters the pending-set.
    pub retired: bool,
}

/// The mirrored call the submitter hands to the destination chain.
#[derive(Clone, Copy, Debug)]
pub struct UnlockSubmission {
    pub lock_id: u64,
    pub recipient: [u8; 32],
    pub amount: u64,
    pub direction: BridgeDirection,
}

/// An entry with this id exists (tracked at some point, retired or not).
pub open spec fn has_entry(entries: Seq<RelayEntry>, id: u64) -> bool {
    exists|i: int| 0 <= i < entries.len() && entries[i].tx.id == id
}

/// The pending-set contains this id: tracked and not yet retired.
pub open spec fn pending_contains(entries: Seq<RelayEntry>, id: u64) -> bool {
    exists|i: int| 0 <= i < entries.len() && entries[i].tx.id == id && !entries[i].retired
}

/// No two entries share an id.
pub open spec fn unique_ids(entries: Seq<RelayEntry>) -> bool {
    forall|i: int, j: int| 0 <= i < j < entries.len() ==> entries[i].tx.id != entries[j].tx.id
}

/// An entry is ripe for submission: live, not yet submitted, and
/// confirmed at least `threshold` times.
pub open spec fn submittable(e: RelayEntry, threshold: u64) -> bool {
    &&& !e.retired
    &&& !e.submitted
    &&& e.tx.confirmations >= threshold
}

/// The number of entries still in the pending-set.
pub open spec fn count_pending(entries: Seq<RelayEntry>) -> int
    decreases entries.len(),
{
    if entries.len() == 0 {
        0
    } else {
        count_pending(entries.drop_last()) + if entries.last().retired {
            0int
        } else {
            1int
        }
    }
}

/// The off-chain coordinator state: configuration plus the pending-set.
#[derive(Debug)]
pub struct RelayCoordinator {
    pub config: BridgeConfig,
    pub pending: Vec<RelayEntry>,
}

impl RelayCoordinator {
    /// Ids are unique, so every per-id decision is unambiguous.
    pub open spec fn wf(self) -> bool {
        unique_ids(self.pending@)
    }

    pub fn new(config: BridgeConfig) -> (r: Self)
        ensures
            r.pending@.len() == 0,
            r.wf(),
            r.config.confirmation_threshold == config.confirmation_threshold,
            r.config.max_retry_attempts == config.max_retry_attempts,
    {
        RelayCoordinator { config, pending: Vec::new() }
    }

    /// Index of the entry tracking `id`, if any.
    pub fn find_entry(&self, id: u64) -> (r: Option<usize>)
        ensures
            r matches Some(i) ==> i < self.pending@.len() && self.pending@[i as int].tx.id == id,
            r is None ==> !has_entry(self.pending@, id),
    {
        let n = self.pending.len();
        let mut i: usize = 0;
        while i < n
            invariant
                n == self.pending@.len(),
                i <= n,
                forall|k: int| 0 <= k < i ==> self.pending@[k].tx.id != id,
            decreases n - i,
        {
            if self.pending[i].tx.id == id {
                return Some(i);
            }
            i = i + 1;
        }
        None
    }

    /// A poller observed `tx` on one of the chains. A new id starts being
    /// tracked; a live id takes the fresher projection, keeping the
    /// submission bookkeeping; a retired id is ignored — once an entry
    /// has left the pending-set it is never reinserted. Returns whether
    /// the observation was taken in.
    pub fn observe_transaction(&mut self, tx: TransactionProjection) -> (accepted: bool)
        requires
            old(self).wf(),
        ensures
            final(self).wf(),
            final(self).config == old(self).config,
            !has_entry(old(self).pending@, tx.id) ==> accepted && final(self).pending@ =~= old(
                self).pending@.push(RelayEntry {
                tx,
                submitted: false,
                retry_count: 0,
                needs_attention: false,
                retired: false,
            }),
            has_entry(old(self).pending@, tx.id) ==> exists|i: int|
                #![auto]
                {
                    &&& 0 <= i < old(self).pending@.len()
                    &&& old(self).pending@[i].tx.id == tx.id
                    &&& (old(self).pending@[i].retired ==> !accepted && *final(self) == *old(
                        self))
                    &&& (!old(self).pending@[i].retired ==> accepted && final(self).pending@
                        =~= old(self).pending@.update(i, RelayEntry {
                        tx,
                        ..old(self).pending@[i]
                    }))
                },
    {
        match self.find_entry(tx.id) {
            Some(i) => {
                let e = self.pending[i];
                if e.retired {
                    false
                } else {
                    let updated = RelayEntry { tx, ..e };
                    self.pending.set(i, updated);
                    true
                }
            },
            None => {
                self.pending.push(RelayEntry {
                    tx,
                    submitted: false,
                    retry_count: 0,
                    needs_attention: false,
                    retired: false,
                });
                true
            },
        }
    }

    /// Whether a tracked transfer has enough confirmations to be treated
    /// as settled by this coordinator.
    pub fn check_transaction_confirmations(&self, tx: &TransactionProjection) -> (r: bool)
        ensures
            r == (tx.confirmations >= self.config.confirmation_threshold),
    {
        tx.confirmations >= self.config.confirmation_threshold
    }

    /// The submitter's step: picks one entry that is live, unsubmitted
    /// and sufficiently confirmed, marks it submitted — never two
    /// outstanding submissions for one id — and returns the mirrored
    /// unlock call to perform. Returns `None` exactly when no entry is
    /// ripe.
    pub fn take_submission(&mut self) -> (r: Option<UnlockSubmission>)
        requires
            old(self).wf(),
        ensures
            final(self).wf(),
            final(self).config == old(self).config,
            r is None ==> *final(self) == *old(self) && (forall|k: int|
                0 <= k < old(self).pending@.len() ==> !submittable(#[trigger] old(self).pending@[
                    k], old(self).config.confirmation_threshold)),
            r matches Some(sub) ==> exists|i: int|
                #![auto]
                {
                    &&& 0 <= i < old(self).pending@.len()
                    &&& submittable(old(self).pending@[i], old(self).config.confirmation_threshold)
                    &&& final(self).pending@ =~= old(self).pending@.update(i, RelayEntry {
                        submitted: true,
                        ..old(self).pending@[i]
                    })
                    &&& sub.lock_id == old(self).pending@[i].tx.id
                    &&& sub.recipient == old(self).pending@[i].tx.destination
                    &&& sub.amount == old(self).pending@[i].tx.amount
                    &&& sub.direction == old(self).pending@[i].tx.direction
                },
    {
        let n = self.pending.len();
        let mut i: usize = 0;
        while i < n
            invariant
                n == self.pending@.len(),
                i <= n,
                *self == *old(self),
                unique_ids(self.pending@),
                forall|k: int|
                    0 <= k < i ==> !submittable(#[trigger] self.pending@[k],
                        self.config.confirmation_threshold),
            decreases n - i,
        {
            let e = self.pending[i];
            if !e.retired && !e.submitted && e.tx.confirmations
                >= self.config.confirmation_threshold {
                let updated = RelayEntry { submitted: true, ..e };
                self.pending.set(i, updated);
                proof {
                    assert forall|a: int, b: int|
                        0 <= a < b < self.pending@.len() implies self.pending@[a].tx.id
                        != self.pending@[b].tx.id by {
                        assert(self.pending@[a].tx == old(self).pending@[a].tx);
                        assert(self.pending@[b].tx == old(self).pending@[b].tx);
                    }
                }
                return Some(UnlockSubmission {
                    lock_id: e.tx.id,
                    recipient: e.tx.destination,
                    amount: e.tx.amount,
                    direction: e.tx.direction,
                });
            }
            i = i + 1;
        }
        None
    }

    /// The destination chain answered a submission for `id`. A rejection
    /// clears the submission marker so the next tick retries, counts the
    /// failure, and — once the retry ceiling is reached — flags the entry
    /// for operator attention instead of failing it. An acceptance leaves
    /// the marker in place until a poller observes the outcome. Unknown
    /// ids are ignored.
    pub fn handle_submission_result(&mut self, id: u64, accepted: bool)
        requires
            old(self).wf(),
            forall|k: int|
                0 <= k < old(self).pending@.len() ==> (#[trigger] old(self).pending@[
                    k].retry_count) < u32::MAX,
        ensures
            final(self).wf(),
            final(self).config == old(self).config,
            !has_entry(old(self).pending@, id) ==> *final(self) == *old(self),
            accepted ==> *final(self) == *old(self),
            !accepted && has_entry(old(self).pending@, id) ==> exists|i: int|
                #![auto]
                {
                    &&& 0 <= i < old(self).pending@.len()
                    &&& old(self).pending@[i].tx.id == id
                    &&& final(self).pending@ =~= old(self).pending@.update(i, RelayEntry {
                        submitted: false,
                        retry_count: (old(self).pending@[i].retry_count + 1) as u32,
                        needs_attention: old(self).pending@[i].needs_attention || old(
                            self).pending@[i].retry_count + 1 >= old(
                            self).config.max_retry_attempts,
                        ..old(self).pending@[i]
                    })
                },
    {
        if accepted {
            return ;
        }
        let idx = match self.find_entry(id) {
            Some(i) => i,
            None => {
                return ;
            },
        };
        let e = self.pending[idx];
        let retries = e.retry_count + 1;
        let updated = RelayEntry {
            submitted: false,
            retry_count: retries,
            needs_attention: e.needs_attention || retries >= self.config.max_retry_attempts,
            ..e
        };
        self.pending.set(idx, updated);
    }

    /// The reconciler's step for one id: an authoritative terminal status
    /// retires the entry — it leaves the pending-set for good. Live
    /// statuses and unknown ids change nothing.
    pub fn reconcile_transaction(&mut self, id: u64, observed: BridgeStatus)
        requires
            old(self).wf(),
        ensures
            final(self).wf(),
            final(self).config == old(self).config,
            !has_entry(old(self).pending@, id) || !observed.spec_is_terminal() ==> *final(self)
                == *old(self),
            has_entry(old(self).pending@, id) && observed.spec_is_terminal() ==> !pending_contains(
                final(self).pending@, id) && exists|i: int|
                #![auto]
                {
                    &&& 0 <= i < old(self).pending@.len()
                    &&& old(self).pending@[i].tx.id == id
                    &&& final(self).pending@ =~= old(self).pending@.update(i, RelayEntry {
                        retired: true,
                        ..old(self).pending@[i]
                    })
                },
    {
        if !observed.is_terminal() {
            return ;
        }
        let idx = match self.find_entry(id) {
            Some(i) => i,
            None => {
                return ;
            },
        };
        let e = self.pending[idx];
        let updated = RelayEntry { retired: true, ..e };
        self.pending.set(idx, updated);
        proof {
            if pending_contains(self.pending@, id) {
                let w = choose|w: int|
                    0 <= w < self.pending@.len() && self.pending@[w].tx.id == id
                        && !self.pending@[w].retired;
                assert(w != idx);
                assert(old(self).pending@[w].tx.id == id);
                assert(false);
            }
        }
    }

    /// The periodic sweep: retires every tracked entry the coordinator
    /// considers settled — those whose confirmations reached the
    /// threshold.
    pub fn process_pending_transactions(&mut self)
        requires
            old(self).wf(),
        ensures
            final(self).wf(),
            final(self).config == old(self).config,
            final(self).pending@.len() == old(self).pending@.len(),
            forall|k: int|
                0 <= k < old(self).pending@.len() ==> {
                    let e0 = #[trigger] old(self).pending@[k];
                    let e1 = final(self).pending@[k];
                    &&& e1.retired == (e0.retired || e0.tx.confirmations >= old(
                        self).config.confirmation_threshold)
                    &&& e1.tx == e0.tx
                    &&& e1.submitted == e0.submitted
                    &&& e1.retry_count == e0.retry_count
                    &&& e1.needs_attention == e0.needs_attention
                },
    {
        let n = self.pending.len();
        let mut i: usize = 0;
        while i < n
            invariant
                n == self.pending@.len(),
                i <= n,
                self.config == old(self).config,
                forall|k: int|
                    i <= k < n ==> #[trigger] self.pending@[k] == old(self).pending@[k],
                forall|k: int|
                    0 <= k < i ==> {
                        let e0 = #[trigger] old(self).pending@[k];
                        let e1 = self.pending@[k];
                        &&& e1.retired == (e0.retired || e0.tx.confirmations >= old(
                            self).config.confirmation_threshold)
                        &&& e1.tx == e0.tx
                        &&& e1.submitted == e0.submitted
                        &&& e1.retry_count == e0.retry_count
                        &&& e1.needs_attention == e0.needs_attention
                    },
            decreases n - i,
        {
            let e = self.pending[i];
            if e.tx.confirmations >= self.config.confirmation_threshold {
                let updated = RelayEntry { retired: true, ..e };
                self.pending.set(i, updated);
            }
            i = i + 1;
        }
        proof {
            assert forall|a: int, b: int|
                0 <= a < b < self.pending@.len() implies self.pending@[a].tx.id != self.pending@[
                b].tx.id by {
                assert(self.pending@[a].tx == old(self).pending@[a].tx);
                assert(self.pending@[b].tx == old(self).pending@[b].tx);
            }
        }
    }

    /// How many transfers are still in the pending-set.
    pub fn pending_count(&self) -> (n: usize)
        ensures
            n == count_pending(self.pending@),
    {
        let m = self.pending.len();
        let mut n: usize = 0;
        let mut i: usize = 0;
        while i < m
            invariant
                m == self.pending@.len(),
                i <= m,
                n <= i,
                n == count_pending(self.pending@.take(i as int)),
            decreases m - i,
        {
            if !self.pending[i].retired {
                n = n + 1;
            }
            proof {
                let next = self.pending@.take(i as int + 1);
                assert(next.drop_last() =~= self.pending@.take(i as int));
                assert(next.last() == self.pending@[i as int]);
            }
            i = i + 1;
        }
        proof {
            assert(self.pending@.take(m as int) =~= self.pending@);
        }
        n
    }
}

/// Placeholder signature bundle for an unlock submission: one zeroed
/// 64-byte signature. Real attestations come from the validators.
pub fn generate_validator_signatures() -> (r: Vec<Vec<u8>>)
    ensures
        r@.len() == 1,
        r@[0]@.len() == 64,
        forall|i: int| 0 <= i < 64 ==> r@[0]@[i] == 0u8,
{
    let mut sigs: Vec<Vec<u8>> = Vec::new();
    sigs.push(zero_bytes(64));
    sigs
}

} // verus!
