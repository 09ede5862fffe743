//! Per-validator performance bookkeeping of the stand-alone validator
//! service: a running tally of validations and a small membership list.

use vstd::prelude::*;

verus! {

/// Counters of validations performed, split by outcome.
#[derive(Clone, Copy, Debug, PartialEq, Eq, Structural)]
pub struct PerformanceMetrics {
    pub total_validations: u64,
    pub successful_validations: u64,
    pub failed_validations: u64,
}

impl Default for PerformanceMetrics {
    /// All counters start at zero.
    fn default() -> (r: Self)
        ensures
            r.total_validations == 0,
            r.successful_validations == 0,
            r.failed_validations == 0,
    {
        PerformanceMetrics { total_validations: 0, successful_validations: 0, failed_validations: 0 }
    }
}

/// One member of the service's validator list.
#[derive(Debug)]
pub struct ValidatorInfo {
    pub id: String,
    pub is_active: bool,
    pub stake: u64,
}

/// The validator service's own state: who it is, whom it knows, and how
/// its validations have gone.
#[derive(Debug)]
pub struct ValidatorState {
    pub validator_id: String,
    pub validators: Vec<ValidatorInfo>,
    pub performance_metrics: PerformanceMetrics,
}

impl ValidatorState {
    /// A fresh service state with zeroed metrics and no members.
    pub fn new(validator_id: String) -> (r: Self)
        ensures
            r.validator_id@ == validator_id@,
            r.validators@.len() == 0,
            r.performance_metrics.total_validations == 0,
            r.performance_metrics.successful_validations == 0,
            r.performance_metrics.failed_validations == 0,
    {
        ValidatorState {
            validator_id,
            validators: Vec::new(),
            performance_metrics: PerformanceMetrics::default(),
        }
    }

    /// Adds a member, active from the start.
    pub fn add_validator(&mut self, id: String, stake: u64)
        ensures
            final(self).validators@.len() == old(self).validators@.len() + 1,
            final(self).validators@.subrange(0, old(self).validators@.len() as int) == old(
                self).validators@,
            final(self).validators@.last().id@ == id@,
            final(self).validators@.last().is_active,
            final(self).validators@.last().stake == stake,
            final(self).validator_id@ == old(self).validator_id@,
            final(self).performance_metrics == old(self).performance_metrics,
    {
        self.validators.push(ValidatorInfo { id, is_active: true, stake });
        proof {
            assert(self.validators@.subrange(0, old(self).validators@.len() as int) =~= old(
                self).validators@);
        }
    }

    /// Deactivates the first member carrying `id`; unknown ids change
    /// nothing.
    pub fn deactivate_validator(&mut self, id: &String)
        ensures
            final(self).validator_id@ == old(self).validator_id@,
            final(self).performance_metrics == old(self).performance_metrics,
            (forall|k: int|
                0 <= k < old(self).validators@.len() ==> (#[trigger] old(self).validators@[
                    k].id@) != id@) ==> *final(self) == *old(self),
            (exists|k: int|
                0 <= k < old(self).validators@.len() && (#[trigger] old(self).validators@[k].id@)
                    == id@) ==> exists|i: int|
                #![auto]
                {
                    &&& 0 <= i < old(self).validators@.len()
                    &&& old(self).validators@[i].id@ == id@
                    &&& (forall|k: int| 0 <= k < i ==> old(self).validators@[k].id@ != id@)
                    &&& final(self).validators@.len() == old(self).validators@.len()
                    &&& (forall|k: int|
                        0 <= k < old(self).validators@.len() && k != i ==> final(
                            self).validators@[k] == old(self).validators@[k])
                    &&& final(self).validators@[i].id@ == id@
                    &&& !final(self).validators@[i].is_active
                    &&& final(self).validators@[i].stake == old(self).validators@[i].stake
                },
    {
        let n = self.validators.len();
        let mut i: usize = 0;
        while i < n
            invariant
                n == self.validators@.len(),
                i <= n,
                *self == *old(self),
                forall|k: int| 0 <= k < i ==> (#[trigger] self.validators@[k].id@) != id@,
            decreases n - i,
        {
            let matches_id = {
                let e = &self.validators[i];
                e.id == *id
            };
            if matches_id {
                let mut e = self.validators.remove(i);
                e.is_active = false;
                let ghost e1 = e;
                self.validators.insert(i, e);
                proof {
                    assert(self.validators@ =~= old(self).validators@.update(i as int, e1));
                }
                return ;
            }
            i = i + 1;
        }
    }

    /// Counts one more validation under the outcome's bucket.
    pub fn record_validation(&mut self, success: bool)
        requires
            old(self).performance_metrics.total_validations < u64::MAX,
            old(self).performance_metrics.successful_validations < u64::MAX,
            old(self).performance_metrics.failed_validations < u64::MAX,
        ensures
            final(self).performance_metrics.total_validations == old(
                self).performance_metrics.total_validations + 1,
            success ==> final(self).performance_metrics.successful_validations == old(
                self).performance_metrics.successful_validations + 1
                && final(self).performance_metrics.failed_validations == old(
                self).performance_metrics.failed_validations,
            !success ==> final(self).performance_metrics.failed_validations == old(
                self).performance_metrics.failed_validations + 1
                && final(self).performance_metrics.successful_validations == old(
                self).performance_metrics.successful_validations,
            final(self).validator_id@ == old(self).validator_id@,
            final(self).validators@ == old(self).validators@,
    {
        self.performance_metrics.total_validations = self.performance_metrics.total_validations
            + 1;
        if success {
            self.performance_metrics.successful_validations =
                self.performance_metrics.successful_validations + 1;
        } else {
            self.performance_metrics.failed_validations =
                self.performance_metrics.failed_validations + 1;
        }
    }
}

} // verus!
