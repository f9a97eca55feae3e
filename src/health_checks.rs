//! Health-check configurations, at most one per application, and the log
//! of probe results.
use vstd::prelude::*;
use crate::error::PloyerError;
use crate::ids::new_id;
use crate::models::{HealthCheck, HealthCheckResult, HealthCheckStatus};
use crate::text::str_eq;

verus! {

/// No two rows belong to the same application.
pub open spec fn one_per_app(rows: Seq<HealthCheck>) -> bool {
    forall|i: int, j: int|
        0 <= i < rows.len() && 0 <= j < rows.len() && i != j ==> rows[i].application_id@
            != rows[j].application_id@
}

pub struct HealthCheckRepository {
    pub rows: Vec<HealthCheck>,
}

impl HealthCheckRepository {
    pub open spec fn wf(&self) -> bool {
        &&& one_per_app(self.rows@)
        &&& forall|i: int| 0 <= i < self.rows@.len() ==> (#[trigger] self.rows@[i]).wf()
    }

    pub open spec fn has_app(&self, i: int, app: Seq<char>) -> bool {
        0 <= i < self.rows@.len() && self.rows@[i].application_id@ == app
    }

    pub fn new() -> (r: HealthCheckRepository)
        ensures
            r.wf(),
            r.rows@.len() == 0,
    {
        HealthCheckRepository { rows: Vec::new() }
    }

    /// Position of the configuration of application `app`.
    pub fn get(&self, app: &str) -> (r: Option<usize>)
        ensures
            r matches Some(i) ==> self.has_app(i as int, app@),
            r is None ==> forall|j: int| !self.has_app(j, app@),
    {
        let mut i: usize = 0;
        while i < self.rows.len()
            invariant
                0 <= i <= self.rows@.len(),
                forall|j: int| 0 <= j < i ==> !self.has_app(j, app@),
            decreases self.rows@.len() - i,
        {
            if str_eq(self.rows[i].application_id.as_str(), app) {
                return Some(i);
            }
            i = i + 1;
        }
        None
    }

    /// Inserts or updates the configuration of application `application_id`.
    /// An interval, timeout or threshold below one is a bad request.
    pub fn upsert(
        &mut self,
        application_id: String,
        path: String,
        interval_seconds: i32,
        timeout_seconds: i32,
        healthy_threshold: i32,
        unhealthy_threshold: i32,
        now: i64,
    ) -> (r: Result<usize, PloyerError>)
        requires
            old(self).wf(),
        ensures
            final(self).wf(),
            r is Ok <==> interval_seconds >= 1 && timeout_seconds >= 1 && healthy_threshold >= 1
                && unhealthy_threshold >= 1,
            r matches Err(e) ==> e is BadRequest && *final(self) == *old(self),
            r matches Ok(i) ==> i < final(self).rows@.len() && final(self).rows@[i as int].application_id@
                == application_id@ && final(self).rows@[i as int].path == path
                && final(self).rows@[i as int].interval_seconds == interval_seconds
                && final(self).rows@[i as int].timeout_seconds == timeout_seconds
                && final(self).rows@[i as int].healthy_threshold == healthy_threshold
                && final(self).rows@[i as int].unhealthy_threshold == unhealthy_threshold,
            r matches Ok(i) ==> (exists|j: int| old(self).has_app(j, application_id@)) ==> (
            final(self).rows@.len() == old(self).rows@.len() && old(self).has_app(i as int, application_id@)
                && forall|j: int| 0 <= j < old(self).rows@.len() && j != i ==> final(self).rows@[j]
                == old(self).rows@[j]),
            r matches Ok(i) ==> !(exists|j: int| old(self).has_app(j, application_id@)) ==> (i
                == old(self).rows@.len() && final(self).rows@.len() == i + 1 && final(self).rows@.subrange(
                0,
                i as int,
            ) == old(self).rows@),
    {
        if interval_seconds < 1 || timeout_seconds < 1 || healthy_threshold < 1 || unhealthy_threshold < 1 {
            return Err(PloyerError::BadRequest(String::from_str("Intervals and thresholds must be at least 1")));
        }
        match self.get(application_id.as_str()) {
            Some(i) => {
                let ghost before = self.rows@;
                let row = self.rows.remove(i);
                let updated = HealthCheck {
                    path,
                    interval_seconds,
                    timeout_seconds,
                    healthy_threshold,
                    unhealthy_threshold,
                    ..row
                };
                self.rows.insert(i, updated);
                assert(self.rows@ =~= before.update(i as int, updated));
                assert(forall|j: int|
                    0 <= j < self.rows@.len() ==> self.rows@[j].application_id
                        == before[j].application_id);
                assert(forall|j: int| 0 <= j < self.rows@.len() ==> (#[trigger] self.rows@[j]).wf());
                assert(one_per_app(self.rows@)) by {
                    assert(one_per_app(before));
                    assert forall|a: int, b: int|
                        0 <= a < self.rows@.len() && 0 <= b < self.rows@.len() && a != b implies self.rows@[a].application_id@
                            != self.rows@[b].application_id@ by {
                        assert(self.rows@[a].application_id == before[a].application_id);
                        assert(self.rows@[b].application_id == before[b].application_id);
                    }
                }
                Ok(i)
            },
            None => {
                let idx = self.rows.len();
                self.rows.push(
                    HealthCheck {
                        id: new_id(),
                        application_id,
                        path,
                        interval_seconds,
                        timeout_seconds,
                        healthy_threshold,
                        unhealthy_threshold,
                        created_at: now,
                    },
                );
                assert(self.rows@.subrange(0, idx as int) =~= old(self).rows@);
                assert(forall|j: int| 0 <= j < idx ==> self.rows@[j] == old(self).rows@[j]);
                assert(forall|j: int| 0 <= j < idx ==> !old(self).has_app(j, application_id@));
                assert(forall|j: int| 0 <= j < self.rows@.len() ==> (#[trigger] self.rows@[j]).wf());
                assert(one_per_app(self.rows@)) by {
                    assert forall|a: int, b: int|
                        0 <= a < self.rows@.len() && 0 <= b < self.rows@.len() && a != b implies self.rows@[a].application_id@
                            != self.rows@[b].application_id@ by {
                        if a == idx {
                            assert(!old(self).has_app(b, application_id@));
                        } else if b == idx {
                            assert(!old(self).has_app(a, application_id@));
                        }
                    }
                }
                Ok(idx)
            },
        }
    }

    /// Removes the configuration of application `app`; returns whether
    /// there was one.
    pub fn delete(&mut self, app: &str) -> (found: bool)
        requires
            old(self).wf(),
        ensures
            final(self).wf(),
            found == exists|j: int| old(self).has_app(j, app@),
            found ==> exists|i: int|
                old(self).has_app(i, app@) && final(self).rows@ == old(self).rows@.remove(i),
            forall|j: int| !final(self).has_app(j, app@),
            !found ==> *final(self) == *old(self),
    {
        match self.get(app) {
            Some(i) => {
                self.rows.remove(i);
                true
            },
            None => false,
        }
    }
}

/// Statuses of the results of application `app`, oldest first.
pub open spec fn statuses_of(rows: Seq<HealthCheckResult>, app: Seq<char>) -> Seq<HealthCheckStatus>
    decreases rows.len(),
{
    if rows.len() == 0 {
        seq![]
    } else if rows.last().application_id@ == app {
        statuses_of(rows.drop_last(), app).push(rows.last().status)
    } else {
        statuses_of(rows.drop_last(), app)
    }
}

/// Results recorded at `cutoff` or later.
pub open spec fn recorded_since(cutoff: i64) -> spec_fn(HealthCheckResult) -> bool {
    |r: HealthCheckResult| r.checked_at >= cutoff
}

/// The log of probe results, in the order they were recorded.
pub struct HealthResultLog {
    pub rows: Vec<HealthCheckResult>,
}

impl HealthResultLog {
    pub fn new() -> (r: HealthResultLog)
        ensures
            r.rows@.len() == 0,
    {
        HealthResultLog { rows: Vec::new() }
    }

    /// Appends a result.
    pub fn record_result(&mut self, result: HealthCheckResult)
        ensures
            final(self).rows@ == old(self).rows@.push(result),
    {
        self.rows.push(result);
    }

    /// Drops the results recorded before `cutoff`; gives how many went.
    pub fn cleanup_old_results(&mut self, cutoff: i64) -> (removed: usize)
        ensures
            final(self).rows@ == old(self).rows@.filter(recorded_since(cutoff)),
            removed == old(self).rows@.len() - final(self).rows@.len(),
    {
        let ghost orig = self.rows@;
        let total = self.rows.len();
        let mut kept: Vec<HealthCheckResult> = Vec::new();
        let mut i: usize = 0;
        while self.rows.len() > 0
            invariant
                orig.len() == total,
                i + self.rows@.len() == total,
                self.rows@ == orig.subrange(i as int, orig.len() as int),
                kept@ == orig.take(i as int).filter(recorded_since(cutoff)),
                kept@.len() <= i,
            decreases self.rows@.len(),
        {
            let r = self.rows.remove(0);
            proof {
                reveal(Seq::filter);
                let pre = orig.take(i + 1);
                assert(pre.drop_last() =~= orig.take(i as int));
                assert(pre.last() == r);
                assert(pre.filter(recorded_since(cutoff)) == (if recorded_since(cutoff)(r) {
                    orig.take(i as int).filter(recorded_since(cutoff)).push(r)
                } else {
                    orig.take(i as int).filter(recorded_since(cutoff))
                }));
                assert(self.rows@ =~= orig.subrange(i + 1, orig.len() as int));
                assert(recorded_since(cutoff)(r) == (r.checked_at >= cutoff));
            }
            if r.checked_at >= cutoff {
                kept.push(r);
            }
            i = i + 1;
        }
        proof {
            assert(orig.take(orig.len() as int) =~= orig);
        }
        let removed = i - kept.len();
        self.rows = kept;
        removed
    }

    /// The statuses of the newest `limit` results of application `app`,
    /// newest first.
    pub fn recent_statuses(&self, app: &str, limit: usize) -> (r: Vec<HealthCheckStatus>)
        ensures
            r@ == statuses_of(self.rows@, app@).reverse().take(
                if limit <= statuses_of(self.rows@, app@).len() {
                    limit as int
                } else {
                    statuses_of(self.rows@, app@).len() as int
                },
            ),
    {
        let mut out: Vec<HealthCheckStatus> = Vec::new();
        let mut k: usize = self.rows.len();
        assert(self.rows@.subrange(0, k as int) =~= self.rows@);
        assert(statuses_of(self.rows@, app@).take(statuses_of(self.rows@, app@).len() as int)
            =~= statuses_of(self.rows@, app@));
        assert(statuses_of(self.rows@, app@).reverse().take(0) =~= Seq::<HealthCheckStatus>::empty());
        while k > 0 && out.len() < limit
            invariant
                k <= self.rows@.len(),
                out@.len() <= limit,
                out@ == statuses_of(self.rows@, app@).reverse().take(out@.len() as int),
                statuses_of(self.rows@, app@).len() == statuses_of(self.rows@.subrange(0, k as int), app@).len()
                    + out@.len(),
                statuses_of(self.rows@.subrange(0, k as int), app@) == statuses_of(self.rows@, app@).take(
                    statuses_of(self.rows@.subrange(0, k as int), app@).len() as int,
                ),
            decreases k,
        {
            let ghost pre = self.rows@.subrange(0, k as int);
            let ghost all = statuses_of(self.rows@, app@);
            assert(pre.drop_last() =~= self.rows@.subrange(0, k - 1));
            k = k - 1;
            if str_eq(self.rows[k].application_id.as_str(), app) {
                proof {
                    let s = statuses_of(pre, app@);
                    assert(s == statuses_of(pre.drop_last(), app@).push(self.rows@[k as int].status));
                    assert(s.last() == self.rows@[k as int].status);
                    assert(all.reverse()[out@.len() as int] == all[all.len() - 1 - out@.len()]);
                    assert(all[s.len() - 1] == s[s.len() - 1]);
                }
                out.push(self.rows[k].status);
                proof {
                    assert(out@ =~= all.reverse().take(out@.len() as int));
                    assert(statuses_of(self.rows@.subrange(0, k as int), app@) =~= all.take(
                        statuses_of(self.rows@.subrange(0, k as int), app@).len() as int,
                    ));
                }
            }
        }
        proof {
            let all = statuses_of(self.rows@, app@);
            if out@.len() < limit {
                assert(k == 0);
                assert(self.rows@.subrange(0, 0) =~= Seq::<HealthCheckResult>::empty());
            }
        }
        out
    }
}

} // verus!
