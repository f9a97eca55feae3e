//! Container resource samples and their retention. Figures are fixed
//! point: hundredths of a percent of one CPU and kibibytes.
use vstd::prelude::*;

verus! {

/// Hours a sample is kept.
pub const RETENTION_HOURS: u32 = 24;

/// One sample of a container's resource use.
#[derive(Clone, Debug)]
pub struct ContainerStatsSample {
    pub id: String,
    pub container_id: String,
    pub application_id: Option<String>,
    pub cpu_centipercent: u64,
    pub memory_kib: u64,
    pub memory_limit_kib: Option<u64>,
    pub network_rx_kib: Option<u64>,
    pub network_tx_kib: Option<u64>,
    pub recorded_at: i64,
}

/// The time `hours` hours before `now`, or the earliest time there is.
pub open spec fn cutoff_of(now: i64, hours: u32) -> int {
    if now - hours * 3600 >= i64::MIN {
        now - hours * 3600
    } else {
        i64::MIN as int
    }
}

pub fn retention_cutoff(now: i64, hours: u32) -> (r: i64)
    ensures
        r == cutoff_of(now, hours),
{
    let span: i64 = hours as i64 * 3600;
    if now >= i64::MIN + span {
        now - span
    } else {
        i64::MIN
    }
}

/// Samples recorded at `cutoff` or later.
pub open spec fn sampled_since(cutoff: i64) -> spec_fn(ContainerStatsSample) -> bool {
    |s: ContainerStatsSample| s.recorded_at >= cutoff
}

/// The samples, in the order they were recorded.
pub struct ContainerStatsRepository {
    pub rows: Vec<ContainerStatsSample>,
}

impl ContainerStatsRepository {
    pub fn new() -> (r: ContainerStatsRepository)
        ensures
            r.rows@.len() == 0,
    {
        ContainerStatsRepository { rows: Vec::new() }
    }

    /// Appends a sample.
    pub fn record(&mut self, sample: ContainerStatsSample)
        ensures
            final(self).rows@ == old(self).rows@.push(sample),
    {
        self.rows.push(sample);
    }

    /// Drops the samples older than `hours` hours before `now`; gives how
    /// many went.
    pub fn cleanup_old_stats(&mut self, now: i64, hours: u32) -> (removed: usize)
        ensures
            final(self).rows@ == old(self).rows@.filter(sampled_since(cutoff_of(now, hours) as i64)),
            removed == old(self).rows@.len() - final(self).rows@.len(),
    {
        let cutoff = retention_cutoff(now, hours);
        let ghost orig = self.rows@;
        let total = self.rows.len();
        let mut kept: Vec<ContainerStatsSample> = Vec::new();
        let mut i: usize = 0;
        while self.rows.len() > 0
            invariant
                orig.len() == total,
                i + self.rows@.len() == total,
                self.rows@ == orig.subrange(i as int, orig.len() as int),
                kept@ == orig.take(i as int).filter(sampled_since(cutoff)),
                kept@.len() <= i,
            decreases self.rows@.len(),
        {
            let r = self.rows.remove(0);
            proof {
                reveal(Seq::filter);
                let pre = orig.take(i + 1);
                assert(pre.drop_last() =~= orig.take(i as int));
                assert(pre.last() == r);
                assert(pre.filter(sampled_since(cutoff)) == (if sampled_since(cutoff)(r) {
                    orig.take(i as int).filter(sampled_since(cutoff)).push(r)
                } else {
                    orig.take(i as int).filter(sampled_since(cutoff))
                }));
                assert(self.rows@ =~= orig.subrange(i + 1, orig.len() as int));
                assert(sampled_since(cutoff)(r) == (r.recorded_at >= cutoff));
            }
            if r.recorded_at >= cutoff {
                kept.push(r);
            }
            i = i + 1;
        }
        proof {
            assert(orig.take(orig.len() as int) =~= orig);
        }
        let removed = i - kept.len();
        self.rows = kept;
        removed
    }
}

} // verus!
