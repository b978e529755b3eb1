//! What a resource poll reports: the runners of one source.

use crate::model::{RunnerResource, SourceKind};
use vstd::prelude::*;

verus! {

/// One resource poll of one source.
#[derive(Debug)]
pub struct ResourceUpdate {
    pub source: SourceKind,
    pub resources: Vec<RunnerResource>,
    /// Containers whose name matched the prefix, and those whose name did not;
    /// both zero for the native source.
    pub matched_seen: usize,
    pub unmatched_seen: usize,
    /// From docker: the whole poll failed. From the native source: some runners
    /// could not be read, and `resources` holds the others.
    pub error: Option<String>,
}

/// The memory of `runners`, in bytes.
pub open spec fn mem_total(runners: Seq<RunnerResource>) -> nat
    decreases runners.len(),
{
    if runners.len() == 0 {
        0
    } else {
        mem_total(runners.drop_last()) + runners.last().mem_bytes as nat
    }
}

proof fn lemma_mem_total_grows(runners: Seq<RunnerResource>, n: int)
    requires
        0 <= n <= runners.len(),
    ensures
        mem_total(runners.take(n)) <= mem_total(runners),
    decreases runners.len(),
{
    if n == runners.len() {
        assert(runners.take(n) =~= runners);
    } else {
        lemma_mem_total_grows(runners.drop_last(), n);
        assert(runners.drop_last().take(n) =~= runners.take(n));
    }
}

/// The memory of `runners`, in bytes; `None` when it does not fit.
pub fn checked_mem_total(runners: &Vec<RunnerResource>) -> (r: Option<u64>)
    ensures
        match r {
            Some(total) => total == mem_total(runners@),
            None => mem_total(runners@) > u64::MAX,
        },
{
    let mut total: u64 = 0;
    let mut i: usize = 0;
    while i < runners.len()
        invariant
            i <= runners@.len(),
            total == mem_total(runners@.take(i as int)),
        decreases runners@.len() - i,
    {
        proof {
            assert(runners@.take(i + 1).drop_last() =~= runners@.take(i as int));
            lemma_mem_total_grows(runners@, i + 1);
        }
        match total.checked_add(runners[i].mem_bytes) {
            Some(sum) => {
                total = sum;
            },
            None => {
                return None;
            },
        }
        i = i + 1;
    }
    assert(runners@.take(i as int) =~= runners@);
    Some(total)
}

impl ResourceUpdate {
    /// The poll carries data: a docker poll that did not fail, or any native one.
    pub open spec fn applies(self) -> bool {
        self.source == SourceKind::Native || self.error is None
    }

    /// The slice total that the poll would record can be computed.
    pub open spec fn fits(self) -> bool {
        self.source == SourceKind::Docker && self.error is None ==> mem_total(self.resources@)
            <= u64::MAX
    }

    /// Whether the slice total that the poll would record can be computed.
    pub fn check_fits(&self) -> (r: bool)
        ensures
            r == self.fits(),
    {
        match self.source {
            SourceKind::Docker => self.error.is_some() || checked_mem_total(
                &self.resources,
            ).is_some(),
            SourceKind::Native => true,
        }
    }
}

} // verus!
