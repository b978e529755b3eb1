//! What the jobs poll reports: which runner works on what, and the jobs on
//! hosted machines.

use crate::model::{HostedJob, JobInfo, RunnerKey};
use vstd::prelude::*;

verus! {

/// A [`RunnerKey`] as text.
pub struct RunnerKeyView {
    pub scope: Seq<char>,
    pub name: Seq<char>,
}

#[derive(Debug)]
struct JobEntry {
    key: RunnerKey,
    job: Option<JobInfo>,
}

/// The registered runners, each with the job it is working on, if any.
#[derive(Debug)]
pub struct JobMap {
    entries: Vec<JobEntry>,
}

/// Entry `i` is the one for `key`.
spec fn keyed(entries: Seq<JobEntry>, i: int, key: RunnerKeyView) -> bool {
    0 <= i < entries.len() && entries[i].key@ == key
}

spec fn keys_distinct(entries: Seq<JobEntry>) -> bool {
    forall|i: int, j: int|
        0 <= i < j < entries.len() ==> #[trigger] entries[i].key@ != #[trigger] entries[j].key@
}

impl View for JobMap {
    type V = Map<RunnerKeyView, Option<JobInfo>>;

    closed spec fn view(&self) -> Map<RunnerKeyView, Option<JobInfo>> {
        Map::new(
            |key: RunnerKeyView| exists|i: int| keyed(self.entries@, i, key),
            |key: RunnerKeyView| self.entries@[choose|i: int| keyed(self.entries@, i, key)].job,
        )
    }
}

impl JobMap {
    #[verifier::type_invariant]
    spec fn wf(self) -> bool {
        keys_distinct(self.entries@)
    }

    pub fn new() -> (r: JobMap)
        ensures
            r@ == Map::<RunnerKeyView, Option<JobInfo>>::empty(),
    {
        let r = JobMap { entries: Vec::new() };
        assert(r@ =~= Map::empty());
        r
    }

    /// The place of `key`, if it is there.
    fn position(&self, key: &RunnerKey) -> (r: Option<usize>)
        ensures
            match r {
                Some(i) => keyed(self.entries@, i as int, key@),
                None => forall|i: int| !keyed(self.entries@, i, key@),
            },
    {
        let mut i: usize = 0;
        while i < self.entries.len()
            invariant
                i <= self.entries@.len(),
                forall|j: int| 0 <= j < i ==> !keyed(self.entries@, j, key@),
            decreases self.entries@.len() - i,
        {
            let k = &self.entries[i].key;
            if k.scope == key.scope && k.name == key.name {
                return Some(i);
            }
            i = i + 1;
        }
        None
    }

    /// The job recorded for `key`: `None` when the runner is not registered,
    /// `Some(None)` when it is and has no job.
    pub fn get(&self, key: &RunnerKey) -> (r: Option<&Option<JobInfo>>)
        ensures
            r is Some <==> self@.contains_key(key@),
            r matches Some(job) ==> *job == self@[key@],
    {
        proof {
            use_type_invariant(self);
        }
        match self.position(key) {
            Some(i) => {
                assert(keyed(self.entries@, i as int, key@));
                Some(&self.entries[i].job)
            },
            None => None,
        }
    }

    pub fn contains_key(&self, key: &RunnerKey) -> (r: bool)
        ensures
            r == self@.contains_key(key@),
    {
        self.get(key).is_some()
    }

    /// The number of registered runners.
    pub fn len(&self) -> (r: usize)
        ensures
            self@.dom().finite(),
            r == self@.dom().len(),
    {
        proof {
            use_type_invariant(self);
            lemma_key_count(self.entries@);
            assert(self@.dom() =~= key_set(self.entries@));
        }
        self.entries.len()
    }

    /// Records `job` for `key`, replacing what was recorded for it.
    pub fn insert(&mut self, key: RunnerKey, job: Option<JobInfo>)
        ensures
            final(self)@ == old(self)@.insert(key@, job),
    {
        proof {
            use_type_invariant(&*self);
        }
        let at = self.position(&key);
        let ghost before = self.entries@;
        let ghost key_text = key@;
        let mut entries: Vec<JobEntry> = Vec::new();
        std::mem::swap(&mut self.entries, &mut entries);
        match at {
            Some(i) => {
                entries[i] = JobEntry { key, job };
                assert(keyed(entries@, i as int, key_text));
            },
            None => {
                assert forall|j: int| 0 <= j < before.len() implies (#[trigger] before[j]).key@
                    != key_text by {
                    assert(!keyed(before, j, key_text));
                }
                entries.push(JobEntry { key, job });
                assert(keyed(entries@, before.len() as int, key_text));
            },
        }
        self.entries = entries;
        proof {
            let after = self.entries@;
            assert forall|k: RunnerKeyView, i: int| k != key_text && #[trigger] keyed(before, i, k)
                implies keyed(after, i, k) && after[i] == before[i] by {}
            assert forall|k: RunnerKeyView, i: int| k != key_text && #[trigger] keyed(after, i, k)
                implies keyed(before, i, k) by {}
            assert(self@ =~= old(self)@.insert(key_text, job));
        }
    }
}

/// The keys among `entries`.
spec fn key_set(entries: Seq<JobEntry>) -> Set<RunnerKeyView> {
    Set::new(|key: RunnerKeyView| exists|i: int| keyed(entries, i, key))
}

proof fn lemma_key_count(entries: Seq<JobEntry>)
    requires
        keys_distinct(entries),
    ensures
        key_set(entries).finite(),
        key_set(entries).len() == entries.len(),
    decreases entries.len(),
{
    if entries.len() == 0 {
        assert(key_set(entries) =~= Set::empty());
    } else {
        let rest = entries.drop_last();
        lemma_key_count(rest);
        let last = entries.last().key@;
        assert(keyed(entries, entries.len() - 1, last));
        assert forall|key: RunnerKeyView| #[trigger] key_set(entries).contains(key) implies key_set(
            rest,
        ).insert(last).contains(key) by {
            let i = choose|i: int| keyed(entries, i, key);
            if i < rest.len() {
                assert(keyed(rest, i, key));
            }
        }
        assert forall|key: RunnerKeyView| #[trigger] key_set(rest).contains(key) implies key_set(
            entries,
        ).contains(key) && key != last by {
            let i = choose|i: int| keyed(rest, i, key);
            assert(keyed(entries, i, key));
        }
        assert(key_set(entries) =~= key_set(rest).insert(last));
    }
}

/// One jobs poll. After a failed poll the poller sends its last good data again,
/// with the error.
#[derive(Debug)]
pub struct JobsUpdate {
    pub jobs: JobMap,
    pub hosted: Vec<HostedJob>,
    pub error: Option<String>,
}

} // verus!
