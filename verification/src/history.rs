//! The recent past: a bounded series of readings per runner, and one of the
//! docker slice's total memory. The sparklines are drawn from it.

use crate::model::{Bits64, MemSample, RunnerResource};
use vstd::prelude::*;

verus! {

/// How many readings a series keeps: a poll every two seconds, for forty seconds.
pub const HISTORY_LEN: usize = 20;

/// One reading of one runner.
#[derive(Clone, Copy, Debug, PartialEq, Eq, Structural)]
pub struct Sample {
    pub cpu_pct: Bits64,
    pub mem: MemSample,
}

#[derive(Debug)]
struct Series {
    name: String,
    samples: Vec<Sample>,
}

/// The readings so far, oldest first.
#[derive(Debug)]
pub struct History {
    series: Vec<Series>,
    slice: Vec<u64>,
}

/// What a [`History`] holds.
#[verifier::ext_equal]
pub struct HistoryView {
    /// The readings of each runner, by its name, oldest first.
    pub series: Map<Seq<char>, Seq<Sample>>,
    /// The docker slice's total memory in bytes, oldest first.
    pub slice: Seq<u64>,
}

/// The newest [`HISTORY_LEN`] items of `s`.
pub open spec fn recent<T>(s: Seq<T>) -> Seq<T> {
    if s.len() <= HISTORY_LEN {
        s
    } else {
        s.skip(s.len() - HISTORY_LEN)
    }
}

/// Some runner in `runners` is called `name`.
pub open spec fn named(runners: Seq<RunnerResource>, name: Seq<char>) -> bool {
    exists|i: int| 0 <= i < runners.len() && (#[trigger] runners[i]).name@ == name
}

/// The readings in `runners` of the runner called `name`, in order.
pub open spec fn samples_of(runners: Seq<RunnerResource>, name: Seq<char>) -> Seq<Sample>
    decreases runners.len(),
{
    if runners.len() == 0 {
        Seq::empty()
    } else {
        let before = samples_of(runners.drop_last(), name);
        if runners.last().name@ == name {
            before.push(runners.last().sample())
        } else {
            before
        }
    }
}

/// A series after the readings `added`.
pub open spec fn extended(series: Seq<Sample>, added: Seq<Sample>) -> Seq<Sample> {
    if added.len() == 0 {
        series
    } else {
        recent(series + added)
    }
}

impl HistoryView {
    pub open spec fn empty() -> HistoryView {
        HistoryView { series: Map::empty(), slice: Seq::empty() }
    }

    /// The readings of `name`; none for a runner without a series.
    pub open spec fn of(self, name: Seq<char>) -> Seq<Sample> {
        if self.series.contains_key(name) {
            self.series[name]
        } else {
            Seq::empty()
        }
    }

    /// The CPU readings of `name`.
    pub open spec fn cpu(self, name: Seq<char>) -> Seq<Bits64> {
        self.of(name).map_values(|s: Sample| s.cpu_pct)
    }

    /// The memory readings of `name`.
    pub open spec fn mem(self, name: Seq<char>) -> Seq<MemSample> {
        self.of(name).map_values(|s: Sample| s.mem)
    }

    /// The history after a poll that read `polled`, while `known` are all the
    /// runners there are: the polled runners' series grow, and the series of a
    /// runner that is gone are dropped.
    pub open spec fn recorded(
        self,
        polled: Seq<RunnerResource>,
        known: Seq<RunnerResource>,
    ) -> HistoryView {
        HistoryView {
            series: Map::new(
                |name: Seq<char>|
                    named(known, name) && (self.series.contains_key(name) || named(polled, name)),
                |name: Seq<char>| extended(self.of(name), samples_of(polled, name)),
            ),
            slice: self.slice,
        }
    }

    /// The history after one more reading of the slice's total memory.
    pub open spec fn slice_recorded(self, total: u64) -> HistoryView {
        HistoryView { slice: recent(self.slice.push(total)), ..self }
    }

    /// No series holds more than [`HISTORY_LEN`] readings.
    pub open spec fn bounded(self) -> bool {
        &&& self.slice.len() <= HISTORY_LEN
        &&& forall|name: Seq<char>| #[trigger]
            self.series.contains_key(name) ==> self.series[name].len() <= HISTORY_LEN
    }
}

/// Entry `i` is the series of `name`.
spec fn titled(series: Seq<Series>, i: int, name: Seq<char>) -> bool {
    0 <= i < series.len() && series[i].name@ == name
}

/// `series` holds no name twice and no series that is too long.
spec fn tidy(series: Seq<Series>) -> bool {
    &&& forall|i: int, j: int|
        0 <= i < j < series.len() ==> #[trigger] series[i].name@ != #[trigger] series[j].name@
    &&& forall|i: int|
        0 <= i < series.len() ==> (#[trigger] series[i]).samples@.len() <= HISTORY_LEN
}

/// The series by name.
spec fn by_name(series: Seq<Series>) -> Map<Seq<char>, Seq<Sample>> {
    Map::new(
        |name: Seq<char>| exists|i: int| titled(series, i, name),
        |name: Seq<char>| series[choose|i: int| titled(series, i, name)].samples@,
    )
}

impl View for History {
    type V = HistoryView;

    closed spec fn view(&self) -> HistoryView {
        HistoryView { series: by_name(self.series@), slice: self.slice@ }
    }
}

/// `series` after the readings `added`, nothing dropped yet.
spec fn grown(
    series: Map<Seq<char>, Seq<Sample>>,
    added: Seq<RunnerResource>,
) -> Map<Seq<char>, Seq<Sample>> {
    Map::new(
        |name: Seq<char>| series.contains_key(name) || named(added, name),
        |name: Seq<char>|
            extended(
                if series.contains_key(name) {
                    series[name]
                } else {
                    Seq::empty()
                },
                samples_of(added, name),
            ),
    )
}

proof fn lemma_by_name(series: Seq<Series>, i: int)
    requires
        tidy(series),
        0 <= i < series.len(),
    ensures
        by_name(series).contains_key(series[i].name@),
        by_name(series)[series[i].name@] == series[i].samples@,
{
    let name = series[i].name@;
    assert(titled(series, i, name));
    let j = choose|j: int| titled(series, j, name);
    assert(titled(series, j, name));
    assert(i == j);
}

/// Extending in two steps is extending once.
proof fn lemma_extended_push(series: Seq<Sample>, added: Seq<Sample>, next: Sample)
    requires
        series.len() <= HISTORY_LEN,
    ensures
        recent(extended(series, added).push(next)) == extended(series, added.push(next)),
{
    if added.len() == 0 {
        assert(series + added.push(next) =~= series.push(next));
    } else {
        let whole = series + added;
        assert(series + added.push(next) =~= whole.push(next));
        if whole.len() > HISTORY_LEN {
            assert(recent(recent(whole).push(next)) =~= recent(whole.push(next)));
        }
    }
}

proof fn lemma_samples_of_named(runners: Seq<RunnerResource>, name: Seq<char>)
    ensures
        samples_of(runners, name).len() > 0 <==> named(runners, name),
    decreases runners.len(),
{
    if runners.len() > 0 {
        let rest = runners.drop_last();
        lemma_samples_of_named(rest, name);
        if named(rest, name) {
            let i = choose|i: int| 0 <= i < rest.len() && (#[trigger] rest[i]).name@ == name;
            assert(runners[i].name@ == name);
        }
        if named(runners, name) && runners.last().name@ != name {
            let i = choose|i: int| 0 <= i < runners.len() && (#[trigger] runners[i]).name@ == name;
            assert(rest[i].name@ == name);
        }
        if runners.last().name@ == name {
            assert(runners[runners.len() - 1].name@ == name);
        }
    }
}

/// One more polled runner, in terms of [`grown`].
proof fn lemma_grown_push(
    series: Map<Seq<char>, Seq<Sample>>,
    added: Seq<RunnerResource>,
    next: RunnerResource,
)
    requires
        forall|name: Seq<char>| #[trigger]
            series.contains_key(name) ==> series[name].len() <= HISTORY_LEN,
    ensures
        ({
            let before = grown(series, added);
            let name = next.name@;
            let old_samples = if before.contains_key(name) {
                before[name]
            } else {
                Seq::empty()
            };
            grown(series, added.push(next)) == before.insert(
                name,
                recent(old_samples.push(next.sample())),
            )
        }),
{
    let before = grown(series, added);
    let all = added.push(next);
    let after = grown(series, all);
    let name = next.name@;
    let old_samples = if before.contains_key(name) {
        before[name]
    } else {
        Seq::empty()
    };
    let update = before.insert(name, recent(old_samples.push(next.sample())));
    assert(all.drop_last() =~= added);
    assert(all[added.len() as int].name@ == name);
    assert forall|other: Seq<char>| after.contains_key(other) == update.contains_key(other) by {
        if named(added, other) {
            let i = choose|i: int| 0 <= i < added.len() && (#[trigger] added[i]).name@ == other;
            assert(all[i].name@ == other);
        }
        if named(all, other) && other != name {
            let i = choose|i: int| 0 <= i < all.len() && (#[trigger] all[i]).name@ == other;
            assert(added[i].name@ == other);
        }
    }
    assert forall|other: Seq<char>| after.contains_key(other) implies after[other]
        == update[other] by {
        if other == name {
            let base = if series.contains_key(name) {
                series[name]
            } else {
                Seq::empty()
            };
            lemma_extended_push(base, samples_of(added, name), next.sample());
            lemma_samples_of_named(added, name);
        }
    }
    assert(after =~= update);
}

/// Adds one reading to the runner's series.
fn append(series: &mut Vec<Series>, runner: &RunnerResource)
    requires
        tidy(old(series)@),
    ensures
        tidy(final(series)@),
        ({
            let before = by_name(old(series)@);
            let name = runner.name@;
            let old_samples = if before.contains_key(name) {
                before[name]
            } else {
                Seq::empty()
            };
            by_name(final(series)@) == before.insert(
                name,
                recent(old_samples.push(runner.sample())),
            )
        }),
{
    let ghost before = series@;
    let ghost name = runner.name@;
    let sample = Sample {
        cpu_pct: runner.cpu_pct,
        mem: MemSample { bytes: runner.mem_bytes, limit: runner.mem_limit },
    };
    let mut i: usize = 0;
    while i < series.len() && !(series[i].name == runner.name)
        invariant
            series@ == before,
            i <= before.len(),
            forall|j: int| 0 <= j < i ==> !titled(before, j, runner.name@),
        decreases before.len() - i,
    {
        i = i + 1;
    }
    if i < series.len() {
        proof {
            lemma_by_name(before, i as int);
        }
        let mut samples = series[i].samples.clone();
        assert(samples@ =~= before[i as int].samples@);
        samples.push(sample);
        if samples.len() > HISTORY_LEN {
            samples.remove(0);
        }
        assert(samples@ =~= recent(before[i as int].samples@.push(runner.sample())));
        series[i] = Series { name: runner.name.clone(), samples };
    } else {
        let mut samples: Vec<Sample> = Vec::new();
        samples.push(sample);
        series.push(Series { name: runner.name.clone(), samples });
        assert(forall|j: int| !titled(before, j, name));
    }
    proof {
        let after = series@;
        assert forall|j: int| 0 <= j < before.len() && j != i implies (#[trigger] before[j]).name@
            != name by {
            assert(j < i ==> !titled(before, j, name));
        }
        assert(tidy(after));
        lemma_by_name(after, i as int);
        assert forall|other: Seq<char>| #[trigger]
            by_name(before).dom().contains(other) && other != name implies by_name(
            after,
        ).dom().contains(other) && by_name(after)[other] == by_name(before)[other] by {
            let j = choose|j: int| titled(before, j, other);
            assert(titled(after, j, other));
            lemma_by_name(before, j);
            lemma_by_name(after, j);
        }
        assert forall|other: Seq<char>| #[trigger]
            by_name(after).dom().contains(other) && other != name implies by_name(
            before,
        ).dom().contains(other) by {
            let j = choose|j: int| titled(after, j, other);
            assert(titled(before, j, other));
        }
        let old_samples = if by_name(before).contains_key(name) {
            by_name(before)[name]
        } else {
            Seq::empty()
        };
        assert(after[i as int].samples@ =~= recent(old_samples.push(runner.sample())));
        assert(by_name(after) =~= by_name(before).insert(
            name,
            recent(old_samples.push(runner.sample())),
        ));
    }
}

/// Whether some runner in `runners` is called `name`.
fn is_named(runners: &Vec<RunnerResource>, name: &String) -> (r: bool)
    ensures
        r == named(runners@, name@),
{
    let mut i: usize = 0;
    while i < runners.len()
        invariant
            i <= runners@.len(),
            forall|j: int| 0 <= j < i ==> (#[trigger] runners@[j]).name@ != name@,
        decreases runners@.len() - i,
    {
        if runners[i].name == *name {
            return true;
        }
        i = i + 1;
    }
    false
}

/// `kept` is what is left of `from` when only the series of `known` runners stay.
spec fn pruned(kept: Seq<Series>, from: Seq<Series>, known: Seq<RunnerResource>) -> bool {
    &&& tidy(kept)
    &&& forall|k: int|
        0 <= k < kept.len() ==> named(known, (#[trigger] kept[k]).name@) && from.contains(kept[k])
    &&& forall|j: int|
        0 <= j < from.len() && named(known, (#[trigger] from[j]).name@) ==> kept.contains(from[j])
}

proof fn lemma_pruned_step(
    kept: Seq<Series>,
    from: Seq<Series>,
    entry: Series,
    known: Seq<RunnerResource>,
)
    requires
        tidy(seq![entry] + from),
        pruned(kept, from, known),
    ensures
        named(known, entry.name@) ==> pruned(kept.push(entry), seq![entry] + from, known),
        !named(known, entry.name@) ==> pruned(kept, seq![entry] + from, known),
{
    let whole = seq![entry] + from;
    assert(whole[0] == entry);
    assert forall|k: int| 0 <= k < kept.len() implies whole.contains(#[trigger] kept[k])
        && kept[k].name@ != entry.name@ by {
        let j = choose|j: int| 0 <= j < from.len() && from[j] == kept[k];
        assert(whole[j + 1] == kept[k]);
    }
    assert forall|j: int|
        0 < j < whole.len() && named(known, (#[trigger] whole[j]).name@) implies kept.contains(
        whole[j],
    ) by {
        assert(from[j - 1] == whole[j]);
    }
    if named(known, entry.name@) {
        let next = kept.push(entry);
        assert(next[kept.len() as int] == entry);
        assert forall|j: int|
            0 <= j < whole.len() && named(known, (#[trigger] whole[j]).name@) implies next.contains(
            whole[j],
        ) by {
            if j > 0 {
                let k = choose|k: int| 0 <= k < kept.len() && kept[k] == whole[j];
                assert(next[k] == whole[j]);
            }
        }
        assert forall|k: int| 0 <= k < next.len() implies named(known, (#[trigger] next[k]).name@)
            && whole.contains(next[k]) by {
            if k < kept.len() {
                assert(next[k] == kept[k]);
            }
        }
        assert(tidy(next)) by {
            assert forall|i: int, j: int| 0 <= i < j < next.len() implies #[trigger] next[i].name@
                != #[trigger] next[j].name@ by {
                assert(next[i] == kept[i]);
                if j < kept.len() {
                    assert(next[j] == kept[j]);
                }
            }
            assert(whole[0].samples@.len() <= HISTORY_LEN);
        }
    }
}

proof fn lemma_pruned_by_name(kept: Seq<Series>, from: Seq<Series>, known: Seq<RunnerResource>)
    requires
        tidy(from),
        pruned(kept, from, known),
    ensures
        by_name(kept) == Map::new(
            |name: Seq<char>| by_name(from).contains_key(name) && named(known, name),
            |name: Seq<char>| by_name(from)[name],
        ),
{
    let wanted = Map::new(
        |name: Seq<char>| by_name(from).contains_key(name) && named(known, name),
        |name: Seq<char>| by_name(from)[name],
    );
    let got = by_name(kept);
    assert forall|name: Seq<char>| #[trigger] wanted.dom().contains(name) implies got.dom().contains(
        name,
    ) && got[name] == wanted[name] by {
        let j = choose|j: int| titled(from, j, name);
        assert(titled(from, j, name));
        lemma_by_name(from, j);
        let k = choose|k: int| 0 <= k < kept.len() && kept[k] == from[j];
        lemma_by_name(kept, k);
    }
    assert forall|name: Seq<char>| #[trigger] got.dom().contains(name) implies wanted.dom().contains(
        name,
    ) by {
        let k = choose|k: int| titled(kept, k, name);
        assert(titled(kept, k, name));
        let j = choose|j: int| 0 <= j < from.len() && from[j] == kept[k];
        lemma_by_name(from, j);
    }
    assert(got =~= wanted);
}

/// Keeps the series of `known` runners.
fn prune(series: Vec<Series>, known: &Vec<RunnerResource>) -> (r: Vec<Series>)
    requires
        tidy(series@),
    ensures
        tidy(r@),
        by_name(r@) == Map::new(
            |name: Seq<char>| by_name(series@).contains_key(name) && named(known@, name),
            |name: Seq<char>| by_name(series@)[name],
        ),
{
    let ghost before = series@;
    let mut left = series;
    let mut kept: Vec<Series> = Vec::new();
    while left.len() > 0
        invariant
            tidy(before),
            left@.len() <= before.len(),
            left@ == before.take(left@.len() as int),
            pruned(kept@, before.skip(left@.len() as int), known@),
        decreases left@.len(),
    {
        let ghost n = left@.len() - 1;
        let ghost from = before.skip(left@.len() as int);
        match left.pop() {
            Some(entry) => {
                proof {
                    assert(before.skip(n) =~= seq![before[n]] + from);
                    assert(left@ =~= before.take(n));
                    assert(tidy(before.skip(n)));
                    lemma_pruned_step(kept@, from, entry, known@);
                }
                if is_named(known, &entry.name) {
                    kept.push(entry);
                }
            },
            None => {},
        }
    }
    proof {
        assert(before.skip(0) =~= before);
        lemma_pruned_by_name(kept@, before, known@);
    }
    kept
}

impl History {
    #[verifier::type_invariant]
    spec fn wf(self) -> bool {
        tidy(self.series@) && self.slice@.len() <= HISTORY_LEN
    }

    pub fn new() -> (r: History)
        ensures
            r@ == HistoryView::empty(),
    {
        let r = History { series: Vec::new(), slice: Vec::new() };
        assert(r@.series =~= Map::empty());
        r
    }

    /// Adds the readings of the `polled` runners, then drops the series of every
    /// runner that is not among the `known` ones.
    pub fn record(&mut self, polled: &Vec<RunnerResource>, known: &Vec<RunnerResource>)
        ensures
            final(self)@ == old(self)@.recorded(polled@, known@),
    {
        proof {
            use_type_invariant(&*self);
        }
        let mut series: Vec<Series> = Vec::new();
        std::mem::swap(&mut self.series, &mut series);
        let ghost before = by_name(series@);
        proof {
            assert forall|name: Seq<char>| #[trigger] before.contains_key(name) implies before[name].len()
                <= HISTORY_LEN by {
                let i = choose|i: int| titled(series@, i, name);
                assert(titled(series@, i, name));
            }
            assert(grown(before, polled@.take(0)) =~= before);
        }
        let mut i: usize = 0;
        while i < polled.len()
            invariant
                i <= polled@.len(),
                tidy(series@),
                by_name(series@) == grown(before, polled@.take(i as int)),
                forall|name: Seq<char>| #[trigger]
                    before.contains_key(name) ==> before[name].len() <= HISTORY_LEN,
            decreases polled@.len() - i,
        {
            append(&mut series, &polled[i]);
            proof {
                lemma_grown_push(before, polled@.take(i as int), polled@[i as int]);
                assert(polled@.take(i + 1) =~= polled@.take(i as int).push(polled@[i as int]));
            }
            i = i + 1;
        }
        assert(polled@.take(i as int) =~= polled@);
        self.series = prune(series, known);
        assert(self@.series =~= old(self)@.recorded(polled@, known@).series);
    }

    /// Adds one reading of the docker slice's total memory.
    pub fn record_slice(&mut self, total: u64)
        ensures
            final(self)@ == old(self)@.slice_recorded(total),
    {
        proof {
            use_type_invariant(&*self);
        }
        let mut slice: Vec<u64> = Vec::new();
        std::mem::swap(&mut self.slice, &mut slice);
        slice.push(total);
        if slice.len() > HISTORY_LEN {
            slice.remove(0);
        }
        assert(slice@ =~= recent(old(self).slice@.push(total)));
        self.slice = slice;
    }

    /// The place of the series of `name`, if there is one.
    fn position(&self, name: &str) -> (r: Option<usize>)
        ensures
            match r {
                Some(i) => titled(self.series@, i as int, name@),
                None => forall|i: int| !titled(self.series@, i, name@),
            },
    {
        let wanted = name.to_owned();
        let mut i: usize = 0;
        while i < self.series.len()
            invariant
                wanted@ == name@,
                i <= self.series@.len(),
                forall|j: int| 0 <= j < i ==> !titled(self.series@, j, name@),
            decreases self.series@.len() - i,
        {
            if self.series[i].name == wanted {
                return Some(i);
            }
            i = i + 1;
        }
        None
    }

    /// The CPU readings of `name`, oldest first; none for an unknown runner.
    pub fn cpu(&self, name: &str) -> (r: Vec<Bits64>)
        ensures
            r@ == self@.cpu(name@),
            r@.len() <= HISTORY_LEN,
    {
        proof {
            use_type_invariant(self);
        }
        let mut r: Vec<Bits64> = Vec::new();
        if let Some(i) = self.position(name) {
            proof {
                lemma_by_name(self.series@, i as int);
            }
            let samples = &self.series[i].samples;
            let mut k: usize = 0;
            while k < samples.len()
                invariant
                    k <= samples@.len(),
                    r@ == samples@.take(k as int).map_values(|s: Sample| s.cpu_pct),
                decreases samples@.len() - k,
            {
                r.push(samples[k].cpu_pct);
                k = k + 1;
                assert(r@ =~= samples@.take(k as int).map_values(|s: Sample| s.cpu_pct));
            }
            assert(samples@.take(k as int) =~= samples@);
        }
        assert(r@ =~= self@.cpu(name@));
        r
    }

    /// The memory readings of `name`, oldest first; none for an unknown runner.
    pub fn mem(&self, name: &str) -> (r: Vec<MemSample>)
        ensures
            r@ == self@.mem(name@),
            r@.len() <= HISTORY_LEN,
    {
        proof {
            use_type_invariant(self);
        }
        let mut r: Vec<MemSample> = Vec::new();
        if let Some(i) = self.position(name) {
            proof {
                lemma_by_name(self.series@, i as int);
            }
            let samples = &self.series[i].samples;
            let mut k: usize = 0;
            while k < samples.len()
                invariant
                    k <= samples@.len(),
                    r@ == samples@.take(k as int).map_values(|s: Sample| s.mem),
                decreases samples@.len() - k,
            {
                r.push(samples[k].mem);
                k = k + 1;
                assert(r@ =~= samples@.take(k as int).map_values(|s: Sample| s.mem));
            }
            assert(samples@.take(k as int) =~= samples@);
        }
        assert(r@ =~= self@.mem(name@));
        r
    }

    /// The slice's total memory in bytes, oldest first.
    pub fn slice_mem(&self) -> (r: &[u64])
        ensures
            r@ == self@.slice,
            r@.len() <= HISTORY_LEN,
    {
        proof {
            use_type_invariant(self);
        }
        self.slice.as_slice()
    }
}

/// A bounded history stays bounded, whatever is polled.
pub proof fn law_history_stays_bounded(
    h: HistoryView,
    polled: Seq<RunnerResource>,
    known: Seq<RunnerResource>,
    total: u64,
)
    requires
        h.bounded(),
    ensures
        HistoryView::empty().bounded(),
        h.recorded(polled, known).bounded(),
        h.slice_recorded(total).bounded(),
{
}

/// A poll leaves alone the series of every known runner that it did not read,
/// and every series it keeps belongs to a known runner.
pub proof fn law_record_keeps_the_others(
    h: HistoryView,
    polled: Seq<RunnerResource>,
    known: Seq<RunnerResource>,
    name: Seq<char>,
)
    ensures
        named(known, name) && !named(polled, name) ==> h.recorded(polled, known).of(name) == h.of(
            name,
        ),
        h.recorded(polled, known).series.contains_key(name) ==> named(known, name),
        h.recorded(polled, known).slice == h.slice,
{
    lemma_samples_of_named(polled, name);
}

/// A known runner's series grows by exactly the readings that the poll has of it.
pub proof fn law_record_extends_the_polled(
    h: HistoryView,
    polled: Seq<RunnerResource>,
    known: Seq<RunnerResource>,
    name: Seq<char>,
)
    requires
        named(known, name),
    ensures
        h.recorded(polled, known).of(name) == extended(h.of(name), samples_of(polled, name)),
{
    lemma_samples_of_named(polled, name);
}

/// A known runner that a poll read once gains exactly that reading, at the end of
/// its series.
pub proof fn law_record_adds_one_reading(
    h: HistoryView,
    polled: Seq<RunnerResource>,
    known: Seq<RunnerResource>,
    i: int,
)
    requires
        0 <= i < polled.len(),
        named(known, polled[i].name@),
        forall|j: int|
            0 <= j < polled.len() && j != i ==> (#[trigger] polled[j]).name@ != polled[i].name@,
    ensures
        h.recorded(polled, known).of(polled[i].name@) == recent(
            h.of(polled[i].name@).push(polled[i].sample()),
        ),
{
    let name = polled[i].name@;
    lemma_single_sample(polled, i);
    assert(h.of(name) + seq![polled[i].sample()] =~= h.of(name).push(polled[i].sample()));
}

proof fn lemma_single_sample(polled: Seq<RunnerResource>, i: int)
    requires
        0 <= i < polled.len(),
        forall|j: int|
            0 <= j < polled.len() && j != i ==> (#[trigger] polled[j]).name@ != polled[i].name@,
    ensures
        samples_of(polled, polled[i].name@) == seq![polled[i].sample()],
    decreases polled.len(),
{
    let name = polled[i].name@;
    let rest = polled.drop_last();
    if i == polled.len() - 1 {
        lemma_samples_of_named(rest, name);
        if named(rest, name) {
            let j = choose|j: int| 0 <= j < rest.len() && (#[trigger] rest[j]).name@ == name;
            assert(polled[j].name@ == name);
        }
        assert(samples_of(polled, name) =~= seq![polled[i].sample()]);
    } else {
        assert forall|j: int| 0 <= j < rest.len() && j != i implies (#[trigger] rest[j]).name@
            != rest[i].name@ by {
            assert(polled[j].name@ != name);
        }
        lemma_single_sample(rest, i);
        assert(polled[polled.len() - 1].name@ != name);
    }
}

} // verus!
