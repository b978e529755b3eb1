//! What each operation does, said of the values that go in and the values that
//! come out, item by item.

use crate::app::{
    received, tick_of, AppState, Engine, PollEvent, RecvOutcome,
    StateView, Tick,
};
use crate::history::{named, recent, samples_of, HistoryView};
use crate::jobs::{JobsUpdate, RunnerKeyView};
use crate::model::{
    all_answered, answered, docker_total, joined, lemma_joined_total, reads_levels, row_views,
    slice_total, Bits64, DeployStatus, HostedStatus, JobInfo, Load, MemLevel, RunnerKey, RunnerResource,
    RunnerRow, RunnerRowView, SourceKind,
};
use crate::resource::{mem_total, ResourceUpdate};
use crate::snapshot::{
    deploy_word, hosted_word, kind_word, load_word, mem_level_word, snapshot_at, Snapshot,
};
use crate::time::secs_between;
use crate::tui::{
    control_held, engine_alive_after, loop_action, quits, status_of, KeyCode, KeyEvent,
    KeyEventKind, LoopAction, LoopEvent,
};
use crate::vercel::VercelUpdate;
use crate::web::{
    applied_at_after, digits_value, is_white_space, levels_answered, port_of, portal_of, trimmed,
    trimmed_end, trimmed_start, unsigned_part,
};
use vstd::prelude::*;

verus! {

/// The time shown is the number of whole seconds that have passed, and zero before
/// the start.
pub proof fn law_elapsed_counts_whole_seconds(since: int, now: int)
    ensures
        ({
            let shown = secs_between(since, now);
            &&& now <= since ==> shown == 0
            &&& since <= now ==> shown * 1_000_000_000 <= now - since < (shown + 1) * 1_000_000_000
        }),
{
}

/// Of a series the newest twenty readings stay, in their order.
pub proof fn law_recent_keeps_the_newest_twenty<T>(s: Seq<T>)
    ensures
        recent(s).len() <= 20,
        s.len() <= 20 ==> recent(s) == s,
        s.len() > 20 ==> recent(s).len() == 20,
        forall|i: int|
            0 <= i < recent(s).len() ==> #[trigger] recent(s)[i] == s[s.len() - recent(s).len() + i],
{
}

/// The memory of runners adds up: none use nothing, one uses what it reports, and
/// two groups together use what they use apart.
pub proof fn law_mem_total_adds_up(
    a: Seq<RunnerResource>,
    b: Seq<RunnerResource>,
    runner: RunnerResource,
)
    ensures
        mem_total(Seq::empty()) == 0,
        mem_total(seq![runner]) == runner.mem_bytes,
        mem_total(a + b) == mem_total(a) + mem_total(b),
    decreases b.len(),
{
    reveal_with_fuel(mem_total, 2);
    assert(seq![runner].drop_last() =~= Seq::empty());
    if b.len() == 0 {
        assert(a + b =~= a);
    } else {
        law_mem_total_adds_up(a, b.drop_last(), runner);
        assert((a + b).drop_last() =~= a + b.drop_last());
    }
}

/// The memory of the slice adds up: a docker row uses what it shows, a native row
/// uses none of it, and two groups of rows together use what they use apart.
pub proof fn law_slice_total_counts_docker_rows(
    a: Seq<RunnerRowView>,
    b: Seq<RunnerRowView>,
    row: RunnerRowView,
)
    ensures
        slice_total(Seq::empty()) == 0,
        row.kind == SourceKind::Docker ==> slice_total(seq![row]) == row.mem_bytes,
        row.kind == SourceKind::Native ==> slice_total(seq![row]) == 0,
        slice_total(a + b) == slice_total(a) + slice_total(b),
    decreases b.len(),
{
    reveal_with_fuel(slice_total, 2);
    assert(seq![row].drop_last() =~= Seq::empty());
    if b.len() == 0 {
        assert(a + b =~= a);
    } else {
        law_slice_total_counts_docker_rows(a, b.drop_last(), row);
        assert((a + b).drop_last() =~= a + b.drop_last());
    }
}

/// The memory that runners use of the slice adds up in the same way.
pub proof fn law_docker_total_counts_docker_runners(
    a: Seq<RunnerResource>,
    b: Seq<RunnerResource>,
    runner: RunnerResource,
)
    ensures
        docker_total(Seq::empty()) == 0,
        runner.kind == SourceKind::Docker ==> docker_total(seq![runner]) == runner.mem_bytes,
        runner.kind == SourceKind::Native ==> docker_total(seq![runner]) == 0,
        docker_total(a + b) == docker_total(a) + docker_total(b),
    decreases b.len(),
{
    reveal_with_fuel(docker_total, 2);
    assert(seq![runner].drop_last() =~= Seq::empty());
    if b.len() == 0 {
        assert(a + b =~= a);
    } else {
        law_docker_total_counts_docker_runners(a, b.drop_last(), runner);
        assert((a + b).drop_last() =~= a + b.drop_last());
    }
}

/// A poll carries data unless it is a docker poll that failed, and only the total of
/// a docker poll that carries data can be too large to record.
pub proof fn law_which_polls_carry_data(update: ResourceUpdate)
    ensures
        update.source == SourceKind::Native ==> update.applies(),
        update.source == SourceKind::Docker ==> (update.applies() <==> update.error is None),
        update.source == SourceKind::Native ==> update.fits(),
        update.error is Some ==> update.fits(),
        update.source == SourceKind::Docker && update.error is None ==> (update.fits()
            <==> mem_total(update.resources@) < 0x1_0000_0000_0000_0000),
{
}

/// A runner's readings in a poll are what the poll reports of it, in order.
pub proof fn law_samples_are_the_reports(
    a: Seq<RunnerResource>,
    b: Seq<RunnerResource>,
    runner: RunnerResource,
    name: Seq<char>,
)
    ensures
        samples_of(Seq::empty(), name).len() == 0,
        runner.name@ != name ==> samples_of(seq![runner], name).len() == 0,
        runner.name@ == name ==> {
            let samples = samples_of(seq![runner], name);
            &&& samples.len() == 1
            &&& samples[0].cpu_pct == runner.cpu_pct
            &&& samples[0].mem.bytes == runner.mem_bytes
            &&& samples[0].mem.limit == runner.mem_limit
        },
        samples_of(a + b, name) == samples_of(a, name) + samples_of(b, name),
    decreases b.len(),
{
    reveal_with_fuel(samples_of, 2);
    assert(seq![runner].drop_last() =~= Seq::empty());
    if b.len() == 0 {
        assert(a + b =~= a);
        assert(samples_of(a, name) + samples_of(b, name) =~= samples_of(a, name));
    } else {
        law_samples_are_the_reports(a, b.drop_last(), runner, name);
        assert((a + b).drop_last() =~= a + b.drop_last());
        assert(samples_of(a + b, name) =~= samples_of(a, name) + samples_of(b, name));
    }
}

/// A history shows of a runner, for each reading it holds, the CPU share and the
/// memory; of a runner that it does not know it has no readings and shows nothing.
pub proof fn law_history_shows_its_readings(history: HistoryView, name: Seq<char>)
    ensures
        ({
            let cpu = history.cpu(name);
            let mem = history.mem(name);
            &&& !history.series.contains_key(name) ==> {
                &&& history.of(name).len() == 0
                &&& cpu.len() == 0
                &&& mem.len() == 0
            }
            &&& history.series.contains_key(name) ==> {
                &&& history.of(name) == history.series[name]
                &&& cpu.len() == history.series[name].len()
                &&& mem.len() == history.series[name].len()
                &&& forall|i: int|
                    0 <= i < cpu.len() ==> #[trigger] cpu[i] == history.series[name][i].cpu_pct
                &&& forall|i: int|
                    0 <= i < mem.len() ==> #[trigger] mem[i] == history.series[name][i].mem
            }
        }),
{
}

/// Recording a poll drops the series of every runner that is gone, leaves alone the
/// series of a known runner that was not polled, gives a known runner that was polled
/// a series, and does not touch the slice.
pub proof fn law_record_keeps_known_series(
    history: HistoryView,
    polled: Seq<RunnerResource>,
    known: Seq<RunnerResource>,
    name: Seq<char>,
)
    ensures
        ({
            let after = history.recorded(polled, known);
            let gone = forall|i: int|
                0 <= i < known.len() ==> (#[trigger] known[i]).name@ != name;
            let unread = forall|i: int|
                0 <= i < polled.len() ==> (#[trigger] polled[i]).name@ != name;
            &&& gone ==> !after.series.contains_key(name)
            &&& !gone && unread ==> {
                &&& after.series.contains_key(name) <==> history.series.contains_key(name)
                &&& after.series.contains_key(name) ==> after.series[name] == history.series[name]
            }
            &&& !gone && !unread ==> {
                &&& after.series.contains_key(name)
                &&& after.series[name].len() > 0
            }
            &&& after.slice == history.slice
        }),
{
    lemma_samples_found(polled, name);
}

/// A runner has readings in a poll when the poll reports it.
proof fn lemma_samples_found(runners: Seq<RunnerResource>, name: Seq<char>)
    ensures
        samples_of(runners, name).len() > 0 <==> named(runners, name),
    decreases runners.len(),
{
    if runners.len() > 0 {
        let rest = runners.drop_last();
        lemma_samples_found(rest, name);
        if named(rest, name) {
            let i = choose|i: int| 0 <= i < rest.len() && (#[trigger] rest[i]).name@ == name;
            assert(runners[i].name@ == name);
        }
        if named(runners, name) && runners.last().name@ != name {
            let i = choose|i: int| 0 <= i < runners.len() && (#[trigger] runners[i]).name@ == name;
            assert(rest[i].name@ == name);
        }
        if runners.last().name@ == name {
            assert(runners[runners.len() - 1].name@ == name);
        }
    }
}

/// Recording a poll adds, for a known runner that the poll reports once, one reading
/// at the end of its series: the CPU share, the memory and the limit that the poll
/// reports. What was there stays before it, but for the oldest reading of a full
/// series.
pub proof fn law_record_appends_the_report(
    history: HistoryView,
    polled: Seq<RunnerResource>,
    known: Seq<RunnerResource>,
    i: int,
    k: int,
)
    requires
        0 <= i < polled.len(),
        0 <= k < known.len(),
        known[k].name@ == polled[i].name@,
        forall|j: int|
            0 <= j < polled.len() && j != i ==> (#[trigger] polled[j]).name@ != polled[i].name@,
    ensures
        ({
            let name = polled[i].name@;
            let old_series = history.of(name);
            let series = history.recorded(polled, known).series[name];
            &&& history.recorded(polled, known).series.contains_key(name)
            &&& old_series.len() < 20 ==> series.len() == old_series.len() + 1
            &&& old_series.len() >= 20 ==> series.len() == 20
            &&& series.last().cpu_pct == polled[i].cpu_pct
            &&& series.last().mem.bytes == polled[i].mem_bytes
            &&& series.last().mem.limit == polled[i].mem_limit
            &&& forall|j: int|
                0 <= j < series.len() - 1 ==> #[trigger] series[j] == old_series[old_series.len()
                    - (series.len() - 1) + j]
        }),
{
    let name = polled[i].name@;
    lemma_samples_found(polled, name);
    let before = polled.take(i);
    let after = polled.skip(i + 1);
    let one = seq![polled[i]];
    assert(polled =~= before + (one + after));
    law_samples_are_the_reports(before, one + after, polled[i], name);
    law_samples_are_the_reports(one, after, polled[i], name);
    lemma_samples_found(before, name);
    lemma_samples_found(after, name);
    let added = samples_of(polled, name);
    assert(added.len() == 1);
    assert(added =~= samples_of(one, name));
    law_recent_keeps_the_newest_twenty(history.of(name) + added);
    assert(known[k].name@ == name);
}

/// Recording a poll adds to a known runner's series every reading of it that the poll
/// holds, in order.
pub proof fn law_record_appends_all_reports(
    history: HistoryView,
    polled: Seq<RunnerResource>,
    known: Seq<RunnerResource>,
    k: int,
)
    requires
        0 <= k < known.len(),
    ensures
        ({
            let name = known[k].name@;
            let added = samples_of(polled, name);
            let series = history.recorded(polled, known).of(name);
            &&& added.len() > 0 ==> series == recent(history.of(name) + added)
            &&& added.len() == 0 ==> series == history.of(name)
        }),
{
    let name = known[k].name@;
    assert(known[k].name@ == name);
    lemma_samples_found(polled, name);
}

/// A reading of the slice goes to the end of its series, whose oldest reading makes
/// room for it when the series is full; no runner's series is touched.
pub proof fn law_slice_reading_is_appended(history: HistoryView, total: u64)
    ensures
        ({
            let old_slice = history.slice;
            let slice = history.slice_recorded(total).slice;
            &&& history.slice_recorded(total).series == history.series
            &&& old_slice.len() < 20 ==> slice.len() == old_slice.len() + 1
            &&& old_slice.len() >= 20 ==> slice.len() == 20
            &&& slice.last() == total
            &&& forall|j: int|
                0 <= j < slice.len() - 1 ==> #[trigger] slice[j] == old_slice[old_slice.len() - (
                slice.len() - 1) + j]
        }),
{
}

/// A docker poll that did not fail replaces everything the docker source reported
/// before, whatever the poll holds: a poll without runners leaves none. It touches
/// nothing else but the history.
pub proof fn law_docker_poll_replaces_the_docker_data(state: StateView, update: ResourceUpdate)
    requires
        update.source == SourceKind::Docker,
        update.error is None,
    ensures
        ({
            let after = state.after_resources(update);
            &&& after.docker_resources == update.resources@
            &&& after.docker_err is None
            &&& after.matched_seen == update.matched_seen
            &&& after.unmatched_seen == update.unmatched_seen
            &&& after.native_resources == state.native_resources
            &&& after.native_err == state.native_err
            &&& after.jobs == state.jobs
            &&& after.jobs_err == state.jobs_err
            &&& after.hosted == state.hosted
            &&& after.deployments == state.deployments
        }),
{
}

/// A docker poll that failed shows why and changes nothing else, whatever it holds.
pub proof fn law_failed_docker_poll_changes_its_banner_alone(
    state: StateView,
    update: ResourceUpdate,
)
    requires
        update.source == SourceKind::Docker,
        update.error is Some,
    ensures
        ({
            let after = state.after_resources(update);
            &&& after.docker_err == Some(update.error->0@)
            &&& after.docker_resources == state.docker_resources
            &&& after.matched_seen == state.matched_seen
            &&& after.unmatched_seen == state.unmatched_seen
            &&& after.history == state.history
            &&& after.native_resources == state.native_resources
            &&& after.native_err == state.native_err
            &&& after.jobs == state.jobs
            &&& after.jobs_err == state.jobs_err
            &&& after.hosted == state.hosted
            &&& after.deployments == state.deployments
        }),
{
}

/// A native poll replaces everything the native source reported before, also when it
/// holds no runners, and its banner by the poll's, also when the poll has none. It
/// touches nothing else but the history.
pub proof fn law_native_poll_replaces_the_native_data(state: StateView, update: ResourceUpdate)
    requires
        update.source == SourceKind::Native,
    ensures
        ({
            let after = state.after_resources(update);
            &&& after.native_resources == update.resources@
            &&& after.native_err is Some <==> update.error is Some
            &&& update.error matches Some(e) ==> after.native_err == Some(e@)
            &&& after.docker_resources == state.docker_resources
            &&& after.docker_err == state.docker_err
            &&& after.matched_seen == state.matched_seen
            &&& after.unmatched_seen == state.unmatched_seen
            &&& after.history.slice == state.history.slice
            &&& after.jobs == state.jobs
            &&& after.jobs_err == state.jobs_err
            &&& after.hosted == state.hosted
            &&& after.deployments == state.deployments
        }),
{
}

/// The runners of the state are those of docker, in order, and then the native ones,
/// in order.
pub proof fn law_runners_are_docker_then_native(state: StateView)
    ensures
        state.runners().len() == state.docker_resources.len() + state.native_resources.len(),
        forall|i: int|
            0 <= i < state.docker_resources.len() ==> #[trigger] state.runners()[i]
                == state.docker_resources[i],
        forall|i: int|
            state.docker_resources.len() <= i < state.runners().len()
                ==> #[trigger] state.runners()[i] == state.native_resources[i
                - state.docker_resources.len()],
{
}

/// What polls do to the slice series, by what they hold. A docker poll that did not
/// fail adds the total of the runners it holds; so does one that holds none while no
/// container matches the prefix, and there the total is zero. No other poll adds
/// anything; how many containers do not match the prefix makes no difference.
pub proof fn law_slice_series_by_poll(state: StateView, update: ResourceUpdate)
    requires
        update.fits(),
    ensures
        ({
            let old_slice = state.history.slice;
            let slice = state.after_resources(update).history.slice;
            let total = mem_total(update.resources@) as u64;
            &&& update.source == SourceKind::Docker && update.error is None
                && update.resources@.len() > 0 ==> slice == recent(old_slice.push(total))
                && slice.last() == mem_total(update.resources@)
            &&& update.source == SourceKind::Docker && update.error is None
                && update.resources@.len() == 0 && update.matched_seen == 0 ==> slice == recent(
                old_slice.push(0),
            ) && slice.last() == 0
            &&& update.source == SourceKind::Docker && update.error is None
                && update.resources@.len() == 0 && update.matched_seen > 0 ==> slice == old_slice
            &&& update.source == SourceKind::Docker && update.error is Some ==> slice == old_slice
            &&& update.source == SourceKind::Native ==> slice == old_slice
        }),
{
}

/// Two docker polls with the same runners do the same to the slice series, and to
/// every runner's, however many containers do not match the prefix.
pub proof fn law_unmatched_containers_do_not_count(
    state: StateView,
    a: ResourceUpdate,
    b: ResourceUpdate,
)
    requires
        a.source == b.source,
        a.resources@ == b.resources@,
        a.matched_seen == b.matched_seen,
        a.error == b.error,
    ensures
        state.after_resources(a).history == state.after_resources(b).history,
{
}

/// What a poll that carries data does to the series of the runners. A runner that the
/// poll reports once gets the reported reading at the end of its series. A runner that
/// the poll does not report keeps its series while the other source has it, and loses
/// it otherwise.
pub proof fn law_runner_series_by_poll(
    state: StateView,
    update: ResourceUpdate,
    other: Seq<RunnerResource>,
    i: int,
    name: Seq<char>,
)
    requires
        update.source == SourceKind::Docker ==> update.error is None && other
            == state.native_resources,
        update.source == SourceKind::Native ==> other == state.docker_resources,
    ensures
        ({
            let after = state.after_resources(update).history;
            let polled = update.resources@;
            let once = 0 <= i < polled.len() && forall|j: int|
                0 <= j < polled.len() && j != i ==> (#[trigger] polled[j]).name@ != polled[i].name@;
            let unread = forall|j: int|
                0 <= j < polled.len() ==> (#[trigger] polled[j]).name@ != name;
            let elsewhere = exists|j: int|
                0 <= j < other.len() && (#[trigger] other[j]).name@ == name;
            &&& once ==> {
                let old_series = state.history.of(polled[i].name@);
                let series = after.of(polled[i].name@);
                &&& series.len() == (if old_series.len() < 20 {
                    old_series.len() + 1
                } else {
                    20
                })
                &&& series.last().cpu_pct == polled[i].cpu_pct
                &&& series.last().mem.bytes == polled[i].mem_bytes
                &&& series.last().mem.limit == polled[i].mem_limit
                &&& forall|j: int|
                    0 <= j < series.len() - 1 ==> #[trigger] series[j]
                        == old_series[old_series.len() - (series.len() - 1) + j]
            }
            &&& unread && elsewhere ==> after.of(name) == state.history.of(name)
            &&& unread && !elsewhere ==> !after.series.contains_key(name)
        }),
{
    let polled = update.resources@;
    let known = state.with_resources(update).runners();
    let offset: int = if update.source == SourceKind::Docker {
        0
    } else {
        state.docker_resources.len() as int
    };
    let other_offset: int = if update.source == SourceKind::Docker {
        polled.len() as int
    } else {
        0
    };
    assert(forall|j: int| 0 <= j < polled.len() ==> known[offset + j] == #[trigger] polled[j]);
    assert(forall|j: int|
        0 <= j < other.len() ==> known[other_offset + j] == #[trigger] other[j]);
    law_record_keeps_known_series(state.history, polled, known, name);
    let once = 0 <= i < polled.len() && forall|j: int|
        0 <= j < polled.len() && j != i ==> (#[trigger] polled[j]).name@ != polled[i].name@;
    if once {
        assert(known[offset + i] == polled[i]);
        law_record_appends_the_report(state.history, polled, known, i, offset + i);
    }
    if exists|j: int| 0 <= j < other.len() && (#[trigger] other[j]).name@ == name {
        let j = choose|j: int| 0 <= j < other.len() && (#[trigger] other[j]).name@ == name;
        assert(known[other_offset + j].name@ == name);
    }
    let unread = forall|j: int| 0 <= j < polled.len() ==> (#[trigger] polled[j]).name@ != name;
    let elsewhere = exists|j: int| 0 <= j < other.len() && (#[trigger] other[j]).name@ == name;
    if unread && !elsewhere {
        assert forall|k: int| 0 <= k < known.len() implies (#[trigger] known[k]).name@ != name by {
            if offset <= k < offset + polled.len() {
                assert(polled[k - offset] == known[k]);
            } else {
                assert(other[k - other_offset] == known[k]);
            }
        }
    }
}

/// A jobs poll replaces the jobs, the hosted jobs and the jobs banner by its own, and
/// touches nothing else.
pub proof fn law_jobs_poll_replaces_the_jobs(state: StateView, update: JobsUpdate)
    ensures
        ({
            let after = state.after_jobs(update);
            &&& after.jobs == update.jobs@
            &&& after.hosted == update.hosted@
            &&& after.jobs_err is Some <==> update.error is Some
            &&& update.error matches Some(e) ==> after.jobs_err == Some(e@)
            &&& after.docker_resources == state.docker_resources
            &&& after.native_resources == state.native_resources
            &&& after.docker_err == state.docker_err
            &&& after.native_err == state.native_err
            &&& after.deployments == state.deployments
            &&& after.history == state.history
            &&& after.matched_seen == state.matched_seen
            &&& after.unmatched_seen == state.unmatched_seen
        }),
{
}

/// A deployments poll replaces the deployments by its own, and touches nothing else.
pub proof fn law_vercel_poll_replaces_the_deployments(state: StateView, update: VercelUpdate)
    ensures
        ({
            let after = state.after_vercel(update);
            &&& after.deployments == update.deployments@
            &&& after.docker_resources == state.docker_resources
            &&& after.native_resources == state.native_resources
            &&& after.docker_err == state.docker_err
            &&& after.native_err == state.native_err
            &&& after.jobs == state.jobs
            &&& after.jobs_err == state.jobs_err
            &&& after.hosted == state.hosted
            &&& after.history == state.history
            &&& after.matched_seen == state.matched_seen
            &&& after.unmatched_seen == state.unmatched_seen
        }),
{
}

/// What a state's view says is what the state holds.
pub proof fn law_state_view_is_faithful(state: AppState)
    ensures
        state@.docker_resources == state.docker_resources@,
        state@.native_resources == state.native_resources@,
        state@.docker_err is Some <==> state.docker_err is Some,
        state.docker_err matches Some(e) ==> state@.docker_err == Some(e@),
        state@.native_err is Some <==> state.native_err is Some,
        state.native_err matches Some(e) ==> state@.native_err == Some(e@),
        state@.jobs == state.jobs@,
        state@.jobs_err is Some <==> state.jobs_err is Some,
        state.jobs_err matches Some(e) ==> state@.jobs_err == Some(e@),
        state@.hosted == state.hosted@,
        state@.deployments == state.deployments@,
        state@.history == state.history@,
        state@.matched_seen == state.matched_seen,
        state@.unmatched_seen == state.unmatched_seen,
{
}

/// A state that has heard nothing holds nothing.
pub proof fn law_empty_state_holds_nothing(name: Seq<char>, key: RunnerKeyView)
    ensures
        ({
            let state = StateView::empty();
            &&& state.docker_resources.len() == 0
            &&& state.native_resources.len() == 0
            &&& state.docker_err is None
            &&& state.native_err is None
            &&& state.jobs_err is None
            &&& !state.jobs.contains_key(key)
            &&& state.hosted.len() == 0
            &&& state.deployments.len() == 0
            &&& !state.history.series.contains_key(name)
            &&& state.history.slice.len() == 0
            &&& state.matched_seen == 0
            &&& state.unmatched_seen == 0
        }),
{
}

/// What an engine makes of a report is what the report's poll does to its state; the
/// answer is `Applied` for data that changed and `ErrorOnly` for a failed docker or
/// jobs poll. A report closes no channel.
pub proof fn law_reports_go_to_the_state(
    before: Engine,
    event: PollEvent,
    outcome: RecvOutcome,
    after: Engine,
)
    requires
        received(before, event, outcome, after),
    ensures
        event matches PollEvent::Resources(Some(update)) ==> {
            &&& after.state@ == before.state@.after_resources(update)
            &&& outcome == (if update.source == SourceKind::Docker && update.error is Some {
                RecvOutcome::ErrorOnly
            } else {
                RecvOutcome::Applied
            })
        },
        event matches PollEvent::Jobs(Some(update)) ==> {
            &&& after.state@ == before.state@.after_jobs(update)
            &&& outcome == (if update.error is Some {
                RecvOutcome::ErrorOnly
            } else {
                RecvOutcome::Applied
            })
        },
        event matches PollEvent::Vercel(Some(update)) ==> {
            &&& after.state@ == before.state@.after_vercel(update)
            &&& outcome == RecvOutcome::Applied
        },
        event matches PollEvent::Resources(update) ==> {
            &&& after.res_alive == (before.res_alive && update is Some)
            &&& after.jobs_alive == before.jobs_alive
            &&& after.vercel_alive == before.vercel_alive
        },
        event matches PollEvent::Jobs(update) ==> {
            &&& after.res_alive == before.res_alive
            &&& after.jobs_alive == (before.jobs_alive && update is Some)
            &&& after.vercel_alive == before.vercel_alive
        },
        event matches PollEvent::Vercel(update) ==> {
            &&& after.res_alive == before.res_alive
            &&& after.jobs_alive == before.jobs_alive
            &&& after.vercel_alive == (before.vercel_alive && update is Some)
        },
        after.slice_cap_bytes == before.slice_cap_bytes,
        after.warn_ratio == before.warn_ratio,
        after.crit_ratio == before.crit_ratio,
        after.prefix == before.prefix,
        after.multi_repo == before.multi_repo,
{
}

/// What an engine makes of a channel that closed, and of hearing that none is left.
/// The resources channel takes docker's banner place and the jobs channel its own,
/// where the place is free; a banner that stands stays. Nothing else changes.
pub proof fn law_closing_raises_a_banner_where_none_stands(
    before: Engine,
    event: PollEvent,
    outcome: RecvOutcome,
    after: Engine,
)
    requires
        received(before, event, outcome, after),
        event == PollEvent::Resources(None) || event == PollEvent::Jobs(None) || event
            == PollEvent::Vercel(None) || event == PollEvent::NoneArmed,
    ensures
        event == PollEvent::NoneArmed <==> outcome == RecvOutcome::Closed,
        event != PollEvent::NoneArmed <==> outcome == RecvOutcome::ErrorOnly,
        event == PollEvent::Resources(None) && before.state.docker_err is None
            ==> after.state.docker_err is Some && after.state.docker_err->0@
            == "docker: resource pollers stopped"@,
        event != PollEvent::Resources(None) || before.state.docker_err is Some
            ==> after.state@.docker_err == before.state@.docker_err,
        event == PollEvent::Jobs(None) && before.state.jobs_err is None
            ==> after.state.jobs_err is Some && after.state.jobs_err->0@
            == "jobs: poller stopped"@,
        event != PollEvent::Jobs(None) || before.state.jobs_err is Some
            ==> after.state@.jobs_err == before.state@.jobs_err,
        event == PollEvent::NoneArmed ==> {
            &&& after.res_alive == before.res_alive
            &&& after.jobs_alive == before.jobs_alive
            &&& after.vercel_alive == before.vercel_alive
        },
        after.state@.docker_resources == before.state@.docker_resources,
        after.state@.native_resources == before.state@.native_resources,
        after.state@.native_err == before.state@.native_err,
        after.state@.jobs == before.state@.jobs,
        after.state@.hosted == before.state@.hosted,
        after.state@.deployments == before.state@.deployments,
        after.state@.history == before.state@.history,
        after.state@.matched_seen == before.state@.matched_seen,
        after.state@.unmatched_seen == before.state@.unmatched_seen,
{
}

/// An engine can take in whatever an open channel sends, but for a docker total that
/// is too large, and that no channel is open when none is.
pub proof fn law_what_can_be_received(engine: Engine, event: PollEvent)
    ensures
        event matches PollEvent::Resources(None) ==> (engine.can_receive(event)
            <==> engine.res_alive),
        event matches PollEvent::Resources(Some(update)) ==> {
            &&& update.source == SourceKind::Native ==> (engine.can_receive(event)
                <==> engine.res_alive)
            &&& update.error is Some ==> (engine.can_receive(event) <==> engine.res_alive)
            &&& update.source == SourceKind::Docker && update.error is None ==> (
            engine.can_receive(event) <==> engine.res_alive && mem_total(update.resources@)
                <= u64::MAX)
        },
        event is Jobs ==> (engine.can_receive(event) <==> engine.jobs_alive),
        event is Vercel ==> (engine.can_receive(event) <==> engine.vercel_alive),
        event is NoneArmed ==> (engine.can_receive(event) <==> !engine.res_alive
            && !engine.jobs_alive && !engine.vercel_alive),
        engine.any_alive() <==> engine.res_alive || engine.jobs_alive || engine.vercel_alive,
{
}

/// Two runner keys are the same when scope and name are: neither alone tells.
pub proof fn law_keys_are_scope_and_name(a: RunnerKey, b: RunnerKey)
    ensures
        a@ == b@ <==> a.scope@ == b.scope@ && a.name@ == b.name@,
        a@.scope == a.scope@,
        a@.name == a.name@,
{
}

/// Any function that can be asked about every reading, and has one answer for each,
/// can be asked for the levels.
pub proof fn law_any_function_of_a_reading_will_do<L: Fn(u64, u64, Bits64, Bits64) -> MemLevel>(
    level_of: L,
)
    requires
        forall|bytes: u64, limit: u64, warn: Bits64, crit: Bits64| #[trigger]
            call_requires(level_of, (bytes, limit, warn, crit)),
        forall|bytes: u64, limit: u64, warn: Bits64, crit: Bits64, a: MemLevel, b: MemLevel|
            #[trigger] call_ensures(level_of, (bytes, limit, warn, crit), a)
                && #[trigger] call_ensures(level_of, (bytes, limit, warn, crit), b) ==> a == b,
    ensures
        reads_levels(level_of),
{
}

/// Every row shows its own runner, as it was reported: there are as many rows as
/// runners, in the same order, and each has the name, the CPU share, the memory, the
/// limit and the kind of its runner.
pub proof fn law_rows_show_their_runners<L: Fn(u64, u64, Bits64, Bits64) -> MemLevel>(
    rows: Seq<RunnerRow>,
    runners: Seq<RunnerResource>,
    jobs: Map<RunnerKeyView, Option<JobInfo>>,
    history: HistoryView,
    warn: Bits64,
    crit: Bits64,
    level_of: L,
)
    requires
        row_views(rows) == joined(runners, jobs, history, warn, crit, level_of),
    ensures
        rows.len() == runners.len(),
        forall|i: int|
            0 <= i < runners.len() ==> {
                &&& (#[trigger] rows[i]).name@ == runners[i].name@
                &&& rows[i].cpu_pct == runners[i].cpu_pct
                &&& rows[i].mem_bytes == runners[i].mem_bytes
                &&& rows[i].mem_limit == runners[i].mem_limit
                &&& rows[i].kind == runners[i].kind
            },
{
    assert(row_views(rows).len() == rows.len());
    assert forall|i: int| 0 <= i < runners.len() implies {
        &&& (#[trigger] rows[i]).name@ == runners[i].name@
        &&& rows[i].cpu_pct == runners[i].cpu_pct
        &&& rows[i].mem_bytes == runners[i].mem_bytes
        &&& rows[i].mem_limit == runners[i].mem_limit
        &&& rows[i].kind == runners[i].kind
    } by {
        assert(row_views(rows)[i] == rows[i]@);
    }
}

/// A row shows the job that the jobs poll reports under the runner's key, and none for
/// a runner without a key, or whose key is not there, or is there without a job.
pub proof fn law_rows_show_the_job_of_the_key<L: Fn(u64, u64, Bits64, Bits64) -> MemLevel>(
    rows: Seq<RunnerRow>,
    runners: Seq<RunnerResource>,
    jobs: Map<RunnerKeyView, Option<JobInfo>>,
    history: HistoryView,
    warn: Bits64,
    crit: Bits64,
    level_of: L,
    i: int,
)
    requires
        row_views(rows) == joined(runners, jobs, history, warn, crit, level_of),
        0 <= i < runners.len(),
    ensures
        runners[i].key is None ==> rows[i].job is None,
        runners[i].key matches Some(key) ==> {
            &&& !jobs.contains_key(key@) ==> rows[i].job is None
            &&& jobs.contains_key(key@) ==> rows[i].job == jobs[key@]
        },
{
    assert(row_views(rows).len() == rows.len());
    assert(row_views(rows)[i] == rows[i]@);
}

/// The memory level of a row is the answer for the runner's own memory and limit
/// against the warn ratio and the critical ratio. The load is near the cap where that
/// answer is critical and nowhere else; short of it, busy with a job and idle without.
pub proof fn law_rows_show_level_and_load<L: Fn(u64, u64, Bits64, Bits64) -> MemLevel>(
    rows: Seq<RunnerRow>,
    runners: Seq<RunnerResource>,
    jobs: Map<RunnerKeyView, Option<JobInfo>>,
    history: HistoryView,
    warn: Bits64,
    crit: Bits64,
    level_of: L,
    i: int,
)
    requires
        row_views(rows) == joined(runners, jobs, history, warn, crit, level_of),
        all_answered(level_of, runners, warn, crit),
        0 <= i < runners.len(),
    ensures
        call_ensures(
            level_of,
            (runners[i].mem_bytes, runners[i].mem_limit, warn, crit),
            rows[i].mem_level,
        ),
        rows[i].load == Load::NearCap <==> rows[i].mem_level == MemLevel::Critical,
        rows[i].load == Load::Busy <==> rows[i].mem_level != MemLevel::Critical
            && rows[i].job is Some,
        rows[i].load == Load::Idle <==> rows[i].mem_level != MemLevel::Critical
            && rows[i].job is None,
{
    assert(row_views(rows).len() == rows.len());
    assert(row_views(rows)[i] == rows[i]@);
    assert(all_answered(level_of, runners, warn, crit) && runners[i] == runners[i]);
}

/// A row shows its runner's readings, all of them, oldest first: the CPU shares, and
/// the memory with its limit. A runner without a series shows none.
pub proof fn law_rows_show_the_readings<L: Fn(u64, u64, Bits64, Bits64) -> MemLevel>(
    rows: Seq<RunnerRow>,
    runners: Seq<RunnerResource>,
    jobs: Map<RunnerKeyView, Option<JobInfo>>,
    history: HistoryView,
    warn: Bits64,
    crit: Bits64,
    level_of: L,
    i: int,
)
    requires
        row_views(rows) == joined(runners, jobs, history, warn, crit, level_of),
        0 <= i < runners.len(),
    ensures
        ({
            let name = runners[i].name@;
            let cpu = rows[i].cpu_hist@;
            let mem = rows[i].mem_hist@;
            &&& !history.series.contains_key(name) ==> cpu.len() == 0 && mem.len() == 0
            &&& history.series.contains_key(name) ==> {
                &&& cpu.len() == history.series[name].len()
                &&& mem.len() == history.series[name].len()
                &&& forall|j: int|
                    0 <= j < cpu.len() ==> #[trigger] cpu[j] == history.series[name][j].cpu_pct
                &&& forall|j: int|
                    0 <= j < mem.len() ==> #[trigger] mem[j] == history.series[name][j].mem
            }
        }),
{
    assert(row_views(rows).len() == rows.len());
    assert(row_views(rows)[i] == rows[i]@);
}

/// A tick shows the state: the rows are the join of the docker runners and then the
/// native ones with the jobs and the history, and the sections and counts are the
/// state's own.
pub proof fn law_tick_shows_the_state<'a, L: Fn(u64, u64, Bits64, Bits64) -> MemLevel>(
    tick: Tick<'a>,
    state: AppState,
    warn: Bits64,
    crit: Bits64,
    level_of: L,
)
    requires
        tick@ == tick_of(state@, warn, crit, level_of),
    ensures
        row_views(tick.rows@) == joined(
            state.docker_resources@ + state.native_resources@,
            state.jobs@,
            state.history@,
            warn,
            crit,
            level_of,
        ),
        tick.rows@.len() == state.docker_resources@.len() + state.native_resources@.len(),
        forall|i: int|
            0 <= i < state.docker_resources@.len() ==> (#[trigger] tick.rows@[i]).name@
                == state.docker_resources@[i].name@,
        forall|i: int|
            state.docker_resources@.len() <= i < tick.rows@.len() ==> (
            #[trigger] tick.rows@[i]).name@ == state.native_resources@[i
                - state.docker_resources@.len()].name@,
        tick.slice_mem_hist@ == state.history@.slice,
        tick.matched_seen == state.matched_seen,
        tick.unmatched_seen == state.unmatched_seen,
        tick.hosted@ == state.hosted@,
        tick.deployments@ == state.deployments@,
{
    law_rows_show_their_runners(
        tick.rows@,
        state.docker_resources@ + state.native_resources@,
        state.jobs@,
        state.history@,
        warn,
        crit,
        level_of,
    );
}

/// A tick lists the banners that stand and no others: docker's first, then the native
/// one, then that of the jobs, each word for word.
pub proof fn law_tick_lists_the_banners<'a, L: Fn(u64, u64, Bits64, Bits64) -> MemLevel>(
    tick: Tick<'a>,
    state: AppState,
    warn: Bits64,
    crit: Bits64,
    level_of: L,
)
    requires
        tick@ == tick_of(state@, warn, crit, level_of),
    ensures
        ({
            let errors = tick.errors@;
            let docker: int = if state.docker_err is Some { 1 } else { 0 };
            let native: int = if state.native_err is Some { 1 } else { 0 };
            let jobs: int = if state.jobs_err is Some { 1 } else { 0 };
            &&& errors.len() == docker + native + jobs
            &&& state.docker_err matches Some(e) ==> errors[0]@ == e@
            &&& state.native_err matches Some(e) ==> errors[docker]@ == e@
            &&& state.jobs_err matches Some(e) ==> errors[docker + native]@ == e@
        }),
{
    let docker: int = if state.docker_err is Some { 1 } else { 0 };
    let native: int = if state.native_err is Some { 1 } else { 0 };
    let errors = tick.errors@;
    assert(tick@.errors.len() == errors.len());
    if state.docker_err is Some {
        assert(tick@.errors[0] == errors[0]@);
    }
    if state.native_err is Some {
        assert(tick@.errors[docker] == errors[docker]@);
    }
    if state.jobs_err is Some {
        assert(tick@.errors[docker + native] == errors[docker + native]@);
    }
}

/// The words of the snapshot, letter by letter.
pub proof fn law_words_of_the_snapshot(
    kind: SourceKind,
    load: Load,
    level: MemLevel,
    hosted: HostedStatus,
    deploy: DeployStatus,
)
    ensures
        kind_word(kind) == (if kind == SourceKind::Docker {
            seq!['d', 'o', 'c', 'k', 'e', 'r']
        } else {
            seq!['n', 'a', 't', 'i', 'v', 'e']
        }),
        load == Load::Idle ==> load_word(load) == seq!['i', 'd', 'l', 'e'],
        load == Load::Busy ==> load_word(load) == seq!['b', 'u', 's', 'y'],
        load == Load::NearCap ==> load_word(load) == seq!['n', 'e', 'a', 'r', '_', 'c', 'a', 'p'],
        level == MemLevel::Normal ==> mem_level_word(level) == seq!['n', 'o', 'r', 'm', 'a', 'l'],
        level == MemLevel::Warn ==> mem_level_word(level) == seq!['w', 'a', 'r', 'n'],
        level == MemLevel::Critical ==> mem_level_word(level) == seq![
            'c', 'r', 'i', 't', 'i', 'c', 'a', 'l'
        ],
        hosted_word(hosted) == (if hosted == HostedStatus::InProgress {
            seq!['i', 'n', '_', 'p', 'r', 'o', 'g', 'r', 'e', 's', 's']
        } else {
            seq!['q', 'u', 'e', 'u', 'e', 'd']
        }),
        deploy_word(deploy) == (if deploy == DeployStatus::Building {
            seq!['b', 'u', 'i', 'l', 'd', 'i', 'n', 'g']
        } else {
            seq!['q', 'u', 'e', 'u', 'e', 'd']
        }),
{
    reveal_strlit("docker");
    reveal_strlit("native");
    reveal_strlit("idle");
    reveal_strlit("busy");
    reveal_strlit("near_cap");
    reveal_strlit("normal");
    reveal_strlit("warn");
    reveal_strlit("critical");
    reveal_strlit("in_progress");
    reveal_strlit("queued");
    reveal_strlit("building");
}

/// The snapshot has one entry for each row, in order, and the entry says what the row
/// says: name, CPU share, memory, limit and readings as they are, and kind, load and
/// memory level by their words.
pub proof fn law_snapshot_shows_each_row<'a, L: Fn(u64, u64, Bits64, Bits64) -> MemLevel>(
    r: Snapshot,
    tick: Tick<'a>,
    cap: u64,
    warn: Bits64,
    crit: Bits64,
    level_of: L,
    now: int,
    i: int,
)
    requires
        r@ == snapshot_at(tick@, cap, warn, crit, level_of, now),
    ensures
        r.runners@.len() == tick.rows@.len(),
        0 <= i < tick.rows@.len() ==> {
            let row = tick.rows@[i];
            let snap = r.runners@[i];
            &&& snap.name@ == row.name@
            &&& snap.cpu_pct == row.cpu_pct
            &&& snap.mem_bytes == row.mem_bytes
            &&& snap.mem_limit == row.mem_limit
            &&& snap.cpu@ == row.cpu_hist@
            &&& snap.mem@ == row.mem_hist@
            &&& row.kind == SourceKind::Docker ==> snap.kind@ == "docker"@
            &&& row.kind == SourceKind::Native ==> snap.kind@ == "native"@
            &&& row.load == Load::Idle ==> snap.load@ == "idle"@
            &&& row.load == Load::Busy ==> snap.load@ == "busy"@
            &&& row.load == Load::NearCap ==> snap.load@ == "near_cap"@
            &&& row.mem_level == MemLevel::Normal ==> snap.mem_level@ == "normal"@
            &&& row.mem_level == MemLevel::Warn ==> snap.mem_level@ == "warn"@
            &&& row.mem_level == MemLevel::Critical ==> snap.mem_level@ == "critical"@
        },
{
    assert(r@.runners.len() == r.runners@.len());
    assert(tick@.rows.len() == tick.rows@.len());
    if 0 <= i < tick.rows@.len() {
        assert(r@.runners[i] == r.runners@[i]@);
        assert(tick@.rows[i] == tick.rows@[i]@);
    }
}

/// The snapshot shows of each row's job its workflow, its job and its branch, each
/// under its own name, and the whole seconds it has run; and a job just where the row
/// has one.
pub proof fn law_snapshot_shows_each_job<'a, L: Fn(u64, u64, Bits64, Bits64) -> MemLevel>(
    r: Snapshot,
    tick: Tick<'a>,
    cap: u64,
    warn: Bits64,
    crit: Bits64,
    level_of: L,
    now: int,
    i: int,
)
    requires
        r@ == snapshot_at(tick@, cap, warn, crit, level_of, now),
        0 <= i < tick.rows@.len(),
    ensures
        r.runners@[i].job is Some <==> tick.rows@[i].job is Some,
        tick.rows@[i].job matches Some(job) ==> {
            let snap = r.runners@[i].job->0;
            &&& snap.workflow@ == job.workflow@
            &&& snap.job@ == job.job@
            &&& snap.branch@ == job.branch@
            &&& now <= job.started_at@ ==> snap.elapsed_secs == 0
            &&& job.started_at@ <= now ==> snap.elapsed_secs * 1_000_000_000 <= now
                - job.started_at@ < (snap.elapsed_secs + 1) * 1_000_000_000
        },
{
    assert(r@.runners.len() == r.runners@.len());
    assert(tick@.rows.len() == tick.rows@.len());
    assert(r@.runners[i] == r.runners@[i]@);
    assert(tick@.rows[i] == tick.rows@[i]@);
    if let Some(job) = tick.rows@[i].job {
        law_elapsed_counts_whole_seconds(job.started_at@, now);
        assert(r@.runners[i].job->0 == r.runners@[i].job->0@);
    }
}

/// The snapshot has one entry for each hosted job, in order, with the repository, the
/// workflow, the job, the label and the branch, each under its own name, the word of
/// the status, and the whole seconds since.
pub proof fn law_snapshot_shows_each_hosted_job<'a, L: Fn(u64, u64, Bits64, Bits64) -> MemLevel>(
    r: Snapshot,
    tick: Tick<'a>,
    cap: u64,
    warn: Bits64,
    crit: Bits64,
    level_of: L,
    now: int,
    i: int,
)
    requires
        r@ == snapshot_at(tick@, cap, warn, crit, level_of, now),
    ensures
        r.hosted@.len() == tick.hosted@.len(),
        0 <= i < tick.hosted@.len() ==> {
            let job = tick.hosted@[i];
            let snap = r.hosted@[i];
            &&& snap.repo@ == job.repo@
            &&& snap.workflow@ == job.workflow@
            &&& snap.job@ == job.job@
            &&& snap.label@ == job.label@
            &&& snap.branch@ == job.branch@
            &&& job.status == HostedStatus::InProgress ==> snap.status@ == "in_progress"@
            &&& job.status == HostedStatus::Queued ==> snap.status@ == "queued"@
            &&& now <= job.since@ ==> snap.elapsed_secs == 0
            &&& job.since@ <= now ==> snap.elapsed_secs * 1_000_000_000 <= now - job.since@ < (
            snap.elapsed_secs + 1) * 1_000_000_000
        },
{
    assert(r@.hosted.len() == r.hosted@.len());
    if 0 <= i < tick.hosted@.len() {
        assert(r@.hosted[i] == r.hosted@[i]@);
        law_elapsed_counts_whole_seconds(tick.hosted@[i].since@, now);
    }
}

/// The snapshot has one entry for each deployment, in order, with the repository, the
/// project, the target, the branch and the commit, each under its own name, the word
/// of the status, and the whole seconds since it started.
pub proof fn law_snapshot_shows_each_deployment<'a, L: Fn(u64, u64, Bits64, Bits64) -> MemLevel>(
    r: Snapshot,
    tick: Tick<'a>,
    cap: u64,
    warn: Bits64,
    crit: Bits64,
    level_of: L,
    now: int,
    i: int,
)
    requires
        r@ == snapshot_at(tick@, cap, warn, crit, level_of, now),
    ensures
        r.vercel@.len() == tick.deployments@.len(),
        0 <= i < tick.deployments@.len() ==> {
            let deployment = tick.deployments@[i];
            let snap = r.vercel@[i];
            &&& snap.repo@ == deployment.repo@
            &&& snap.project@ == deployment.project@
            &&& snap.target@ == deployment.target@
            &&& snap.branch@ == deployment.branch@
            &&& snap.commit@ == deployment.commit_summary@
            &&& deployment.status == DeployStatus::Building ==> snap.status@ == "building"@
            &&& deployment.status == DeployStatus::Queued ==> snap.status@ == "queued"@
            &&& now <= deployment.started_at@ ==> snap.elapsed_secs == 0
            &&& deployment.started_at@ <= now ==> snap.elapsed_secs * 1_000_000_000 <= now
                - deployment.started_at@ < (snap.elapsed_secs + 1) * 1_000_000_000
        },
{
    assert(r@.vercel.len() == r.vercel@.len());
    if 0 <= i < tick.deployments@.len() {
        assert(r@.vercel[i] == r.vercel@[i]@);
        law_elapsed_counts_whole_seconds(tick.deployments@[i].started_at@, now);
    }
}

/// The snapshot shows of the slice what the docker rows use together, the cap it was
/// given, the word of the level that is the answer for that use and that cap against
/// the warn ratio and the critical ratio, and the tick's series.
pub proof fn law_snapshot_shows_the_slice<'a, L: Fn(u64, u64, Bits64, Bits64) -> MemLevel>(
    r: Snapshot,
    tick: Tick<'a>,
    cap: u64,
    warn: Bits64,
    crit: Bits64,
    level_of: L,
    now: int,
)
    requires
        slice_total(row_views(tick.rows@)) <= u64::MAX,
        r@ == snapshot_at(tick@, cap, warn, crit, level_of, now),
        answered(level_of, slice_total(tick@.rows) as u64, cap, warn, crit),
    ensures
        r.slice.docker_mem == slice_total(row_views(tick.rows@)),
        r.slice.cap == cap,
        r.slice.hist@ == tick.slice_mem_hist@,
        ({
            let asked = (r.slice.docker_mem, cap, warn, crit);
            let word = r.slice.mem_level@;
            ||| word == "normal"@ && call_ensures(level_of, asked, MemLevel::Normal)
            ||| word == "warn"@ && call_ensures(level_of, asked, MemLevel::Warn)
            ||| word == "critical"@ && call_ensures(level_of, asked, MemLevel::Critical)
        }),
{
}

/// The snapshot is dated by the whole seconds since the epoch, zero before it, and
/// lists all the tick's banners, in order and word for word.
pub proof fn law_snapshot_is_dated_and_lists_the_banners<
    'a,
    L: Fn(u64, u64, Bits64, Bits64) -> MemLevel,
>(
    r: Snapshot,
    tick: Tick<'a>,
    cap: u64,
    warn: Bits64,
    crit: Bits64,
    level_of: L,
    now: int,
)
    requires
        r@ == snapshot_at(tick@, cap, warn, crit, level_of, now),
    ensures
        now <= 0 ==> r.generated_at == 0,
        0 <= now ==> r.generated_at * 1_000_000_000 <= now < (r.generated_at + 1) * 1_000_000_000,
        r.errors@.len() == tick.errors@.len(),
        forall|i: int|
            0 <= i < r.errors@.len() ==> (#[trigger] r.errors@[i])@ == tick.errors@[i]@,
{
    law_elapsed_counts_whole_seconds(0, now);
    assert(r@.errors.len() == r.errors@.len());
    assert(tick@.errors.len() == tick.errors@.len());
    assert forall|i: int| 0 <= i < r.errors@.len() implies (#[trigger] r.errors@[i])@
        == tick.errors@[i]@ by {
        assert(r@.errors[i] == r.errors@[i]@);
        assert(tick@.errors[i] == tick.errors@[i]@);
    }
}

/// The portal shows the engine: an entry for each docker runner and then for each
/// native one, with what was reported of it, the engine's cap, and its levels against
/// the engine's own ratios.
pub proof fn law_portal_shows_the_engine<L: Fn(u64, u64, Bits64, Bits64) -> MemLevel>(
    r: Snapshot,
    engine: Engine,
    level_of: L,
    now: int,
    i: int,
)
    requires
        docker_total(engine.state@.runners()) <= u64::MAX,
        r@ == portal_of(engine, level_of, now),
        levels_answered(engine, level_of),
    ensures
        ({
            let runners = engine.state.docker_resources@ + engine.state.native_resources@;
            &&& r.runners@.len() == runners.len()
            &&& 0 <= i < runners.len() ==> {
                let asked = (
                    runners[i].mem_bytes,
                    runners[i].mem_limit,
                    engine.warn_ratio,
                    engine.crit_ratio,
                );
                let word = r.runners@[i].mem_level@;
                &&& r.runners@[i].name@ == runners[i].name@
                &&& r.runners@[i].cpu_pct == runners[i].cpu_pct
                &&& r.runners@[i].mem_bytes == runners[i].mem_bytes
                &&& r.runners@[i].mem_limit == runners[i].mem_limit
                &&& runners[i].kind == SourceKind::Docker ==> r.runners@[i].kind@ == "docker"@
                &&& runners[i].kind == SourceKind::Native ==> r.runners@[i].kind@ == "native"@
                &&& {
                    ||| word == "normal"@ && call_ensures(level_of, asked, MemLevel::Normal)
                    ||| word == "warn"@ && call_ensures(level_of, asked, MemLevel::Warn)
                    ||| word == "critical"@ && call_ensures(level_of, asked, MemLevel::Critical)
                }
            }
            &&& r.hosted@.len() == engine.state.hosted@.len()
            &&& r.vercel@.len() == engine.state.deployments@.len()
            &&& r.slice.docker_mem == docker_total(runners)
            &&& r.slice.cap == engine.slice_cap_bytes
            &&& r.slice.hist@ == engine.state.history@.slice
            &&& {
                let asked = (
                    r.slice.docker_mem,
                    engine.slice_cap_bytes,
                    engine.warn_ratio,
                    engine.crit_ratio,
                );
                let word = r.slice.mem_level@;
                ||| word == "normal"@ && call_ensures(level_of, asked, MemLevel::Normal)
                ||| word == "warn"@ && call_ensures(level_of, asked, MemLevel::Warn)
                ||| word == "critical"@ && call_ensures(level_of, asked, MemLevel::Critical)
            }
            &&& now <= 0 ==> r.generated_at == 0
            &&& 0 <= now ==> r.generated_at * 1_000_000_000 <= now < (r.generated_at + 1)
                * 1_000_000_000
        }),
{
    let state = engine.state@;
    let runners = engine.state.docker_resources@ + engine.state.native_resources@;
    assert(state.runners() == runners);
    lemma_joined_total(
        runners,
        state.jobs,
        state.history,
        engine.warn_ratio,
        engine.crit_ratio,
        level_of,
    );
    law_elapsed_counts_whole_seconds(0, now);
    assert(r@.runners.len() == r.runners@.len());
    assert(r@.hosted.len() == r.hosted@.len());
    assert(r@.vercel.len() == r.vercel@.len());
    if 0 <= i < runners.len() {
        assert(r@.runners[i] == r.runners@[i]@);
        assert(runners[i] == state.runners()[i]);
    }
}

/// A key leaves the monitor when it is pressed, not repeated or released, and is `q`,
/// escape, or `c` with control. A modifier makes no difference to `q` and escape, and
/// a key that the monitor has no use for never leaves it, with control or without.
pub proof fn law_quit_keys(key: KeyEvent)
    ensures
        quits(key) ==> key.kind == KeyEventKind::Press,
        quits(key) ==> key.code == KeyCode::Char('q') || key.code == KeyCode::Esc || (key.code
            == KeyCode::Char('c') && control_held(key.modifiers)),
        key.kind == KeyEventKind::Press && key.code == KeyCode::Char('q') ==> quits(key),
        key.kind == KeyEventKind::Press && key.code == KeyCode::Esc ==> quits(key),
        key.kind == KeyEventKind::Press && key.code == KeyCode::Char('c') ==> (quits(key)
            <==> control_held(key.modifiers)),
        key.code == KeyCode::Other ==> !quits(key),
        key.code matches KeyCode::Char(c) ==> c != 'q' && c != 'c' ==> !quits(key),
        key.kind != KeyEventKind::Press ==> !quits(key),
        loop_action(LoopEvent::Key(key)) == LoopAction::Quit <==> quits(key),
{
}

/// Control is the second of the modifier bits: it is held when that bit is set,
/// whatever the other bits say, and not held without any modifier.
pub proof fn law_control_is_the_second_bit(others: u8)
    ensures
        control_held(others | 0b10u8),
        !control_held(others & 0b1111_1101u8),
{
    assert((others | 0b10u8) & 0b10u8 == 0b10u8) by (bit_vector);
    assert((others & 0b1111_1101u8) & 0b10u8 != 0b10u8) by (bit_vector);
}

/// What is no key never leaves the monitor, but for the end of the input; and only the
/// engine's own end makes the loop stop waiting for it.
pub proof fn law_other_events_only_redraw(alive: bool, event: LoopEvent)
    ensures
        event is OtherInput || event is InputError || event is Timer || event is Engine
            ==> loop_action(event) == LoopAction::Draw,
        event is InputClosed ==> loop_action(event) == LoopAction::Quit,
        event is Key || event is OtherInput || event is InputError || event is InputClosed || event
            is Timer ==> engine_alive_after(alive, event) == alive,
        event matches LoopEvent::Engine(outcome) ==> {
            &&& outcome == RecvOutcome::Closed ==> !engine_alive_after(alive, event)
            &&& outcome != RecvOutcome::Closed ==> engine_alive_after(alive, event) == alive
        },
{
}

/// The terminal shows the tick's first banner, and none where there is none.
pub proof fn law_terminal_shows_the_first_banner<'a>(tick: Tick<'a>)
    ensures
        status_of(tick@) is Some <==> tick.errors@.len() > 0,
        tick.errors@.len() > 0 ==> status_of(tick@) == Some(tick.errors@[0]@),
{
    assert(tick@.errors.len() == tick.errors@.len());
    if tick.errors@.len() > 0 {
        assert(tick@.errors[0] == tick.errors@[0]@);
    }
}

/// Data that was applied is dated now; anything else leaves the date as it was.
pub proof fn law_only_applied_data_is_new(last: int, outcome: RecvOutcome, now: int)
    ensures
        outcome == RecvOutcome::Applied ==> applied_at_after(last, outcome, now) == now,
        outcome == RecvOutcome::ErrorOnly ==> applied_at_after(last, outcome, now) == last,
        outcome == RecvOutcome::Closed ==> applied_at_after(last, outcome, now) == last,
{
}

/// Digits and signs are no white space; blanks, tabs and line ends are.
pub proof fn law_white_space_is_no_digit(c: char)
    ensures
        '0' <= c <= '9' || c == '+' || c == '-' ==> !is_white_space(c),
        c == ' ' || c == '\t' || c == '\n' || c == '\r' ==> is_white_space(c),
{
}

/// Trimming takes off the white space before and behind, all of it, and nothing else.
pub proof fn law_trimming_takes_the_white_space_around(
    lead: Seq<char>,
    core: Seq<char>,
    tail: Seq<char>,
)
    requires
        forall|i: int| 0 <= i < lead.len() ==> is_white_space(#[trigger] lead[i]),
        forall|i: int| 0 <= i < tail.len() ==> is_white_space(#[trigger] tail[i]),
        core.len() > 0 ==> !is_white_space(core[0]) && !is_white_space(core.last()),
    ensures
        trimmed(lead + core + tail) == core,
    decreases lead.len() + tail.len(),
{
    let whole = lead + core + tail;
    if core.len() == 0 {
        assert forall|i: int| 0 <= i < whole.len() implies is_white_space(#[trigger] whole[i]) by {
            if i < lead.len() {
                assert(whole[i] == lead[i]);
            } else {
                assert(whole[i] == tail[i - lead.len()]);
            }
        }
        lemma_blank_trims_away(whole);
        assert(core =~= trimmed(whole));
    } else {
        lemma_start_trims_away(lead, core + tail);
        assert(whole =~= lead + (core + tail));
        lemma_end_trims_away(core, tail);
    }
}

proof fn lemma_blank_trims_away(s: Seq<char>)
    requires
        forall|i: int| 0 <= i < s.len() ==> is_white_space(#[trigger] s[i]),
    ensures
        trimmed(s).len() == 0,
    decreases s.len(),
{
    if s.len() > 0 {
        assert(is_white_space(s[0]));
        lemma_blank_trims_away(s.drop_first());
    }
}

proof fn lemma_start_trims_away(lead: Seq<char>, rest: Seq<char>)
    requires
        forall|i: int| 0 <= i < lead.len() ==> is_white_space(#[trigger] lead[i]),
        rest.len() > 0,
        !is_white_space(rest[0]),
    ensures
        trimmed_start(lead + rest) == rest,
    decreases lead.len(),
{
    let whole = lead + rest;
    if lead.len() == 0 {
        assert(whole =~= rest);
    } else {
        assert(is_white_space(lead[0]));
        assert(whole[0] == lead[0]);
        lemma_start_trims_away(lead.drop_first(), rest);
        assert(whole.drop_first() =~= lead.drop_first() + rest);
    }
}

proof fn lemma_end_trims_away(rest: Seq<char>, tail: Seq<char>)
    requires
        forall|i: int| 0 <= i < tail.len() ==> is_white_space(#[trigger] tail[i]),
        rest.len() > 0,
        !is_white_space(rest.last()),
    ensures
        trimmed_end(rest + tail) == rest,
    decreases tail.len(),
{
    let whole = rest + tail;
    if tail.len() == 0 {
        assert(whole =~= rest);
    } else {
        assert(is_white_space(tail[tail.len() - 1]));
        assert(whole.last() == tail.last());
        lemma_end_trims_away(rest, tail.drop_last());
        assert(whole.drop_last() =~= rest + tail.drop_last());
    }
}

/// Digits write a number as usual: one more digit at the end makes ten times the
/// number and that digit, and a zero in front makes no difference.
pub proof fn law_digits_write_decimal_numbers(s: Seq<char>, c: char)
    requires
        '0' <= c <= '9',
    ensures
        digits_value(Seq::empty()) == 0,
        digits_value(s.push(c)) == 10 * digits_value(s) + (c as int - '0' as int),
        digits_value(seq!['0'] + s) == digits_value(s),
    decreases s.len(),
{
    reveal_with_fuel(digits_value, 2);
    assert(s.push(c).drop_last() =~= s);
    if s.len() == 0 {
        assert(seq!['0'] + s =~= seq!['0']);
        assert(seq!['0'].drop_last() =~= Seq::empty());
    } else {
        law_digits_write_decimal_numbers(s.drop_last(), c);
        assert((seq!['0'] + s).drop_last() =~= seq!['0'] + s.drop_last());
    }
}

/// The port that a number asks for, with or without a plus sign, and with white space
/// around it or not: that number where it is from 1 to 65535, and 8787 where it is not.
pub proof fn law_port_is_the_number_written(
    lead: Seq<char>,
    plus: bool,
    digits: Seq<char>,
    tail: Seq<char>,
)
    requires
        forall|i: int| 0 <= i < lead.len() ==> is_white_space(#[trigger] lead[i]),
        forall|i: int| 0 <= i < tail.len() ==> is_white_space(#[trigger] tail[i]),
        digits.len() > 0,
        forall|i: int| 0 <= i < digits.len() ==> '0' <= #[trigger] digits[i] <= '9',
    ensures
        ({
            let sign = if plus {
                seq!['+']
            } else {
                Seq::empty()
            };
            port_of(Some(lead + (sign + digits) + tail)) == (if 1 <= digits_value(digits) <= 65535 {
                digits_value(digits)
            } else {
                8787
            })
        }),
{
    let sign = if plus {
        seq!['+']
    } else {
        Seq::empty()
    };
    let core = sign + digits;
    assert('0' <= digits[0] <= '9');
    assert('0' <= digits[digits.len() - 1] <= '9');
    assert(core.last() == digits[digits.len() - 1]);
    law_white_space_is_no_digit(core[0]);
    law_white_space_is_no_digit(core.last());
    law_trimming_takes_the_white_space_around(lead, core, tail);
    if plus {
        assert(core.drop_first() =~= digits);
    } else {
        assert(core =~= digits);
    }
    assert(unsigned_part(core) =~= digits);
}

/// What is not written as a number asks for no port: then the port is 8787, as it is
/// where nothing is configured and where what is configured is blank.
pub proof fn law_port_is_the_default_otherwise(
    lead: Seq<char>,
    core: Seq<char>,
    tail: Seq<char>,
    k: int,
)
    requires
        forall|i: int| 0 <= i < lead.len() ==> is_white_space(#[trigger] lead[i]),
        forall|i: int| 0 <= i < tail.len() ==> is_white_space(#[trigger] tail[i]),
        core.len() > 0 ==> !is_white_space(core[0]) && !is_white_space(core.last()),
        core.len() == 0 || core == seq!['+'] || (0 <= k < core.len() && !('0' <= core[k] <= '9')
            && (k == 0 ==> core[0] != '+')),
    ensures
        port_of(None) == 8787,
        port_of(Some(lead + core + tail)) == 8787,
{
    law_trimming_takes_the_white_space_around(lead, core, tail);
    let digits = unsigned_part(core);
    if core.len() > 0 && !(core == seq!['+']) {
        if core[0] == '+' {
            assert(digits[k - 1] == core[k]);
        } else {
            assert(digits[k] == core[k]);
        }
    }
}

} // verus!
