//! What the monitor promises as a whole: facts that tie several operations, or
//! whole runs of them, together.

use crate::app::{
    banner, event_outcome, received, records_slice, state_after, text, tick_of, Engine, PollEvent,
    RecvOutcome, StateView, TickView,
};
use crate::history::{
    extended, law_history_stays_bounded, law_record_adds_one_reading,
    law_record_extends_the_polled, law_record_keeps_the_others, named, recent, samples_of,
    HistoryView, Sample,
};
use crate::jobs::{JobsUpdate, RunnerKeyView};
use crate::model::{
    job_of, joined, joined_row, level_at, load_of, Bits64, DeployStatus, HostedStatus, JobInfo,
    Load, MemLevel, RunnerResource, SourceKind,
};
use crate::resource::{mem_total, ResourceUpdate};
use crate::snapshot::{
    deploy_word, hosted_snap, hosted_word, kind_word, load_word, mem_level_word, runner_snap,
    snapshot_at, snapshot_of, vercel_snap, SnapshotView,
};
use crate::tui::{engine_alive_after, loop_action, quits, status_of, LoopAction, LoopEvent};
use crate::vercel::VercelUpdate;
use crate::web::{applied_at_after, portal_of};
use vstd::prelude::*;

verus! {

/// A failed docker poll, and so any run of them, changes nothing but the docker
/// banner: the last good data stays, of both sources, and no series is touched.
pub proof fn law_docker_errors_keep_last_known_good(
    state: StateView,
    failures: Seq<ResourceUpdate>,
)
    requires
        forall|i: int|
            0 <= i < failures.len() ==> (#[trigger] failures[i]).source == SourceKind::Docker
                && failures[i].error is Some,
    ensures
        after_polls(state, failures) == (StateView {
            docker_err: after_polls(state, failures).docker_err,
            ..state
        }),
        failures.len() > 0 ==> after_polls(state, failures).docker_err == text(
            failures.last().error,
        ),
    decreases failures.len(),
{
    if failures.len() > 0 {
        law_docker_errors_keep_last_known_good(state, failures.drop_last());
    }
}

/// The state after a run of resource polls.
pub open spec fn after_polls(state: StateView, polls: Seq<ResourceUpdate>) -> StateView
    decreases polls.len(),
{
    if polls.len() == 0 {
        state
    } else {
        after_polls(state, polls.drop_last()).after_resources(polls.last())
    }
}

/// A poll of one source leaves alone the other source's runners and banner, the
/// series of every runner that only the other source has, and everything that is
/// not about resources.
pub proof fn law_sources_are_independent(
    state: StateView,
    update: ResourceUpdate,
    name: Seq<char>,
)
    ensures
        ({
            let after = state.after_resources(update);
            &&& update.source == SourceKind::Docker ==> {
                &&& after.native_resources == state.native_resources
                &&& after.native_err == state.native_err
                &&& named(state.native_resources, name) && !named(update.resources@, name)
                    ==> after.history.of(name) == state.history.of(name)
            }
            &&& update.source == SourceKind::Native ==> {
                &&& after.docker_resources == state.docker_resources
                &&& after.docker_err == state.docker_err
                &&& after.matched_seen == state.matched_seen
                &&& after.unmatched_seen == state.unmatched_seen
                &&& named(state.docker_resources, name) && !named(update.resources@, name)
                    ==> after.history.of(name) == state.history.of(name)
            }
            &&& after.jobs == state.jobs
            &&& after.jobs_err == state.jobs_err
            &&& after.hosted == state.hosted
            &&& after.deployments == state.deployments
        }),
{
    let known = state.with_resources(update).runners();
    law_record_keeps_the_others(state.history, update.resources@, known, name);
    if update.source == SourceKind::Docker {
        lemma_named_in_union(update.resources@, state.native_resources, name);
    } else {
        lemma_named_in_union(state.docker_resources, update.resources@, name);
    }
}

proof fn lemma_named_in_union(a: Seq<RunnerResource>, b: Seq<RunnerResource>, name: Seq<char>)
    ensures
        named(a + b, name) <==> named(a, name) || named(b, name),
{
    let all = a + b;
    if named(a, name) {
        let i = choose|i: int| 0 <= i < a.len() && (#[trigger] a[i]).name@ == name;
        assert(all[i].name@ == name);
    }
    if named(b, name) {
        let i = choose|i: int| 0 <= i < b.len() && (#[trigger] b[i]).name@ == name;
        assert(all[a.len() + i].name@ == name);
    }
    if named(all, name) {
        let i = choose|i: int| 0 <= i < all.len() && (#[trigger] all[i]).name@ == name;
        if i < a.len() {
            assert(a[i].name@ == name);
        } else {
            assert(b[i - a.len()].name@ == name);
        }
    }
}

/// A native poll is applied whatever its banner says: one runner that could not be
/// read never freezes the others.
pub proof fn law_native_polls_always_apply(state: StateView, update: ResourceUpdate)
    requires
        update.source == SourceKind::Native,
    ensures
        event_outcome(PollEvent::Resources(Some(update))) == RecvOutcome::Applied,
        state.after_resources(update).native_resources == update.resources@,
        state.after_resources(update).native_err == text(update.error),
        state.after_resources(update).history == state.history.recorded(
            update.resources@,
            state.docker_resources + update.resources@,
        ),
{
}

/// An applied poll adds one reading for each runner it read, at the end of the
/// runner's series.
pub proof fn law_applied_poll_samples_each_runner_once(
    state: StateView,
    update: ResourceUpdate,
    i: int,
)
    requires
        update.applies(),
        0 <= i < update.resources@.len(),
        forall|j: int|
            0 <= j < update.resources@.len() && j != i ==> (#[trigger] update.resources@[j]).name@
                != update.resources@[i].name@,
    ensures
        ({
            let runner = update.resources@[i];
            state.after_resources(update).history.of(runner.name@) == recent(
                state.history.of(runner.name@).push(runner.sample()),
            )
        }),
{
    let polled = update.resources@;
    let name = polled[i].name@;
    assert(named(polled, name));
    if update.source == SourceKind::Docker {
        lemma_named_in_union(polled, state.native_resources, name);
    } else {
        lemma_named_in_union(state.docker_resources, polled, name);
    }
    law_record_adds_one_reading(
        state.history,
        polled,
        state.with_resources(update).runners(),
        i,
    );
}

/// After an applied poll of each source, in either order, every runner of both has
/// a series: neither poll prunes the other's.
pub proof fn law_polls_of_both_sources_keep_all_series(
    state: StateView,
    docker: ResourceUpdate,
    native: ResourceUpdate,
    name: Seq<char>,
)
    requires
        docker.source == SourceKind::Docker,
        docker.error is None,
        native.source == SourceKind::Native,
        named(docker.resources@, name) || named(native.resources@, name),
    ensures
        state.after_resources(docker).after_resources(native).history.series.contains_key(name),
        state.after_resources(native).after_resources(docker).history.series.contains_key(name),
{
    lemma_named_in_union(docker.resources@, native.resources@, name);
    lemma_named_in_union(docker.resources@, state.native_resources, name);
    lemma_named_in_union(state.docker_resources, native.resources@, name);
}

/// The readings of `name` in a run of polls, those that were applied.
pub open spec fn readings(polls: Seq<ResourceUpdate>, name: Seq<char>) -> Seq<Sample>
    decreases polls.len(),
{
    if polls.len() == 0 {
        Seq::empty()
    } else {
        let before = readings(polls.drop_last(), name);
        if polls.last().applies() {
            before + samples_of(polls.last().resources@, name)
        } else {
            before
        }
    }
}

/// The window holds: as long as a runner is known, its series is the newest of its
/// own readings, whatever polls came in between, of either source, failed or not.
pub proof fn law_series_is_the_newest_readings(
    state: StateView,
    polls: Seq<ResourceUpdate>,
    name: Seq<char>,
)
    requires
        state.history.bounded(),
        forall|k: int|
            0 < k <= polls.len() ==> named(
                (#[trigger] after_polls(state, polls.take(k))).runners(),
                name,
            ),
    ensures
        after_polls(state, polls).history.of(name) == recent(
            state.history.of(name) + readings(polls, name),
        ),
    decreases polls.len(),
{
    let old_series = state.history.of(name);
    if polls.len() == 0 {
        assert(old_series + readings(polls, name) =~= old_series);
    } else {
        let rest = polls.drop_last();
        assert forall|k: int| 0 < k <= rest.len() implies named(
            (#[trigger] after_polls(state, rest.take(k))).runners(),
            name,
        ) by {
            assert(rest.take(k) =~= polls.take(k));
        }
        law_series_is_the_newest_readings(state, rest, name);
        assert(polls.take(polls.len() as int) =~= polls);
        let before = after_polls(state, rest);
        let update = polls.last();
        if update.applies() {
            let added = samples_of(update.resources@, name);
            let known = before.with_resources(update).runners();
            assert(before.after_resources(update).runners() =~= known);
            assert(named(known, name));
            let whole = old_series + readings(rest, name);
            assert(old_series + readings(polls, name) =~= whole + added);
            law_polled_series(before, update, name);
            assert(recent(recent(whole) + added) =~= recent(whole + added));
            if added.len() == 0 {
                assert(whole + added =~= whole);
            }
        }
    }
}

/// What an applied poll makes of a known runner's series.
pub proof fn law_polled_series(state: StateView, update: ResourceUpdate, name: Seq<char>)
    requires
        update.applies(),
        named(state.after_resources(update).runners(), name),
    ensures
        state.after_resources(update).history.of(name) == extended(
            state.history.of(name),
            samples_of(update.resources@, name),
        ),
{
    let known = state.with_resources(update).runners();
    assert(state.after_resources(update).runners() =~= known);
    law_record_extends_the_polled(state.history, update.resources@, known, name);
}

/// The slice series follows the docker slice alone. A docker poll adds its total,
/// a zero where nothing matches the prefix; a failed poll, a native poll, and a poll
/// of containers that have not reported yet leave the series as it was.
pub proof fn law_slice_series_follows_docker(state: StateView, update: ResourceUpdate)
    requires
        update.fits(),
    ensures
        ({
            let after = state.after_resources(update).history.slice;
            &&& records_slice(update) ==> after == recent(
                state.history.slice.push(mem_total(update.resources@) as u64),
            )
            &&& !records_slice(update) ==> after == state.history.slice
            &&& update.source == SourceKind::Native ==> after == state.history.slice
            &&& update.error is Some ==> after == state.history.slice
            &&& update.resources@.len() == 0 && update.matched_seen > 0 ==> after
                == state.history.slice
            &&& update.source == SourceKind::Docker && update.error is None
                && update.resources@.len() == 0 && update.matched_seen == 0 ==> after == recent(
                state.history.slice.push(0),
            )
        }),
{
}

/// No event makes a series longer than it may be.
pub proof fn law_history_is_always_bounded(state: StateView, event: PollEvent)
    requires
        state.history.bounded(),
    ensures
        state_after(state, event).history.bounded(),
        StateView::empty().history.bounded(),
{
    if let PollEvent::Resources(Some(update)) = event {
        let known = state.with_resources(update).runners();
        let total = mem_total(update.resources@) as u64;
        law_history_stays_bounded(state.history, update.resources@, known, total);
        law_history_stays_bounded(
            state.history.recorded(update.resources@, known),
            update.resources@,
            known,
            total,
        );
    }
}

/// A jobs poll, and a deployments poll, leave nothing of the poll before them.
pub proof fn law_jobs_and_deployments_are_replaced(
    state: StateView,
    jobs: JobsUpdate,
    later_jobs: JobsUpdate,
    vercel: VercelUpdate,
    later_vercel: VercelUpdate,
)
    ensures
        state.after_jobs(jobs).after_jobs(later_jobs) == state.after_jobs(later_jobs),
        state.after_vercel(vercel).after_vercel(later_vercel) == state.after_vercel(later_vercel),
{
}

/// Banners come in the order docker, native, jobs, and only from failing sources;
/// the terminal shows the first.
pub proof fn law_banner_precedence<L: Fn(u64, u64, Bits64, Bits64) -> MemLevel>(
    state: StateView,
    warn: Bits64,
    crit: Bits64,
    level_of: L,
)
    ensures
        status_of(tick_of(state, warn, crit, level_of)) == (if state.docker_err is Some {
            state.docker_err
        } else if state.native_err is Some {
            state.native_err
        } else {
            state.jobs_err
        }),
        tick_of(state, warn, crit, level_of).errors.len() <= 3,
        state.docker_err is Some && state.native_err is Some && state.jobs_err is Some
            ==> tick_of(state, warn, crit, level_of).errors == seq![state.docker_err->0, state.native_err->0, state.jobs_err->0],
        state.docker_err is None && state.native_err is Some && state.jobs_err is Some
            ==> tick_of(state, warn, crit, level_of).errors == seq![state.native_err->0, state.jobs_err->0],
        state.docker_err is None && state.native_err is None && state.jobs_err is None
            ==> tick_of(state, warn, crit, level_of).errors == Seq::<Seq<char>>::empty(),
{
}

/// A tick is a projection and derives nothing of its own: its rows are the join of
/// the runners of both sources, row by row and in order.
pub proof fn law_tick_rows_are_the_join<L: Fn(u64, u64, Bits64, Bits64) -> MemLevel>(
    state: StateView,
    warn: Bits64,
    crit: Bits64,
    level_of: L,
    i: int,
)
    requires
        0 <= i < state.runners().len(),
    ensures
        ({
            let rows = tick_of(state, warn, crit, level_of).rows;
            let runner = state.runners()[i];
            &&& rows == joined(
                state.docker_resources + state.native_resources,
                state.jobs,
                state.history,
                warn,
                crit,
                level_of,
            )
            &&& rows.len() == state.docker_resources.len() + state.native_resources.len()
            &&& rows[i] == joined_row(
                runner,
                state.jobs,
                state.history,
                level_at(level_of, runner.mem_bytes, runner.mem_limit, warn, crit),
            )
        }),
{
}

/// After a failed docker poll the tick is what it was, but for its banners: the
/// docker error leads, and the native and jobs banners follow it as before.
pub proof fn law_docker_error_keeps_the_tick<L: Fn(u64, u64, Bits64, Bits64) -> MemLevel>(
    before: Engine,
    update: ResourceUpdate,
    outcome: RecvOutcome,
    after: Engine,
    level_of: L,
)
    requires
        update.source == SourceKind::Docker,
        update.error is Some,
        received(before, PollEvent::Resources(Some(update)), outcome, after),
    ensures
        outcome == RecvOutcome::ErrorOnly,
        ({
            let first = tick_of(before.state@, before.warn_ratio, before.crit_ratio, level_of);
            let second = tick_of(after.state@, after.warn_ratio, after.crit_ratio, level_of);
            let errors = seq![update.error->0@] + banner(before.state@.native_err) + banner(
                before.state@.jobs_err,
            );
            second == (TickView { errors, ..first })
        }),
{
    assert(after.state@.runners() == before.state@.runners());
}

/// The portal and the terminal cannot drift apart: of one tick, the portal lists
/// all banners and the terminal shows the first of that list, and the portal has
/// one entry for each row, job and deployment that the terminal has, in that order.
pub proof fn law_surfaces_agree(tick: TickView, cap: u64, level: MemLevel, now: int)
    ensures
        ({
            let snapshot = snapshot_of(tick, cap, level, now);
            &&& snapshot.errors == tick.errors
            &&& status_of(tick) is Some <==> snapshot.errors.len() > 0
            &&& status_of(tick) matches Some(status) ==> snapshot.errors[0] == status
            &&& snapshot.runners.len() == tick.rows.len()
            &&& forall|i: int|
                0 <= i < tick.rows.len() ==> #[trigger] snapshot.runners[i] == runner_snap(
                    tick.rows[i],
                    now,
                )
            &&& snapshot.hosted.len() == tick.hosted.len()
            &&& forall|i: int|
                0 <= i < tick.hosted.len() ==> #[trigger] snapshot.hosted[i] == hosted_snap(
                    tick.hosted[i],
                    now,
                )
            &&& snapshot.vercel.len() == tick.deployments.len()
            &&& forall|i: int|
                0 <= i < tick.deployments.len() ==> #[trigger] snapshot.vercel[i] == vercel_snap(
                    tick.deployments[i],
                    now,
                )
            &&& snapshot.slice.hist == tick.slice_mem_hist
        }),
{
}

/// A word of the snapshot stands for one value only: no two sources, loads, levels
/// or statuses share a word.
pub proof fn law_words_tell_values_apart(
    kinds: (SourceKind, SourceKind),
    loads: (Load, Load),
    levels: (MemLevel, MemLevel),
    hosted: (HostedStatus, HostedStatus),
    deploys: (DeployStatus, DeployStatus),
)
    ensures
        kind_word(kinds.0) == kind_word(kinds.1) ==> kinds.0 == kinds.1,
        load_word(loads.0) == load_word(loads.1) ==> loads.0 == loads.1,
        mem_level_word(levels.0) == mem_level_word(levels.1) ==> levels.0 == levels.1,
        hosted_word(hosted.0) == hosted_word(hosted.1) ==> hosted.0 == hosted.1,
        deploy_word(deploys.0) == deploy_word(deploys.1) ==> deploys.0 == deploys.1,
{
    reveal_strlit("in_progress");
    reveal_strlit("queued");
    reveal_strlit("building");
    assert("in_progress"@[0] != "queued"@[0]);
    assert("building"@[0] != "queued"@[0]);
    reveal_strlit("docker");
    reveal_strlit("native");
    reveal_strlit("idle");
    reveal_strlit("busy");
    reveal_strlit("near_cap");
    reveal_strlit("normal");
    reveal_strlit("warn");
    reveal_strlit("critical");
    assert("docker"@[0] != "native"@[0]);
    assert("idle"@[0] != "busy"@[0]);
    assert("idle"@[0] != "near_cap"@[0]);
    assert("busy"@[0] != "near_cap"@[0]);
    assert("normal"@[0] != "warn"@[0]);
    assert("normal"@[0] != "critical"@[0]);
    assert("warn"@[0] != "critical"@[0]);
}

/// The two color channels stay apart: short of the critical level, the row channel
/// says whether there is a job, whatever the memory; at the critical level, and
/// only there, it says that the cap is near; and the memory channel always says
/// the level.
pub proof fn law_channels_stay_separate(
    runner: RunnerResource,
    jobs: Map<RunnerKeyView, Option<JobInfo>>,
    history: HistoryView,
    level: MemLevel,
    now: int,
)
    ensures
        ({
            let snap = runner_snap(joined_row(runner, jobs, history, level), now);
            &&& snap.mem_level == mem_level_word(level)
            &&& snap.load == load_word(Load::NearCap) <==> level == MemLevel::Critical
            &&& snap.load == load_word(Load::Busy) <==> level != MemLevel::Critical && job_of(
                runner.key,
                jobs,
            ) is Some
            &&& snap.job is Some <==> job_of(runner.key, jobs) is Some
        }),
{
    let load = load_of(level, job_of(runner.key, jobs) is Some);
    law_words_tell_values_apart(
        (SourceKind::Docker, SourceKind::Docker),
        (load, Load::NearCap),
        (level, level),
        (HostedStatus::Queued, HostedStatus::Queued),
        (DeployStatus::Queued, DeployStatus::Queued),
    );
    law_words_tell_values_apart(
        (SourceKind::Docker, SourceKind::Docker),
        (load, Load::Busy),
        (level, level),
        (HostedStatus::Queued, HostedStatus::Queued),
        (DeployStatus::Queued, DeployStatus::Queued),
    );
}

/// A snapshot taken as of the same time makes no clock jump: `generated_at` is the
/// same, and so is the time shown for every job and deployment that is in both.
pub proof fn law_same_time_same_clocks(
    a: TickView,
    b: TickView,
    cap: u64,
    levels: (MemLevel, MemLevel),
    now: int,
    i: int,
    j: int,
)
    ensures
        ({
            let first = snapshot_of(a, cap, levels.0, now);
            let second = snapshot_of(b, cap, levels.1, now);
            &&& first.generated_at == second.generated_at
            &&& 0 <= i < a.rows.len() && 0 <= j < b.rows.len() && a.rows[i].job == b.rows[j].job
                ==> first.runners[i].job == second.runners[j].job
            &&& 0 <= i < a.hosted.len() && 0 <= j < b.hosted.len() && a.hosted[i] == b.hosted[j]
                ==> first.hosted[i] == second.hosted[j]
            &&& 0 <= i < a.deployments.len() && 0 <= j < b.deployments.len() && a.deployments[i]
                == b.deployments[j] ==> first.vercel[i] == second.vercel[j]
        }),
{
}

/// Snapshots as of one time of ticks that differ at most in their banners differ at
/// most in theirs: the clock they are given is the only one they read.
pub proof fn law_snapshots_differ_in_banners_only<L: Fn(u64, u64, Bits64, Bits64) -> MemLevel>(
    a: TickView,
    b: TickView,
    cap: u64,
    warn: Bits64,
    crit: Bits64,
    level_of: L,
    now: int,
)
    requires
        b.rows == a.rows,
        b.slice_mem_hist == a.slice_mem_hist,
        b.hosted == a.hosted,
        b.deployments == a.deployments,
    ensures
        snapshot_at(b, cap, warn, crit, level_of, now) == (SnapshotView {
            errors: b.errors,
            ..snapshot_at(a, cap, warn, crit, level_of, now)
        }),
{
}

/// A report that only raised a banner renews the portal's snapshot in its banners
/// and in nothing else: the data keeps its date, and no elapsed time moves. Of a
/// failed jobs poll this holds where the poller sends again what it had sent before.
pub proof fn law_error_only_refresh_changes_banners_only<
    L: Fn(u64, u64, Bits64, Bits64) -> MemLevel,
>(
    before: Engine,
    event: PollEvent,
    outcome: RecvOutcome,
    after: Engine,
    level_of: L,
    last: int,
    now: int,
)
    requires
        received(before, event, outcome, after),
        outcome == RecvOutcome::ErrorOnly,
        event matches PollEvent::Jobs(Some(update)) ==> update.jobs@ == before.state@.jobs
            && update.hosted@ == before.state@.hosted,
    ensures
        portal_of(after, level_of, applied_at_after(last, outcome, now)) == (SnapshotView {
            errors: after.state@.banners(),
            ..portal_of(before, level_of, last)
        }),
{
    law_error_only_changes_no_data(before.state@, event);
    assert(after.state@.runners() == before.state@.runners());
    law_snapshots_differ_in_banners_only(
        tick_of(before.state@, before.warn_ratio, before.crit_ratio, level_of),
        tick_of(after.state@, before.warn_ratio, before.crit_ratio, level_of),
        before.slice_cap_bytes,
        before.warn_ratio,
        before.crit_ratio,
        level_of,
        last,
    );
}

/// `Closed` is answered when, and only when, no channel is open, and from then on
/// nothing else can happen.
pub proof fn law_closed_means_no_channel(
    before: Engine,
    event: PollEvent,
    outcome: RecvOutcome,
    after: Engine,
    later: PollEvent,
)
    requires
        before.can_receive(event),
        received(before, event, outcome, after),
    ensures
        outcome == RecvOutcome::Closed <==> !before.any_alive(),
        outcome == RecvOutcome::Closed ==> after.state@ == before.state@ && !after.any_alive() && (
        after.can_receive(later) ==> later == PollEvent::NoneArmed),
{
}

/// A closing channel closes itself and no other, changes no data, and is never
/// waited for again; a report closes nothing. A closing resources or jobs channel
/// adds one banner where its place is free.
pub proof fn law_a_closed_channel_stays_closed(
    before: Engine,
    event: PollEvent,
    outcome: RecvOutcome,
    after: Engine,
)
    requires
        before.can_receive(event),
        received(before, event, outcome, after),
    ensures
        after.res_alive ==> before.res_alive,
        after.jobs_alive ==> before.jobs_alive,
        after.vercel_alive ==> before.vercel_alive,
        ({
            let closing = event == PollEvent::Resources(None) || event == PollEvent::Jobs(None)
                || event == PollEvent::Vercel(None);
            &&& closing ==> {
                &&& after.open_channels() == before.open_channels() - 1
                &&& outcome == RecvOutcome::ErrorOnly
                &&& after.state@ == (StateView {
                    docker_err: after.state@.docker_err,
                    jobs_err: after.state@.jobs_err,
                    ..before.state@
                })
            }
            &&& event == PollEvent::Resources(None) ==> {
                &&& after.state@.docker_err is Some
                &&& after.state@.jobs_err == before.state@.jobs_err
                &&& before.state@.docker_err is Some ==> after.state@ == before.state@
                &&& before.state@.docker_err is None ==> after.state@.banners().len()
                    == before.state@.banners().len() + 1
            }
            &&& event == PollEvent::Jobs(None) ==> {
                &&& after.state@.jobs_err is Some
                &&& after.state@.docker_err == before.state@.docker_err
                &&& before.state@.jobs_err is Some ==> after.state@ == before.state@
                &&& before.state@.jobs_err is None ==> after.state@.banners().len()
                    == before.state@.banners().len() + 1
            }
            &&& event == PollEvent::Vercel(None) ==> after.state@ == before.state@
            &&& !closing ==> after.open_channels() == before.open_channels()
        }),
{
}

/// `ErrorOnly` means that no data has changed, banners aside. Of a failed jobs poll
/// this holds where the poller sends again what it had sent before.
pub proof fn law_error_only_changes_no_data(state: StateView, event: PollEvent)
    requires
        event_outcome(event) == RecvOutcome::ErrorOnly,
        event matches PollEvent::Jobs(Some(update)) ==> update.jobs@ == state.jobs
            && update.hosted@ == state.hosted,
    ensures
        state_after(state, event) == (StateView {
            docker_err: state_after(state, event).docker_err,
            jobs_err: state_after(state, event).jobs_err,
            ..state
        }),
{
}

/// Whether the engine is waited for after a run of events.
pub open spec fn engine_alive_after_all(events: Seq<LoopEvent>) -> bool
    decreases events.len(),
{
    if events.len() == 0 {
        true
    } else {
        engine_alive_after(engine_alive_after_all(events.drop_last()), events.last())
    }
}

/// The terminal loop waits for the engine until it hears that the engine is closed,
/// and never again after that.
pub proof fn law_closed_engine_is_never_rearmed(events: Seq<LoopEvent>)
    ensures
        engine_alive_after_all(events) <==> !events.contains(
            LoopEvent::Engine(RecvOutcome::Closed),
        ),
    decreases events.len(),
{
    let closed = LoopEvent::Engine(RecvOutcome::Closed);
    if events.len() > 0 {
        let rest = events.drop_last();
        law_closed_engine_is_never_rearmed(rest);
        if rest.contains(closed) {
            let i = choose|i: int| 0 <= i < rest.len() && rest[i] == closed;
            assert(events[i] == closed);
        }
        if events.contains(closed) && events.last() != closed {
            let i = choose|i: int| 0 <= i < events.len() && events[i] == closed;
            assert(rest[i] == closed);
        }
        if events.last() == closed {
            assert(events[events.len() - 1] == closed);
        }
    }
}

/// The terminal loop ends at a quit key or at the end of its input, and at nothing
/// else; in particular not when the engine closes.
pub proof fn law_only_the_user_ends_the_loop(event: LoopEvent)
    ensures
        loop_action(event) == LoopAction::Quit <==> (event == LoopEvent::InputClosed || (
        event matches LoopEvent::Key(key) && quits(key))),
{
}

/// When data was last applied, after the engine's answers `run`, each with the time
/// it came.
pub open spec fn applied_at_after_all(start: int, run: Seq<(RecvOutcome, int)>) -> int
    decreases run.len(),
{
    if run.len() == 0 {
        start
    } else {
        applied_at_after(
            applied_at_after_all(start, run.drop_last()),
            run.last().0,
            run.last().1,
        )
    }
}

/// The portal's data is dated by the last applied report: what came after it only
/// raised banners and does not count. Without any, the date is the start.
pub proof fn law_freshness_is_the_last_applied_report(
    start: int,
    run: Seq<(RecvOutcome, int)>,
    k: int,
)
    requires
        -1 <= k < run.len(),
        forall|i: int| k < i < run.len() ==> (#[trigger] run[i]).0 != RecvOutcome::Applied,
        k >= 0 ==> run[k].0 == RecvOutcome::Applied,
    ensures
        applied_at_after_all(start, run) == (if k >= 0 {
            run[k].1
        } else {
            start
        }),
    decreases run.len(),
{
    if run.len() > 0 && k < run.len() - 1 {
        assert(run[run.len() - 1].0 != RecvOutcome::Applied);
        assert forall|i: int| k < i < run.drop_last().len() implies (#[trigger] run.drop_last()[i]).0
            != RecvOutcome::Applied by {
            assert(run[i].0 != RecvOutcome::Applied);
        }
        law_freshness_is_the_last_applied_report(start, run.drop_last(), k);
    }
}

} // verus!
