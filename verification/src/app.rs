//! The state behind both surfaces: how poll results change it, and how it is
//! projected into a tick.

use crate::history::{History, HistoryView};
use crate::jobs::{JobMap, JobsUpdate, RunnerKeyView};
use crate::model::{
    all_answered, join, joined, reads_levels, row_views, Bits64, Deployment, HostedJob, JobInfo, MemLevel,
    RunnerResource, RunnerRow, RunnerRowView, SourceKind,
};
use crate::resource::{checked_mem_total, mem_total, ResourceUpdate};
use crate::vercel::VercelUpdate;
use vstd::prelude::*;

verus! {

/// Everything the pollers have reported. The two resource sources keep
/// independent last-known data, so that one failing leaves the other's alone.
#[derive(Debug)]
pub struct AppState {
    pub docker_resources: Vec<RunnerResource>,
    pub native_resources: Vec<RunnerResource>,
    pub docker_err: Option<String>,
    pub native_err: Option<String>,
    pub jobs: JobMap,
    pub jobs_err: Option<String>,
    pub hosted: Vec<HostedJob>,
    /// In-flight deployments from the last poll.
    pub deployments: Vec<Deployment>,
    pub history: History,
    /// From the last successful docker poll: containers whose name matched the
    /// prefix, and those whose name did not.
    pub matched_seen: usize,
    pub unmatched_seen: usize,
}

/// What an [`AppState`] says.
#[verifier::ext_equal]
pub struct StateView {
    pub docker_resources: Seq<RunnerResource>,
    pub native_resources: Seq<RunnerResource>,
    pub docker_err: Option<Seq<char>>,
    pub native_err: Option<Seq<char>>,
    pub jobs: Map<RunnerKeyView, Option<JobInfo>>,
    pub jobs_err: Option<Seq<char>>,
    pub hosted: Seq<HostedJob>,
    pub deployments: Seq<Deployment>,
    pub history: HistoryView,
    pub matched_seen: usize,
    pub unmatched_seen: usize,
}

/// A message's text.
pub open spec fn text(message: Option<String>) -> Option<Seq<char>> {
    match message {
        Some(m) => Some(m@),
        None => None,
    }
}

impl View for AppState {
    type V = StateView;

    open spec fn view(&self) -> StateView {
        StateView {
            docker_resources: self.docker_resources@,
            native_resources: self.native_resources@,
            docker_err: text(self.docker_err),
            native_err: text(self.native_err),
            jobs: self.jobs@,
            jobs_err: text(self.jobs_err),
            hosted: self.hosted@,
            deployments: self.deployments@,
            history: self.history@,
            matched_seen: self.matched_seen,
            unmatched_seen: self.unmatched_seen,
        }
    }
}

impl StateView {
    /// Nothing reported yet.
    pub open spec fn empty() -> StateView {
        StateView {
            docker_resources: Seq::empty(),
            native_resources: Seq::empty(),
            docker_err: None,
            native_err: None,
            jobs: Map::empty(),
            jobs_err: None,
            hosted: Seq::empty(),
            deployments: Seq::empty(),
            history: HistoryView::empty(),
            matched_seen: 0,
            unmatched_seen: 0,
        }
    }

    /// Every known runner: the docker ones, then the native ones.
    pub open spec fn runners(self) -> Seq<RunnerResource> {
        self.docker_resources + self.native_resources
    }

    /// The state with a resource poll's data and banner, its history not yet grown.
    pub open spec fn with_resources(self, update: ResourceUpdate) -> StateView {
        match update.source {
            SourceKind::Docker => StateView {
                docker_resources: update.resources@,
                docker_err: text(update.error),
                matched_seen: update.matched_seen,
                unmatched_seen: update.unmatched_seen,
                ..self
            },
            SourceKind::Native => StateView {
                native_resources: update.resources@,
                native_err: text(update.error),
                ..self
            },
        }
    }

    /// The state after a resource poll. A failed docker poll only raises its
    /// banner. Any other poll replaces its source's runners and adds one reading
    /// for each of them, pruned against all runners of both sources. A docker poll
    /// also adds the slice total, unless containers match the prefix and none of
    /// them has reported yet.
    pub open spec fn after_resources(self, update: ResourceUpdate) -> StateView {
        if !update.applies() {
            StateView { docker_err: text(update.error), ..self }
        } else {
            let next = self.with_resources(update);
            let history = self.history.recorded(update.resources@, next.runners());
            StateView {
                history: if records_slice(update) {
                    history.slice_recorded(mem_total(update.resources@) as u64)
                } else {
                    history
                },
                ..next
            }
        }
    }

    /// The state after a jobs poll: data and banner replaced.
    pub open spec fn after_jobs(self, update: JobsUpdate) -> StateView {
        StateView {
            jobs: update.jobs@,
            hosted: update.hosted@,
            jobs_err: text(update.error),
            ..self
        }
    }

    /// The state after a deployments poll: the list replaced.
    pub open spec fn after_vercel(self, update: VercelUpdate) -> StateView {
        StateView { deployments: update.deployments@, ..self }
    }
}

/// The poll adds a reading of the docker slice's total memory.
pub open spec fn records_slice(update: ResourceUpdate) -> bool {
    &&& update.source == SourceKind::Docker
    &&& update.error is None
    &&& update.resources@.len() > 0 || update.matched_seen == 0
}

impl Default for AppState {
    fn default() -> (r: Self)
        ensures
            r@ == StateView::empty(),
            r.docker_resources@.len() == 0 && r.native_resources@.len() == 0,
            r.docker_err is None && r.native_err is None && r.jobs_err is None,
            r.jobs@.dom() == Set::<RunnerKeyView>::empty(),
            r.hosted@.len() == 0 && r.deployments@.len() == 0,
            r.history@.series.dom() == Set::<Seq<char>>::empty() && r.history@.slice.len() == 0,
            r.matched_seen == 0 && r.unmatched_seen == 0,
    {
        AppState {
            docker_resources: Vec::new(),
            native_resources: Vec::new(),
            docker_err: None,
            native_err: None,
            jobs: JobMap::new(),
            jobs_err: None,
            hosted: Vec::new(),
            deployments: Vec::new(),
            history: History::new(),
            matched_seen: 0,
            unmatched_seen: 0,
        }
    }
}

impl AppState {
    /// Every currently known runner across both sources: what is joined into rows,
    /// and what the history is pruned against.
    pub fn all_resources(&self) -> (r: Vec<RunnerResource>)
        ensures
            r@ == self@.runners(),
            r@ == self.docker_resources@ + self.native_resources@,
    {
        let mut all = self.docker_resources.clone();
        let mut native = self.native_resources.clone();
        assert(all@ =~= self.docker_resources@);
        assert(native@ =~= self.native_resources@);
        all.append(&mut native);
        all
    }
}

/// Applies a resource poll to the data of its source and, where that changed,
/// adds readings for that source's runners only, so that every runner gets one
/// reading per poll of its own source, while the other source's series survive.
///
/// A docker error means that the whole poll failed: the last good data stays. A
/// native error only names the runners that could not be read: the others are
/// applied all the same.
///
/// Returns whether data was applied.
pub fn apply_resource_update(state: &mut AppState, update: ResourceUpdate) -> (applied: bool)
    requires
        update.fits(),
    ensures
        applied == update.applies(),
        final(state)@ == old(state)@.after_resources(update),
        applied <==> update.source == SourceKind::Native || update.error is None,
        update.source == SourceKind::Docker ==> {
            &&& final(state).docker_err == update.error
            &&& final(state).native_resources == old(state).native_resources
            &&& final(state).native_err == old(state).native_err
        },
        update.source == SourceKind::Docker && update.error is None ==> {
            &&& final(state).docker_resources == update.resources
            &&& final(state).matched_seen == update.matched_seen
            &&& final(state).unmatched_seen == update.unmatched_seen
        },
        update.source == SourceKind::Docker && update.error is Some ==> {
            &&& final(state).docker_resources == old(state).docker_resources
            &&& final(state).matched_seen == old(state).matched_seen
            &&& final(state).unmatched_seen == old(state).unmatched_seen
            &&& final(state).history == old(state).history
        },
        update.source == SourceKind::Native ==> {
            &&& final(state).native_resources == update.resources
            &&& final(state).native_err == update.error
            &&& final(state).docker_resources == old(state).docker_resources
            &&& final(state).docker_err == old(state).docker_err
            &&& final(state).matched_seen == old(state).matched_seen
            &&& final(state).unmatched_seen == old(state).unmatched_seen
        },
        final(state).jobs == old(state).jobs,
        final(state).jobs_err == old(state).jobs_err,
        final(state).hosted == old(state).hosted,
        final(state).deployments == old(state).deployments,
{
    let source = update.source;
    let applied = match source {
        SourceKind::Docker => {
            state.docker_err = update.error;
            if state.docker_err.is_none() {
                state.docker_resources = update.resources;
                state.matched_seen = update.matched_seen;
                state.unmatched_seen = update.unmatched_seen;
                true
            } else {
                false
            }
        },
        SourceKind::Native => {
            state.native_err = update.error;
            state.native_resources = update.resources;
            true
        },
    };
    if applied {
        let all = state.all_resources();
        let polled = match source {
            SourceKind::Docker => &state.docker_resources,
            SourceKind::Native => &state.native_resources,
        };
        state.history.record(polled, &all);
        if source == SourceKind::Docker && (state.docker_resources.len() > 0 || state.matched_seen
            == 0) {
            let total = checked_mem_total(&state.docker_resources).unwrap();
            state.history.record_slice(total);
        }
    }
    applied
}

/// Applies a jobs poll. The poller keeps the last good data of a scope that
/// failed, so data and banner are simply replaced. Returns whether the poll
/// succeeded.
pub fn apply_jobs_update(state: &mut AppState, update: JobsUpdate) -> (applied: bool)
    ensures
        applied == (update.error is None),
        final(state)@ == old(state)@.after_jobs(update),
        final(state).jobs == update.jobs,
        final(state).hosted == update.hosted,
        final(state).jobs_err == update.error,
        final(state).docker_resources == old(state).docker_resources,
        final(state).native_resources == old(state).native_resources,
        final(state).docker_err == old(state).docker_err,
        final(state).native_err == old(state).native_err,
        final(state).deployments == old(state).deployments,
        final(state).history == old(state).history,
        final(state).matched_seen == old(state).matched_seen,
        final(state).unmatched_seen == old(state).unmatched_seen,
{
    let applied = update.error.is_none();
    state.jobs_err = update.error;
    state.jobs = update.jobs;
    state.hosted = update.hosted;
    applied
}

/// Applies a deployments poll: a fresh list, or an empty one after an error, so
/// always a change.
pub fn apply_vercel_update(state: &mut AppState, update: VercelUpdate) -> (applied: bool)
    ensures
        applied,
        final(state)@ == old(state)@.after_vercel(update),
        final(state).deployments == update.deployments,
        final(state).docker_resources == old(state).docker_resources,
        final(state).native_resources == old(state).native_resources,
        final(state).docker_err == old(state).docker_err,
        final(state).native_err == old(state).native_err,
        final(state).jobs == old(state).jobs,
        final(state).jobs_err == old(state).jobs_err,
        final(state).hosted == old(state).hosted,
        final(state).history == old(state).history,
        final(state).matched_seen == old(state).matched_seen,
        final(state).unmatched_seen == old(state).unmatched_seen,
{
    state.deployments = update.deployments;
    true
}

/// What one poller report did. `Applied`: data changed, so the data is as fresh
/// as now. `ErrorOnly`: a banner was set and no data changed, by a docker poll that
/// failed, a jobs poll that failed, or a poller channel that closed (but for the
/// deployments channel, which has no banner). `Closed`: every poller channel is
/// closed.
#[derive(Clone, Copy, Debug, PartialEq, Eq, Structural)]
pub enum RecvOutcome {
    Applied,
    ErrorOnly,
    Closed,
}

/// The outcome of a report that did or did not apply data.
pub open spec fn outcome_of(applied: bool) -> RecvOutcome {
    if applied {
        RecvOutcome::Applied
    } else {
        RecvOutcome::ErrorOnly
    }
}

/// The outcome of a report that did or did not apply data.
pub fn outcome(applied: bool) -> (r: RecvOutcome)
    ensures
        r == outcome_of(applied),
        applied ==> r == RecvOutcome::Applied,
        !applied ==> r == RecvOutcome::ErrorOnly,
{
    if applied {
        RecvOutcome::Applied
    } else {
        RecvOutcome::ErrorOnly
    }
}

/// One projection of the state. Both surfaces are built from it.
#[derive(Debug)]
pub struct Tick<'a> {
    pub rows: Vec<RunnerRow>,
    /// Source errors: docker, then native, then jobs. The terminal shows the first,
    /// the portal all of them.
    pub errors: Vec<String>,
    pub slice_mem_hist: &'a [u64],
    pub matched_seen: usize,
    pub unmatched_seen: usize,
    pub hosted: &'a [HostedJob],
    pub deployments: &'a [Deployment],
}

/// What a [`Tick`] shows.
#[verifier::ext_equal]
pub struct TickView {
    pub rows: Seq<RunnerRowView>,
    pub errors: Seq<Seq<char>>,
    pub slice_mem_hist: Seq<u64>,
    pub matched_seen: usize,
    pub unmatched_seen: usize,
    pub hosted: Seq<HostedJob>,
    pub deployments: Seq<Deployment>,
}

/// The texts of `messages`.
pub open spec fn texts(messages: Seq<String>) -> Seq<Seq<char>> {
    messages.map_values(|m: String| m@)
}

impl<'a> View for Tick<'a> {
    type V = TickView;

    open spec fn view(&self) -> TickView {
        TickView {
            rows: row_views(self.rows@),
            errors: texts(self.errors@),
            slice_mem_hist: self.slice_mem_hist@,
            matched_seen: self.matched_seen,
            unmatched_seen: self.unmatched_seen,
            hosted: self.hosted@,
            deployments: self.deployments@,
        }
    }
}

/// A banner, if there is one.
pub open spec fn banner(message: Option<Seq<char>>) -> Seq<Seq<char>> {
    match message {
        Some(m) => seq![m],
        None => Seq::empty(),
    }
}

impl StateView {
    /// The banners in their order of precedence: docker, native, jobs.
    pub open spec fn banners(self) -> Seq<Seq<char>> {
        banner(self.docker_err) + banner(self.native_err) + banner(self.jobs_err)
    }
}

/// The projection of `state`.
pub open spec fn tick_of<L: Fn(u64, u64, Bits64, Bits64) -> MemLevel>(
    state: StateView,
    warn: Bits64,
    crit: Bits64,
    level_of: L,
) -> TickView {
    TickView {
        rows: joined(state.runners(), state.jobs, state.history, warn, crit, level_of),
        errors: state.banners(),
        slice_mem_hist: state.history.slice,
        matched_seen: state.matched_seen,
        unmatched_seen: state.unmatched_seen,
        hosted: state.hosted,
        deployments: state.deployments,
    }
}

/// Adds `message`, if there is one, to `errors`.
fn push_banner(errors: &mut Vec<String>, message: &Option<String>)
    ensures
        texts(final(errors)@) == texts(old(errors)@) + banner(text(*message)),
{
    if let Some(m) = message {
        let ghost before = errors@;
        errors.push(m.clone());
        assert(texts(errors@) =~= texts(before) + seq![m@]);
    }
    assert(texts(errors@) =~= texts(old(errors)@) + banner(text(*message)));
}

/// Projects the state: the joined rows, the section data, and the banners.
pub fn project_tick<'a, L: Fn(u64, u64, Bits64, Bits64) -> MemLevel>(
    state: &'a AppState,
    warn_ratio: Bits64,
    crit_ratio: Bits64,
    level_of: &L,
) -> (tick: Tick<'a>)
    requires
        reads_levels(*level_of),
    ensures
        tick@ == tick_of(state@, warn_ratio, crit_ratio, *level_of),
        all_answered(*level_of, state@.runners(), warn_ratio, crit_ratio),
        tick.slice_mem_hist@ == state.history@.slice,
        tick.matched_seen == state.matched_seen,
        tick.unmatched_seen == state.unmatched_seen,
        tick.hosted@ == state.hosted@,
        tick.deployments@ == state.deployments@,
{
    let rows = join(
        state.all_resources(),
        &state.jobs,
        &state.history,
        warn_ratio,
        crit_ratio,
        level_of,
    );
    let mut errors: Vec<String> = Vec::new();
    assert(texts(errors@) =~= Seq::empty());
    push_banner(&mut errors, &state.docker_err);
    push_banner(&mut errors, &state.native_err);
    push_banner(&mut errors, &state.jobs_err);
    assert(texts(errors@) =~= state@.banners());
    Tick {
        rows,
        errors,
        slice_mem_hist: state.history.slice_mem(),
        matched_seen: state.matched_seen,
        unmatched_seen: state.unmatched_seen,
        hosted: state.hosted.as_slice(),
        deployments: state.deployments.as_slice(),
    }
}

/// The settings of the monitor.
#[derive(Clone, Debug)]
pub struct Config {
    pub slice_cap_bytes: u64,
    pub warn_ratio: Bits64,
    pub crit_ratio: Bits64,
    pub prefix: String,
    /// The repositories that the configuration names.
    pub configured_repos: Vec<String>,
    /// The repositories and organisations whose jobs are polled: the configured
    /// ones and those of the discovered native runners.
    pub repos: Vec<String>,
    pub orgs: Vec<String>,
}

/// The accumulated state, and which pollers are still there. A frontend waits for
/// the next report of an armed poller, hands it to [`Engine::recv`], and shows
/// [`Engine::tick`].
#[derive(Debug)]
pub struct Engine {
    pub state: AppState,
    pub res_alive: bool,
    pub jobs_alive: bool,
    pub vercel_alive: bool,
    pub slice_cap_bytes: u64,
    pub warn_ratio: Bits64,
    pub crit_ratio: Bits64,
    pub prefix: String,
    /// Hosted jobs carry their repository only when several are polled.
    pub multi_repo: bool,
}

/// What a frontend hears from the pollers: a report, or that a channel closed, or
/// that no channel is left to wait for.
#[derive(Debug)]
pub enum PollEvent {
    Resources(Option<ResourceUpdate>),
    Jobs(Option<JobsUpdate>),
    Vercel(Option<VercelUpdate>),
    NoneArmed,
}

/// The banner of a source whose channel closed: the one that stands, or else that
/// the poller stopped.
pub open spec fn closed_banner(standing: Option<Seq<char>>, stopped: Seq<char>) -> Option<
    Seq<char>,
> {
    if standing is Some {
        standing
    } else {
        Some(stopped)
    }
}

/// The state after `event`. A channel that closes changes no data and raises a
/// banner where its source has none: the resources channel, which docker and native
/// share, in docker's place, the jobs channel in its own. The deployments channel
/// has no place among the banners.
pub open spec fn state_after(state: StateView, event: PollEvent) -> StateView {
    match event {
        PollEvent::Resources(Some(update)) => state.after_resources(update),
        PollEvent::Jobs(Some(update)) => state.after_jobs(update),
        PollEvent::Vercel(Some(update)) => state.after_vercel(update),
        PollEvent::Resources(None) => StateView {
            docker_err: closed_banner(state.docker_err, "docker: resource pollers stopped"@),
            ..state
        },
        PollEvent::Jobs(None) => StateView {
            jobs_err: closed_banner(state.jobs_err, "jobs: poller stopped"@),
            ..state
        },
        PollEvent::Vercel(None) | PollEvent::NoneArmed => state,
    }
}

/// What `event` amounts to.
pub open spec fn event_outcome(event: PollEvent) -> RecvOutcome {
    match event {
        PollEvent::Resources(Some(update)) => outcome_of(update.applies()),
        PollEvent::Jobs(Some(update)) => outcome_of(update.error is None),
        PollEvent::Vercel(Some(_)) => RecvOutcome::Applied,
        PollEvent::NoneArmed => RecvOutcome::Closed,
        _ => RecvOutcome::ErrorOnly,
    }
}

/// `before` took in `event`, answered `outcome`, and became `after`.
pub open spec fn received(
    before: Engine,
    event: PollEvent,
    outcome: RecvOutcome,
    after: Engine,
) -> bool {
    &&& outcome == event_outcome(event)
    &&& after.state@ == state_after(before.state@, event)
    &&& after.res_alive == (before.res_alive && event != PollEvent::Resources(None))
    &&& after.jobs_alive == (before.jobs_alive && event != PollEvent::Jobs(None))
    &&& after.vercel_alive == (before.vercel_alive && event != PollEvent::Vercel(None))
    &&& after.same_settings(before)
}

impl Engine {
    /// The event can happen: it comes from a channel that is still open, or says
    /// that none is; and its numbers can be added up.
    pub open spec fn can_receive(self, event: PollEvent) -> bool {
        match event {
            PollEvent::Resources(update) => self.res_alive && (update matches Some(u)
                ==> u.fits()),
            PollEvent::Jobs(_) => self.jobs_alive,
            PollEvent::Vercel(_) => self.vercel_alive,
            PollEvent::NoneArmed => !self.any_alive(),
        }
    }

    /// Some channel is open.
    pub open spec fn any_alive(self) -> bool {
        self.res_alive || self.jobs_alive || self.vercel_alive
    }

    /// How many channels are open.
    pub open spec fn open_channels(self) -> int {
        (if self.res_alive { 1int } else { 0 }) + (if self.jobs_alive { 1int } else { 0 }) + (
        if self.vercel_alive { 1int } else { 0 })
    }

    /// The two engines are set up alike.
    pub open spec fn same_settings(self, other: Engine) -> bool {
        &&& self.slice_cap_bytes == other.slice_cap_bytes
        &&& self.warn_ratio == other.warn_ratio
        &&& self.crit_ratio == other.crit_ratio
        &&& self.prefix == other.prefix
        &&& self.multi_repo == other.multi_repo
    }

    /// An engine that has heard nothing yet, all pollers running; and beside it the
    /// settings for those pollers, with the derived scopes `repos` and `orgs` in
    /// place of what they held.
    pub fn spawn(cfg: Config, repos: Vec<String>, orgs: Vec<String>) -> (r: (Engine, Config))
        ensures
            r.0.state@ == StateView::empty(),
            r.0.res_alive && r.0.jobs_alive && r.0.vercel_alive,
            r.0.slice_cap_bytes == cfg.slice_cap_bytes,
            r.0.warn_ratio == cfg.warn_ratio,
            r.0.crit_ratio == cfg.crit_ratio,
            r.0.prefix == cfg.prefix,
            r.0.multi_repo == (repos@.len() > 1),
            r.1 == (Config { repos, orgs, ..cfg }),
    {
        let engine = Engine {
            state: AppState::default(),
            res_alive: true,
            jobs_alive: true,
            vercel_alive: true,
            slice_cap_bytes: cfg.slice_cap_bytes,
            warn_ratio: cfg.warn_ratio,
            crit_ratio: cfg.crit_ratio,
            prefix: cfg.prefix.clone(),
            multi_repo: repos.len() > 1,
        };
        (engine, Config { repos, orgs, ..cfg })
    }

    /// Takes in one event and says what it amounts to. A channel that closes raises
    /// its banner and is not waited for again; once all are closed the answer is
    /// `Closed`.
    pub fn recv(&mut self, event: PollEvent) -> (r: RecvOutcome)
        requires
            old(self).can_receive(event),
        ensures
            received(*old(self), event, r, *final(self)),
    {
        match event {
            PollEvent::Resources(Some(update)) => outcome(
                apply_resource_update(&mut self.state, update),
            ),
            PollEvent::Resources(None) => {
                self.res_alive = false;
                if self.state.docker_err.is_none() {
                    self.state.docker_err = Some("docker: resource pollers stopped".to_owned());
                }
                RecvOutcome::ErrorOnly
            },
            PollEvent::Jobs(Some(update)) => outcome(apply_jobs_update(&mut self.state, update)),
            PollEvent::Jobs(None) => {
                self.jobs_alive = false;
                if self.state.jobs_err.is_none() {
                    self.state.jobs_err = Some("jobs: poller stopped".to_owned());
                }
                RecvOutcome::ErrorOnly
            },
            PollEvent::Vercel(Some(update)) => outcome(
                apply_vercel_update(&mut self.state, update),
            ),
            PollEvent::Vercel(None) => {
                self.vercel_alive = false;
                RecvOutcome::ErrorOnly
            },
            PollEvent::NoneArmed => RecvOutcome::Closed,
        }
    }

    /// Projects the current state.
    pub fn tick<'a, L: Fn(u64, u64, Bits64, Bits64) -> MemLevel>(
        &'a self,
        level_of: &L,
    ) -> (tick: Tick<'a>)
        requires
            reads_levels(*level_of),
        ensures
            tick@ == tick_of(self.state@, self.warn_ratio, self.crit_ratio, *level_of),
            all_answered(*level_of, self.state@.runners(), self.warn_ratio, self.crit_ratio),
    {
        project_tick(&self.state, self.warn_ratio, self.crit_ratio, level_of)
    }
}

} // verus!
