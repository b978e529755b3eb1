//! The vocabulary of the monitor: runners, jobs, deployments, and the rows that
//! a tick shows.

use crate::history::{History, HistoryView, Sample};
use crate::jobs::{JobMap, RunnerKeyView};
use crate::operations::law_rows_show_their_runners;
use crate::time::Timestamp;
use vstd::prelude::*;

verus! {

/// The IEEE 754 bit pattern of a double. The core carries such a number from the
/// place that measured it to the place that shows it, and never reads it.
#[derive(Clone, Copy, Debug, PartialEq, Eq, Structural)]
pub struct Bits64 {
    pub bits: u64,
}

/// Where a runner lives.
#[derive(Clone, Copy, Debug, PartialEq, Eq, Structural)]
pub enum SourceKind {
    /// A container in the docker slice.
    Docker,
    /// A service on the host itself.
    Native,
}

/// A row's color channel: the job state, overridden at the memory cap.
#[derive(Clone, Copy, Debug, PartialEq, Eq, Structural)]
pub enum Load {
    Idle,
    Busy,
    NearCap,
}

/// The memory cell's color channel.
#[derive(Clone, Copy, Debug, PartialEq, Eq, Structural)]
pub enum MemLevel {
    Normal,
    Warn,
    Critical,
}

#[derive(Clone, Copy, Debug, PartialEq, Eq, Structural)]
pub enum HostedStatus {
    InProgress,
    Queued,
}

#[derive(Clone, Copy, Debug, PartialEq, Eq, Structural)]
pub enum DeployStatus {
    Building,
    Queued,
}

/// One reading of a runner's memory; the fraction shown is `bytes / limit`.
#[derive(Clone, Copy, Debug, PartialEq, Eq, Structural)]
pub struct MemSample {
    pub bytes: u64,
    /// `0` for a runner without a cap.
    pub limit: u64,
}

/// A runner as the CI provider knows it: the repository or organisation it is
/// registered with, and its name there.
#[derive(Debug)]
pub struct RunnerKey {
    pub scope: String,
    pub name: String,
}

impl View for RunnerKey {
    type V = RunnerKeyView;

    open spec fn view(&self) -> RunnerKeyView {
        RunnerKeyView { scope: self.scope@, name: self.name@ }
    }
}

impl Clone for RunnerKey {
    fn clone(&self) -> (r: Self)
        ensures
            r == *self,
    {
        RunnerKey { scope: self.scope.clone(), name: self.name.clone() }
    }
}

/// The job that a runner is working on.
#[derive(Debug)]
pub struct JobInfo {
    pub workflow: String,
    pub job: String,
    pub branch: String,
    pub started_at: Timestamp,
}

impl Clone for JobInfo {
    fn clone(&self) -> (r: Self)
        ensures
            r == *self,
    {
        JobInfo {
            workflow: self.workflow.clone(),
            job: self.job.clone(),
            branch: self.branch.clone(),
            started_at: self.started_at,
        }
    }
}

/// What one resource poll says of one runner.
#[derive(Debug)]
pub struct RunnerResource {
    pub name: String,
    pub cpu_pct: Bits64,
    pub mem_bytes: u64,
    /// `0` for a runner without a cap.
    pub mem_limit: u64,
    /// How the CI provider knows this runner, where that is known.
    pub key: Option<RunnerKey>,
    pub kind: SourceKind,
}

impl RunnerResource {
    /// The reading that this poll adds to the runner's history.
    pub open spec fn sample(self) -> Sample {
        Sample {
            cpu_pct: self.cpu_pct,
            mem: MemSample { bytes: self.mem_bytes, limit: self.mem_limit },
        }
    }
}

impl Clone for RunnerResource {
    fn clone(&self) -> (r: Self)
        ensures
            r == *self,
    {
        RunnerResource {
            name: self.name.clone(),
            cpu_pct: self.cpu_pct,
            mem_bytes: self.mem_bytes,
            mem_limit: self.mem_limit,
            key: self.key.clone(),
            kind: self.kind,
        }
    }
}

/// A job on a provider-hosted machine, running or waiting for one.
#[derive(Debug)]
pub struct HostedJob {
    pub repo: String,
    pub workflow: String,
    pub job: String,
    pub label: String,
    pub branch: String,
    pub status: HostedStatus,
    /// When it started running, or started to wait.
    pub since: Timestamp,
}

/// A deployment that has not finished.
#[derive(Debug)]
pub struct Deployment {
    pub repo: String,
    pub project: String,
    pub target: String,
    pub branch: String,
    pub commit_summary: String,
    pub status: DeployStatus,
    pub started_at: Timestamp,
}

/// One row of the monitor: a runner, its job, its two color channels, and its
/// sparklines.
#[derive(Debug)]
pub struct RunnerRow {
    pub name: String,
    pub cpu_pct: Bits64,
    pub mem_bytes: u64,
    /// `0` for a runner without a cap.
    pub mem_limit: u64,
    /// `None` when the runner is idle.
    pub job: Option<JobInfo>,
    pub load: Load,
    pub mem_level: MemLevel,
    pub kind: SourceKind,
    /// CPU readings, oldest first.
    pub cpu_hist: Vec<Bits64>,
    /// Memory readings, oldest first.
    pub mem_hist: Vec<MemSample>,
}

/// What a [`RunnerRow`] shows.
#[verifier::ext_equal]
pub struct RunnerRowView {
    pub name: Seq<char>,
    pub cpu_pct: Bits64,
    pub mem_bytes: u64,
    pub mem_limit: u64,
    pub job: Option<JobInfo>,
    pub load: Load,
    pub mem_level: MemLevel,
    pub kind: SourceKind,
    pub cpu_hist: Seq<Bits64>,
    pub mem_hist: Seq<MemSample>,
}

impl View for RunnerRow {
    type V = RunnerRowView;

    open spec fn view(&self) -> RunnerRowView {
        RunnerRowView {
            name: self.name@,
            cpu_pct: self.cpu_pct,
            mem_bytes: self.mem_bytes,
            mem_limit: self.mem_limit,
            job: self.job,
            load: self.load,
            mem_level: self.mem_level,
            kind: self.kind,
            cpu_hist: self.cpu_hist@,
            mem_hist: self.mem_hist@,
        }
    }
}

/// The row channel: near the cap when memory is critical, whatever the job state;
/// busy or idle otherwise.
pub open spec fn load_of(level: MemLevel, working: bool) -> Load {
    if level == MemLevel::Critical {
        Load::NearCap
    } else if working {
        Load::Busy
    } else {
        Load::Idle
    }
}

/// The job of the runner that the provider knows as `key`.
pub open spec fn job_of(
    key: Option<RunnerKey>,
    jobs: Map<RunnerKeyView, Option<JobInfo>>,
) -> Option<JobInfo> {
    match key {
        Some(k) => if jobs.contains_key(k@) {
            jobs[k@]
        } else {
            None
        },
        None => None,
    }
}

/// The row for `runner`, given the level of its memory.
pub open spec fn joined_row(
    runner: RunnerResource,
    jobs: Map<RunnerKeyView, Option<JobInfo>>,
    history: HistoryView,
    level: MemLevel,
) -> RunnerRowView {
    let job = job_of(runner.key, jobs);
    RunnerRowView {
        name: runner.name@,
        cpu_pct: runner.cpu_pct,
        mem_bytes: runner.mem_bytes,
        mem_limit: runner.mem_limit,
        job,
        load: load_of(level, job is Some),
        mem_level: level,
        kind: runner.kind,
        cpu_hist: history.cpu(runner.name@),
        mem_hist: history.mem(runner.name@),
    }
}

/// `level` is an answer of `level_of` for that reading.
pub open spec fn is_level<L: Fn(u64, u64, Bits64, Bits64) -> MemLevel>(
    level_of: L,
    bytes: u64,
    limit: u64,
    warn: Bits64,
    crit: Bits64,
    level: MemLevel,
) -> bool {
    call_ensures(level_of, (bytes, limit, warn, crit), level)
}

/// `level_of` is a function of a memory reading, `(bytes, limit, warn ratio,
/// critical ratio)`: it may be asked about any, and has one answer for each.
pub open spec fn reads_levels<L: Fn(u64, u64, Bits64, Bits64) -> MemLevel>(level_of: L) -> bool {
    &&& forall|bytes: u64, limit: u64, warn: Bits64, crit: Bits64| #[trigger]
        call_requires(level_of, (bytes, limit, warn, crit))
    &&& forall|bytes: u64, limit: u64, warn: Bits64, crit: Bits64, a: MemLevel, b: MemLevel|
        #[trigger] is_level(level_of, bytes, limit, warn, crit, a) && #[trigger] is_level(
            level_of,
            bytes,
            limit,
            warn,
            crit,
            b,
        ) ==> a == b
}

/// The answer of `level_of` for that reading.
pub open spec fn level_at<L: Fn(u64, u64, Bits64, Bits64) -> MemLevel>(
    level_of: L,
    bytes: u64,
    limit: u64,
    warn: Bits64,
    crit: Bits64,
) -> MemLevel {
    choose|level: MemLevel| is_level(level_of, bytes, limit, warn, crit, level)
}

/// `level_of` did answer for that reading.
pub open spec fn answered<L: Fn(u64, u64, Bits64, Bits64) -> MemLevel>(
    level_of: L,
    bytes: u64,
    limit: u64,
    warn: Bits64,
    crit: Bits64,
) -> bool {
    is_level(level_of, bytes, limit, warn, crit, level_at(level_of, bytes, limit, warn, crit))
}

/// `level_of` did answer for each of `runners`.
pub open spec fn all_answered<L: Fn(u64, u64, Bits64, Bits64) -> MemLevel>(
    level_of: L,
    runners: Seq<RunnerResource>,
    warn: Bits64,
    crit: Bits64,
) -> bool {
    forall|i: int|
        0 <= i < runners.len() ==> answered(
            level_of,
            (#[trigger] runners[i]).mem_bytes,
            runners[i].mem_limit,
            warn,
            crit,
        )
}

/// Asks `level_of`.
pub(crate) fn ask_level<L: Fn(u64, u64, Bits64, Bits64) -> MemLevel>(
    level_of: &L,
    bytes: u64,
    limit: u64,
    warn: Bits64,
    crit: Bits64,
) -> (level: MemLevel)
    requires
        reads_levels(*level_of),
    ensures
        level == level_at(*level_of, bytes, limit, warn, crit),
        answered(*level_of, bytes, limit, warn, crit),
{
    let level = level_of(bytes, limit, warn, crit);
    assert(is_level(*level_of, bytes, limit, warn, crit, level));
    level
}

/// The rows for `runners`, one each and in order.
pub open spec fn joined<L: Fn(u64, u64, Bits64, Bits64) -> MemLevel>(
    runners: Seq<RunnerResource>,
    jobs: Map<RunnerKeyView, Option<JobInfo>>,
    history: HistoryView,
    warn: Bits64,
    crit: Bits64,
    level_of: L,
) -> Seq<RunnerRowView> {
    runners.map_values(
        |runner: RunnerResource|
            joined_row(
                runner,
                jobs,
                history,
                level_at(level_of, runner.mem_bytes, runner.mem_limit, warn, crit),
            ),
    )
}

/// The rows as they are shown.
pub open spec fn row_views(rows: Seq<RunnerRow>) -> Seq<RunnerRowView> {
    rows.map_values(|row: RunnerRow| row@)
}

/// Joins what is known of each runner: its resources, its job, and its history.
/// Whether a reading is beyond a ratio of its limit is a question of floating point,
/// so `level_of` answers it.
pub fn join<L: Fn(u64, u64, Bits64, Bits64) -> MemLevel>(
    runners: Vec<RunnerResource>,
    jobs: &JobMap,
    history: &History,
    warn: Bits64,
    crit: Bits64,
    level_of: &L,
) -> (rows: Vec<RunnerRow>)
    requires
        reads_levels(*level_of),
    ensures
        row_views(rows@) == joined(runners@, jobs@, history@, warn, crit, *level_of),
        all_answered(*level_of, runners@, warn, crit),
        rows@.len() == runners@.len(),
        forall|i: int|
            0 <= i < runners@.len() ==> {
                &&& (#[trigger] rows@[i]).name@ == runners@[i].name@
                &&& rows@[i].cpu_pct == runners@[i].cpu_pct
                &&& rows@[i].mem_bytes == runners@[i].mem_bytes
                &&& rows@[i].mem_limit == runners@[i].mem_limit
                &&& rows@[i].kind == runners@[i].kind
            },
{
    let mut rows: Vec<RunnerRow> = Vec::new();
    let mut i: usize = 0;
    while i < runners.len()
        invariant
            i <= runners@.len(),
            reads_levels(*level_of),
            all_answered(*level_of, runners@.take(i as int), warn, crit),
            row_views(rows@) == joined(
                runners@.take(i as int),
                jobs@,
                history@,
                warn,
                crit,
                *level_of,
            ),
        decreases runners@.len() - i,
    {
        let runner = &runners[i];
        let mem_level = ask_level(level_of, runner.mem_bytes, runner.mem_limit, warn, crit);
        let job: Option<JobInfo> = match &runner.key {
            Some(key) => match jobs.get(key) {
                Some(job) => job.clone(),
                None => None,
            },
            None => None,
        };
        let load = if mem_level == MemLevel::Critical {
            Load::NearCap
        } else if job.is_some() {
            Load::Busy
        } else {
            Load::Idle
        };
        let row = RunnerRow {
            name: runner.name.clone(),
            cpu_pct: runner.cpu_pct,
            mem_bytes: runner.mem_bytes,
            mem_limit: runner.mem_limit,
            job,
            load,
            mem_level,
            kind: runner.kind,
            cpu_hist: history.cpu(runner.name.as_str()),
            mem_hist: history.mem(runner.name.as_str()),
        };
        let ghost before = rows@;
        rows.push(row);
        proof {
            assert(row_views(rows@) =~= row_views(before).push(row@));
            assert(runners@.take(i + 1) =~= runners@.take(i as int).push(*runner));
            assert(row_views(rows@) =~= joined(
                runners@.take(i + 1),
                jobs@,
                history@,
                warn,
                crit,
                *level_of,
            ));
        }
        i = i + 1;
    }
    assert(runners@.take(i as int) =~= runners@);
    proof {
        law_rows_show_their_runners(rows@, runners@, jobs@, history@, warn, crit, *level_of);
    }
    rows
}

/// The memory of the docker-slice runners among `rows`, in bytes.
pub open spec fn slice_total(rows: Seq<RunnerRowView>) -> nat
    decreases rows.len(),
{
    if rows.len() == 0 {
        0
    } else {
        let before = slice_total(rows.drop_last());
        if rows.last().kind == SourceKind::Docker {
            before + rows.last().mem_bytes as nat
        } else {
            before
        }
    }
}

/// The memory of the docker-slice runners among `rows`, in bytes; native runners
/// do not count. `None` when it does not fit.
pub fn checked_slice_total(rows: &Vec<RunnerRow>) -> (r: Option<u64>)
    ensures
        match r {
            Some(total) => total == slice_total(row_views(rows@)),
            None => slice_total(row_views(rows@)) > u64::MAX,
        },
{
    let ghost views = row_views(rows@);
    let mut total: u64 = 0;
    let mut i: usize = 0;
    while i < rows.len()
        invariant
            i <= rows@.len(),
            views == row_views(rows@),
            total == slice_total(views.take(i as int)),
        decreases rows@.len() - i,
    {
        proof {
            assert(views.take(i + 1).drop_last() =~= views.take(i as int));
            lemma_slice_total_grows(views, i + 1);
        }
        if rows[i].kind == SourceKind::Docker {
            match total.checked_add(rows[i].mem_bytes) {
                Some(sum) => {
                    total = sum;
                },
                None => {
                    return None;
                },
            }
        }
        i = i + 1;
    }
    assert(views.take(i as int) =~= views);
    Some(total)
}

/// The memory of the docker-slice runners among `rows`, in bytes; native runners
/// do not count.
pub fn slice_total_bytes(rows: &Vec<RunnerRow>) -> (r: u64)
    requires
        slice_total(row_views(rows@)) <= u64::MAX,
    ensures
        r == slice_total(row_views(rows@)),
{
    checked_slice_total(rows).unwrap()
}

proof fn lemma_slice_total_grows(rows: Seq<RunnerRowView>, n: int)
    requires
        0 <= n <= rows.len(),
    ensures
        slice_total(rows.take(n)) <= slice_total(rows),
    decreases rows.len(),
{
    if n == rows.len() {
        assert(rows.take(n) =~= rows);
    } else {
        lemma_slice_total_grows(rows.drop_last(), n);
        assert(rows.drop_last().take(n) =~= rows.take(n));
    }
}

/// The memory of the docker-slice runners among `runners`, in bytes.
pub open spec fn docker_total(runners: Seq<RunnerResource>) -> nat
    decreases runners.len(),
{
    if runners.len() == 0 {
        0
    } else {
        let before = docker_total(runners.drop_last());
        if runners.last().kind == SourceKind::Docker {
            before + runners.last().mem_bytes as nat
        } else {
            before
        }
    }
}

/// The rows use of the slice what the runners use of it.
pub proof fn lemma_joined_total<L: Fn(u64, u64, Bits64, Bits64) -> MemLevel>(
    runners: Seq<RunnerResource>,
    jobs: Map<RunnerKeyView, Option<JobInfo>>,
    history: HistoryView,
    warn: Bits64,
    crit: Bits64,
    level_of: L,
)
    ensures
        slice_total(joined(runners, jobs, history, warn, crit, level_of)) == docker_total(runners),
    decreases runners.len(),
{
    let rows = joined(runners, jobs, history, warn, crit, level_of);
    if runners.len() > 0 {
        let rest = runners.drop_last();
        lemma_joined_total(rest, jobs, history, warn, crit, level_of);
        assert(rows.drop_last() =~= joined(rest, jobs, history, warn, crit, level_of));
    }
}

} // verus!
