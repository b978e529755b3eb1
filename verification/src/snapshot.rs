//! The read-only snapshot that the portal serves: a tick, in words and numbers.
//! The two color channels stay separate, as the terminal shows them: folded into
//! one, a busy runner in the memory warn band would no longer look busy. Nothing
//! is derived anew here; what the join computed is put into words.

use crate::app::{texts, Tick, TickView};
use crate::model::{
    answered, ask_level, level_at, reads_levels, slice_total, slice_total_bytes, Bits64, DeployStatus, Deployment,
    HostedJob, HostedStatus, JobInfo, Load, MemLevel, MemSample, RunnerRow, RunnerRowView,
    SourceKind,
};
use crate::time::{elapsed_secs, epoch_secs, secs_between, Timestamp};
use vstd::prelude::*;

verus! {

/// Everything the portal shows.
#[derive(Debug)]
pub struct Snapshot {
    /// Epoch seconds of the last applied poll.
    pub generated_at: u64,
    pub runners: Vec<RunnerSnap>,
    pub hosted: Vec<HostedSnap>,
    pub vercel: Vec<VercelSnap>,
    pub slice: SliceSnap,
    /// Source errors: docker, then native, then jobs.
    pub errors: Vec<String>,
}

#[derive(Debug)]
pub struct RunnerSnap {
    pub name: String,
    /// `"docker"` or `"native"`.
    pub kind: &'static str,
    pub cpu_pct: Bits64,
    pub mem_bytes: u64,
    /// `0` for a runner without a cap.
    pub mem_limit: u64,
    /// CPU readings, oldest first.
    pub cpu: Vec<Bits64>,
    /// Memory readings, oldest first.
    pub mem: Vec<MemSample>,
    /// `"idle"`, `"busy"` or `"near_cap"`.
    pub load: &'static str,
    /// `"normal"`, `"warn"` or `"critical"`, whatever `load` says.
    pub mem_level: &'static str,
    /// `None` when the runner is idle.
    pub job: Option<JobSnap>,
}

#[derive(Debug)]
pub struct JobSnap {
    pub workflow: String,
    pub job: String,
    pub branch: String,
    pub elapsed_secs: u64,
}

#[derive(Debug)]
pub struct HostedSnap {
    pub repo: String,
    pub workflow: String,
    pub job: String,
    pub label: String,
    pub branch: String,
    /// `"in_progress"` or `"queued"`.
    pub status: &'static str,
    /// Seconds running, or seconds waiting.
    pub elapsed_secs: u64,
}

#[derive(Debug)]
pub struct VercelSnap {
    pub repo: String,
    pub project: String,
    pub target: String,
    pub branch: String,
    pub commit: String,
    /// `"building"` or `"queued"`.
    pub status: &'static str,
    /// Seconds building, or seconds waiting.
    pub elapsed_secs: u64,
}

#[derive(Debug)]
pub struct SliceSnap {
    /// The memory of the docker-slice runners, in bytes.
    pub docker_mem: u64,
    pub cap: u64,
    /// `"normal"`, `"warn"` or `"critical"`: `docker_mem` against `cap`.
    pub mem_level: &'static str,
    /// The slice's memory in bytes, oldest first.
    pub hist: Vec<u64>,
}

/// What a [`Snapshot`] says.
#[verifier::ext_equal]
pub struct SnapshotView {
    pub generated_at: int,
    pub runners: Seq<RunnerSnapView>,
    pub hosted: Seq<HostedSnapView>,
    pub vercel: Seq<VercelSnapView>,
    pub slice: SliceSnapView,
    pub errors: Seq<Seq<char>>,
}

#[verifier::ext_equal]
pub struct RunnerSnapView {
    pub name: Seq<char>,
    pub kind: Seq<char>,
    pub cpu_pct: Bits64,
    pub mem_bytes: u64,
    pub mem_limit: u64,
    pub cpu: Seq<Bits64>,
    pub mem: Seq<MemSample>,
    pub load: Seq<char>,
    pub mem_level: Seq<char>,
    pub job: Option<JobSnapView>,
}

pub struct JobSnapView {
    pub workflow: Seq<char>,
    pub job: Seq<char>,
    pub branch: Seq<char>,
    pub elapsed_secs: int,
}

pub struct HostedSnapView {
    pub repo: Seq<char>,
    pub workflow: Seq<char>,
    pub job: Seq<char>,
    pub label: Seq<char>,
    pub branch: Seq<char>,
    pub status: Seq<char>,
    pub elapsed_secs: int,
}

pub struct VercelSnapView {
    pub repo: Seq<char>,
    pub project: Seq<char>,
    pub target: Seq<char>,
    pub branch: Seq<char>,
    pub commit: Seq<char>,
    pub status: Seq<char>,
    pub elapsed_secs: int,
}

#[verifier::ext_equal]
pub struct SliceSnapView {
    pub docker_mem: int,
    pub cap: u64,
    pub mem_level: Seq<char>,
    pub hist: Seq<u64>,
}

impl View for JobSnap {
    type V = JobSnapView;

    open spec fn view(&self) -> JobSnapView {
        JobSnapView {
            workflow: self.workflow@,
            job: self.job@,
            branch: self.branch@,
            elapsed_secs: self.elapsed_secs as int,
        }
    }
}

impl View for RunnerSnap {
    type V = RunnerSnapView;

    open spec fn view(&self) -> RunnerSnapView {
        RunnerSnapView {
            name: self.name@,
            kind: self.kind@,
            cpu_pct: self.cpu_pct,
            mem_bytes: self.mem_bytes,
            mem_limit: self.mem_limit,
            cpu: self.cpu@,
            mem: self.mem@,
            load: self.load@,
            mem_level: self.mem_level@,
            job: match self.job {
                Some(job) => Some(job@),
                None => None,
            },
        }
    }
}

impl View for HostedSnap {
    type V = HostedSnapView;

    open spec fn view(&self) -> HostedSnapView {
        HostedSnapView {
            repo: self.repo@,
            workflow: self.workflow@,
            job: self.job@,
            label: self.label@,
            branch: self.branch@,
            status: self.status@,
            elapsed_secs: self.elapsed_secs as int,
        }
    }
}

impl View for VercelSnap {
    type V = VercelSnapView;

    open spec fn view(&self) -> VercelSnapView {
        VercelSnapView {
            repo: self.repo@,
            project: self.project@,
            target: self.target@,
            branch: self.branch@,
            commit: self.commit@,
            status: self.status@,
            elapsed_secs: self.elapsed_secs as int,
        }
    }
}

impl View for SliceSnap {
    type V = SliceSnapView;

    open spec fn view(&self) -> SliceSnapView {
        SliceSnapView {
            docker_mem: self.docker_mem as int,
            cap: self.cap,
            mem_level: self.mem_level@,
            hist: self.hist@,
        }
    }
}

impl View for Snapshot {
    type V = SnapshotView;

    open spec fn view(&self) -> SnapshotView {
        SnapshotView {
            generated_at: self.generated_at as int,
            runners: self.runners@.map_values(|r: RunnerSnap| r@),
            hosted: self.hosted@.map_values(|h: HostedSnap| h@),
            vercel: self.vercel@.map_values(|v: VercelSnap| v@),
            slice: self.slice@,
            errors: texts(self.errors@),
        }
    }
}

/// The word for a source.
pub open spec fn kind_word(k: SourceKind) -> Seq<char> {
    match k {
        SourceKind::Docker => "docker"@,
        SourceKind::Native => "native"@,
    }
}

/// The word for a load.
pub open spec fn load_word(l: Load) -> Seq<char> {
    match l {
        Load::Idle => "idle"@,
        Load::Busy => "busy"@,
        Load::NearCap => "near_cap"@,
    }
}

/// The word for a memory level.
pub open spec fn mem_level_word(m: MemLevel) -> Seq<char> {
    match m {
        MemLevel::Normal => "normal"@,
        MemLevel::Warn => "warn"@,
        MemLevel::Critical => "critical"@,
    }
}

/// The word for a hosted job's status.
pub open spec fn hosted_word(s: HostedStatus) -> Seq<char> {
    match s {
        HostedStatus::InProgress => "in_progress"@,
        HostedStatus::Queued => "queued"@,
    }
}

/// The word for a deployment's status.
pub open spec fn deploy_word(s: DeployStatus) -> Seq<char> {
    match s {
        DeployStatus::Building => "building"@,
        DeployStatus::Queued => "queued"@,
    }
}

pub fn kind_str(k: SourceKind) -> (r: &'static str)
    ensures
        r@ == kind_word(k),
{
    match k {
        SourceKind::Docker => "docker",
        SourceKind::Native => "native",
    }
}

pub fn load_str(l: Load) -> (r: &'static str)
    ensures
        r@ == load_word(l),
{
    match l {
        Load::Idle => "idle",
        Load::Busy => "busy",
        Load::NearCap => "near_cap",
    }
}

pub fn mem_level_str(m: MemLevel) -> (r: &'static str)
    ensures
        r@ == mem_level_word(m),
{
    match m {
        MemLevel::Normal => "normal",
        MemLevel::Warn => "warn",
        MemLevel::Critical => "critical",
    }
}

/// A job as of `now`.
pub open spec fn job_snap(job: JobInfo, now: int) -> JobSnapView {
    JobSnapView {
        workflow: job.workflow@,
        job: job.job@,
        branch: job.branch@,
        elapsed_secs: secs_between(job.started_at@, now),
    }
}

/// A row as of `now`.
pub open spec fn runner_snap(row: RunnerRowView, now: int) -> RunnerSnapView {
    RunnerSnapView {
        name: row.name,
        kind: kind_word(row.kind),
        cpu_pct: row.cpu_pct,
        mem_bytes: row.mem_bytes,
        mem_limit: row.mem_limit,
        cpu: row.cpu_hist,
        mem: row.mem_hist,
        load: load_word(row.load),
        mem_level: mem_level_word(row.mem_level),
        job: match row.job {
            Some(job) => Some(job_snap(job, now)),
            None => None,
        },
    }
}

/// A hosted job as of `now`.
pub open spec fn hosted_snap(h: HostedJob, now: int) -> HostedSnapView {
    HostedSnapView {
        repo: h.repo@,
        workflow: h.workflow@,
        job: h.job@,
        label: h.label@,
        branch: h.branch@,
        status: hosted_word(h.status),
        elapsed_secs: secs_between(h.since@, now),
    }
}

/// A deployment as of `now`.
pub open spec fn vercel_snap(d: Deployment, now: int) -> VercelSnapView {
    VercelSnapView {
        repo: d.repo@,
        project: d.project@,
        target: d.target@,
        branch: d.branch@,
        commit: d.commit_summary@,
        status: deploy_word(d.status),
        elapsed_secs: secs_between(d.started_at@, now),
    }
}

/// The snapshot of `tick` as of `now`, where `level` is the level of the slice.
pub open spec fn snapshot_of(tick: TickView, cap: u64, level: MemLevel, now: int) -> SnapshotView {
    SnapshotView {
        generated_at: secs_between(0, now),
        runners: tick.rows.map_values(|row: RunnerRowView| runner_snap(row, now)),
        hosted: tick.hosted.map_values(|h: HostedJob| hosted_snap(h, now)),
        vercel: tick.deployments.map_values(|d: Deployment| vercel_snap(d, now)),
        slice: SliceSnapView {
            docker_mem: slice_total(tick.rows) as int,
            cap,
            mem_level: mem_level_word(level),
            hist: tick.slice_mem_hist,
        },
        errors: tick.errors,
    }
}

/// The snapshot of `tick` as of `now`, the slice's level asked of `level_of`.
pub open spec fn snapshot_at<L: Fn(u64, u64, Bits64, Bits64) -> MemLevel>(
    tick: TickView,
    cap: u64,
    warn: Bits64,
    crit: Bits64,
    level_of: L,
    now: int,
) -> SnapshotView {
    let level = level_at(level_of, slice_total(tick.rows) as u64, cap, warn, crit);
    snapshot_of(tick, cap, level, now)
}

fn snap_row(row: &RunnerRow, now: Timestamp) -> (r: RunnerSnap)
    ensures
        r@ == runner_snap(row@, now@),
{
    let job = match &row.job {
        Some(j) => Some(
            JobSnap {
                workflow: j.workflow.clone(),
                job: j.job.clone(),
                branch: j.branch.clone(),
                elapsed_secs: elapsed_secs(j.started_at, now),
            },
        ),
        None => None,
    };
    let cpu = row.cpu_hist.clone();
    let mem = row.mem_hist.clone();
    assert(cpu@ =~= row.cpu_hist@);
    assert(mem@ =~= row.mem_hist@);
    RunnerSnap {
        name: row.name.clone(),
        kind: kind_str(row.kind),
        cpu_pct: row.cpu_pct,
        mem_bytes: row.mem_bytes,
        mem_limit: row.mem_limit,
        cpu,
        mem,
        load: load_str(row.load),
        mem_level: mem_level_str(row.mem_level),
        job,
    }
}

fn snap_hosted(h: &HostedJob, now: Timestamp) -> (r: HostedSnap)
    ensures
        r@ == hosted_snap(*h, now@),
{
    HostedSnap {
        repo: h.repo.clone(),
        workflow: h.workflow.clone(),
        job: h.job.clone(),
        label: h.label.clone(),
        branch: h.branch.clone(),
        status: match h.status {
            HostedStatus::InProgress => "in_progress",
            HostedStatus::Queued => "queued",
        },
        elapsed_secs: elapsed_secs(h.since, now),
    }
}

fn snap_deployment(d: &Deployment, now: Timestamp) -> (r: VercelSnap)
    ensures
        r@ == vercel_snap(*d, now@),
{
    VercelSnap {
        repo: d.repo.clone(),
        project: d.project.clone(),
        target: d.target.clone(),
        branch: d.branch.clone(),
        commit: d.commit_summary.clone(),
        status: match d.status {
            DeployStatus::Building => "building",
            DeployStatus::Queued => "queued",
        },
        elapsed_secs: elapsed_secs(d.started_at, now),
    }
}

impl Snapshot {
    /// Puts a tick into words. `now` is the one clock for `generated_at` and for
    /// every elapsed time, so a refresh that passes the time of the last applied
    /// poll makes none of them jump.
    pub fn from_tick<L: Fn(u64, u64, Bits64, Bits64) -> MemLevel>(
        tick: &Tick,
        slice_cap_bytes: u64,
        warn_ratio: Bits64,
        crit_ratio: Bits64,
        level_of: &L,
        now: Timestamp,
    ) -> (r: Snapshot)
        requires
            reads_levels(*level_of),
            slice_total(tick@.rows) <= u64::MAX,
        ensures
            r@ == snapshot_at(
                tick@,
                slice_cap_bytes,
                warn_ratio,
                crit_ratio,
                *level_of,
                now@,
            ),
            answered(
                *level_of,
                slice_total(tick@.rows) as u64,
                slice_cap_bytes,
                warn_ratio,
                crit_ratio,
            ),
            r.runners@.len() == tick.rows@.len(),
            forall|i: int|
                0 <= i < tick.rows@.len() ==> {
                    &&& (#[trigger] r.runners@[i]).name@ == tick.rows@[i].name@
                    &&& r.runners@[i].cpu_pct == tick.rows@[i].cpu_pct
                    &&& r.runners@[i].mem_bytes == tick.rows@[i].mem_bytes
                    &&& r.runners@[i].mem_limit == tick.rows@[i].mem_limit
                    &&& r.runners@[i].cpu@ == tick.rows@[i].cpu_hist@
                    &&& r.runners@[i].mem@ == tick.rows@[i].mem_hist@
                    &&& r.runners@[i].job is Some <==> tick.rows@[i].job is Some
                    &&& tick.rows@[i].job matches Some(job) ==> {
                        &&& r.runners@[i].job->0.workflow@ == job.workflow@
                        &&& r.runners@[i].job->0.job@ == job.job@
                        &&& r.runners@[i].job->0.branch@ == job.branch@
                    }
                },
            r.hosted@.len() == tick.hosted@.len(),
            forall|i: int|
                0 <= i < tick.hosted@.len() ==> {
                    &&& (#[trigger] r.hosted@[i]).repo@ == tick.hosted@[i].repo@
                    &&& r.hosted@[i].workflow@ == tick.hosted@[i].workflow@
                    &&& r.hosted@[i].job@ == tick.hosted@[i].job@
                    &&& r.hosted@[i].label@ == tick.hosted@[i].label@
                    &&& r.hosted@[i].branch@ == tick.hosted@[i].branch@
                },
            r.vercel@.len() == tick.deployments@.len(),
            forall|i: int|
                0 <= i < tick.deployments@.len() ==> {
                    &&& (#[trigger] r.vercel@[i]).repo@ == tick.deployments@[i].repo@
                    &&& r.vercel@[i].project@ == tick.deployments@[i].project@
                    &&& r.vercel@[i].target@ == tick.deployments@[i].target@
                    &&& r.vercel@[i].branch@ == tick.deployments@[i].branch@
                    &&& r.vercel@[i].commit@ == tick.deployments@[i].commit_summary@
                },
            r.slice.cap == slice_cap_bytes,
            r.slice.hist@ == tick.slice_mem_hist@,
    {
        let mut runners: Vec<RunnerSnap> = Vec::new();
        let mut i: usize = 0;
        while i < tick.rows.len()
            invariant
                i <= tick.rows@.len(),
                runners@.map_values(|r: RunnerSnap| r@) == tick@.rows.take(i as int).map_values(
                    |row: RunnerRowView| runner_snap(row, now@),
                ),
            decreases tick.rows@.len() - i,
        {
            let ghost before = runners@;
            let snap = snap_row(&tick.rows[i], now);
            runners.push(snap);
            i = i + 1;
            proof {
                let shown = |r: RunnerSnap| r@;
                let put = |row: RunnerRowView| runner_snap(row, now@);
                assert(runners@.map_values(shown) =~= before.map_values(shown).push(snap@));
                assert(tick@.rows.take(i as int).map_values(put) =~= tick@.rows.take(
                    i - 1,
                ).map_values(put).push(snap@));
            }
        }
        assert(tick@.rows.take(i as int) =~= tick@.rows);

        let mut hosted: Vec<HostedSnap> = Vec::new();
        let mut i: usize = 0;
        while i < tick.hosted.len()
            invariant
                i <= tick.hosted@.len(),
                hosted@.map_values(|h: HostedSnap| h@) == tick.hosted@.take(i as int).map_values(
                    |h: HostedJob| hosted_snap(h, now@),
                ),
            decreases tick.hosted@.len() - i,
        {
            let ghost before = hosted@;
            let snap = snap_hosted(&tick.hosted[i], now);
            hosted.push(snap);
            i = i + 1;
            proof {
                let shown = |h: HostedSnap| h@;
                let put = |h: HostedJob| hosted_snap(h, now@);
                assert(hosted@.map_values(shown) =~= before.map_values(shown).push(snap@));
                assert(tick.hosted@.take(i as int).map_values(put) =~= tick.hosted@.take(
                    i - 1,
                ).map_values(put).push(snap@));
            }
        }
        assert(tick.hosted@.take(i as int) =~= tick.hosted@);

        let mut vercel: Vec<VercelSnap> = Vec::new();
        let mut i: usize = 0;
        while i < tick.deployments.len()
            invariant
                i <= tick.deployments@.len(),
                vercel@.map_values(|v: VercelSnap| v@) == tick.deployments@.take(
                    i as int,
                ).map_values(|d: Deployment| vercel_snap(d, now@)),
            decreases tick.deployments@.len() - i,
        {
            let ghost before = vercel@;
            let snap = snap_deployment(&tick.deployments[i], now);
            vercel.push(snap);
            i = i + 1;
            proof {
                let shown = |v: VercelSnap| v@;
                let put = |d: Deployment| vercel_snap(d, now@);
                assert(vercel@.map_values(shown) =~= before.map_values(shown).push(snap@));
                assert(tick.deployments@.take(i as int).map_values(put) =~= tick.deployments@.take(
                    i - 1,
                ).map_values(put).push(snap@));
            }
        }
        assert(tick.deployments@.take(i as int) =~= tick.deployments@);

        let docker_mem = slice_total_bytes(&tick.rows);
        let level = ask_level(level_of, docker_mem, slice_cap_bytes, warn_ratio, crit_ratio);
        let errors = tick.errors.clone();
        assert(errors@ =~= tick.errors@);
        let mut hist: Vec<u64> = Vec::new();
        hist.extend_from_slice(tick.slice_mem_hist);
        assert(hist@ =~= tick.slice_mem_hist@);
        let slice = SliceSnap {
            docker_mem,
            cap: slice_cap_bytes,
            mem_level: mem_level_str(level),
            hist,
        };
        let r = Snapshot {
            generated_at: epoch_secs(now),
            runners,
            hosted,
            vercel,
            slice,
            errors,
        };
        proof {
            assert(r@ =~= snapshot_of(tick@, slice_cap_bytes, level, now@));
            assert forall|i: int| #![trigger r.runners@[i]] 0 <= i < tick.rows@.len() implies {
                &&& r.runners@[i]@ == r@.runners[i]
                &&& tick.rows@[i]@ == tick@.rows[i]
                &&& tick.rows@[i].job is Some ==> r.runners@[i].job->0@ == r@.runners[i].job->0
            } by {
                assert(r@.runners[i].job is Some <==> tick.rows@[i].job is Some);
            }
            assert(forall|i: int|
                0 <= i < tick.hosted@.len() ==> (#[trigger] r.hosted@[i])@ == r@.hosted[i]);
            assert(forall|i: int|
                0 <= i < tick.deployments@.len() ==> (#[trigger] r.vercel@[i])@ == r@.vercel[i]);
        }
        r
    }
}

} // verus!
