use pitwall::app::{AppState, Config, Engine, Tick};
use pitwall::model::{
    checked_slice_total, slice_total_bytes, Bits64, DeployStatus, Deployment, HostedJob,
    HostedStatus, JobInfo, Load, MemLevel, MemSample, RunnerResource, RunnerRow, SourceKind,
};
use pitwall::snapshot::{kind_str, load_str, mem_level_str, Snapshot};
use pitwall::time::{elapsed_secs, epoch_secs, Timestamp};
use pitwall::web::project;
use std::time::{SystemTime, UNIX_EPOCH};

const CAP: u64 = 8 * 1024 * 1024 * 1024;

fn double(x: f64) -> Bits64 {
    Bits64 { bits: x.to_bits() }
}

fn now() -> Timestamp {
    let d = SystemTime::now().duration_since(UNIX_EPOCH).unwrap();
    Timestamp::new(d.as_secs() as i64, d.subsec_nanos()).unwrap()
}

fn at(secs: i64) -> Timestamp {
    Timestamp::new(secs, 0).unwrap()
}

fn mem_level(bytes: u64, limit: u64, warn: Bits64, crit: Bits64) -> MemLevel {
    if limit == 0 {
        return MemLevel::Normal;
    }
    let ratio = bytes as f64 / limit as f64;
    if ratio >= f64::from_bits(crit.bits) {
        MemLevel::Critical
    } else if ratio >= f64::from_bits(warn.bits) {
        MemLevel::Warn
    } else {
        MemLevel::Normal
    }
}

fn row(name: &str, kind: SourceKind, load: Load, mem_level: MemLevel) -> RunnerRow {
    RunnerRow {
        name: name.into(),
        cpu_pct: double(3.0),
        mem_bytes: 100,
        mem_limit: if kind == SourceKind::Native { 0 } else { CAP },
        job: None,
        load,
        mem_level,
        kind,
        cpu_hist: vec![double(1.0), double(2.0), double(3.0)],
        mem_hist: vec![
            MemSample {
                bytes: 1,
                limit: 10,
            },
            MemSample {
                bytes: 2,
                limit: 10,
            },
        ],
    }
}

fn tick_of<'a>(
    rows: Vec<RunnerRow>,
    hist: &'a [u64],
    hosted: &'a [HostedJob],
    deployments: &'a [Deployment],
) -> Tick<'a> {
    Tick {
        rows,
        errors: vec![],
        slice_mem_hist: hist,
        matched_seen: 0,
        unmatched_seen: 0,
        hosted,
        deployments,
    }
}

fn snap_at(tick: &Tick, now: Timestamp) -> Snapshot {
    Snapshot::from_tick(tick, CAP, double(0.85), double(0.90), &mem_level, now)
}

#[test]
fn projects_two_channels_and_sparklines() {
    // A busy runner in the memory warn band: load stays busy AND mem_level is
    // warn, the two channels must not collapse into one.
    let rows = vec![row(
        "ci-runner-1",
        SourceKind::Docker,
        Load::Busy,
        MemLevel::Warn,
    )];
    let (hist, hosted, deps): (Vec<u64>, Vec<HostedJob>, Vec<Deployment>) =
        (vec![100], vec![], vec![]);
    let tick = Tick {
        rows,
        errors: vec!["native: denied".into()],
        slice_mem_hist: &hist,
        matched_seen: 1,
        unmatched_seen: 0,
        hosted: &hosted,
        deployments: &deps,
    };
    let snap = Snapshot::from_tick(&tick, CAP, double(0.85), double(0.90), &mem_level, now());

    assert_eq!(snap.runners[0].load, "busy");
    assert_eq!(snap.runners[0].mem_level, "warn");
    assert_eq!(snap.runners[0].kind, "docker");
    let cpu: Vec<f64> = snap.runners[0]
        .cpu
        .iter()
        .map(|c| f64::from_bits(c.bits))
        .collect();
    assert_eq!(cpu, vec![1.0, 2.0, 3.0]);
    let mem: Vec<f64> = snap.runners[0]
        .mem
        .iter()
        .map(|m| m.bytes as f64 / m.limit as f64)
        .collect();
    assert_eq!(mem, vec![0.1, 0.2]);
    assert!(snap.runners[0].job.is_none());
    assert_eq!(snap.slice.docker_mem, 100);
    assert_eq!(snap.slice.cap, CAP);
    assert_eq!(snap.errors, vec!["native: denied"]);
}

#[test]
fn near_cap_and_critical_map_through() {
    let rows = vec![row(
        "ci-runner-2",
        SourceKind::Docker,
        Load::NearCap,
        MemLevel::Critical,
    )];
    let (hist, hosted, deps): (Vec<u64>, Vec<HostedJob>, Vec<Deployment>) =
        (vec![], vec![], vec![]);
    let tick = tick_of(rows, &hist, &hosted, &deps);
    let snap = snap_at(&tick, now());
    assert_eq!(snap.runners[0].load, "near_cap");
    assert_eq!(snap.runners[0].mem_level, "critical");
}

#[test]
fn job_elapsed_computed_against_now() {
    let t = SystemTime::now().duration_since(UNIX_EPOCH).unwrap();
    let (secs, nanos) = (t.as_secs() as i64, t.subsec_nanos());
    let now = Timestamp::new(secs, nanos).unwrap();
    let mut r = row(
        "ci-runner-1",
        SourceKind::Docker,
        Load::Busy,
        MemLevel::Normal,
    );
    r.job = Some(JobInfo {
        workflow: "CI".into(),
        job: "Build".into(),
        branch: "main".into(),
        started_at: Timestamp::new(secs - 30, nanos).unwrap(),
    });
    let (hist, hosted, deps): (Vec<u64>, Vec<HostedJob>, Vec<Deployment>) =
        (vec![], vec![], vec![]);
    let tick = tick_of(vec![r], &hist, &hosted, &deps);
    let snap = snap_at(&tick, now);
    let job = snap.runners[0].job.as_ref().unwrap();
    assert_eq!(job.elapsed_secs, 30);
    assert_eq!(job.branch, "main");
}

#[test]
fn words_for_every_value() {
    assert_eq!(kind_str(SourceKind::Docker), "docker");
    assert_eq!(kind_str(SourceKind::Native), "native");
    assert_eq!(load_str(Load::Idle), "idle");
    assert_eq!(load_str(Load::Busy), "busy");
    assert_eq!(load_str(Load::NearCap), "near_cap");
    assert_eq!(mem_level_str(MemLevel::Normal), "normal");
    assert_eq!(mem_level_str(MemLevel::Warn), "warn");
    assert_eq!(mem_level_str(MemLevel::Critical), "critical");
}

#[test]
fn epoch_secs_is_zero_before_the_epoch() {
    assert_eq!(epoch_secs(at(0)), 0);
    assert_eq!(epoch_secs(Timestamp::new(41, 999_999_999).unwrap()), 41);
    assert_eq!(epoch_secs(at(-5)), 0);
    assert_eq!(epoch_secs(Timestamp::new(-1, 999_999_999).unwrap()), 0);
    assert_eq!(epoch_secs(at(i64::MAX)), i64::MAX as u64);
}

#[test]
fn elapsed_rounds_down_and_never_goes_negative() {
    let start = Timestamp::new(10, 500_000_000).unwrap();
    assert_eq!(elapsed_secs(start, Timestamp::new(12, 400_000_000).unwrap()), 1);
    assert_eq!(elapsed_secs(start, Timestamp::new(12, 500_000_000).unwrap()), 2);
    assert_eq!(elapsed_secs(start, at(10)), 0);
    assert_eq!(elapsed_secs(start, at(3)), 0);
    assert_eq!(elapsed_secs(at(i64::MIN), at(i64::MAX)), u64::MAX);
}

#[test]
fn a_whole_second_of_nanoseconds_is_no_timestamp() {
    assert!(Timestamp::new(1, 1_000_000_000).is_none());
    assert!(Timestamp::new(1, 999_999_999).is_some());
}

#[test]
fn hosted_jobs_and_deployments_carry_over() {
    let hosted = vec![
        HostedJob {
            repo: "o/r".into(),
            workflow: "CI".into(),
            job: "Build".into(),
            label: "ubuntu-latest".into(),
            branch: "main".into(),
            status: HostedStatus::InProgress,
            since: at(90),
        },
        HostedJob {
            repo: "o/r".into(),
            workflow: "CI".into(),
            job: "Test".into(),
            label: "ubuntu-latest".into(),
            branch: "main".into(),
            status: HostedStatus::Queued,
            since: at(200),
        },
    ];
    let deps = vec![
        Deployment {
            repo: "o/r".into(),
            project: "site".into(),
            target: "production".into(),
            branch: "main".into(),
            commit_summary: "fix".into(),
            status: DeployStatus::Building,
            started_at: at(60),
        },
        Deployment {
            repo: "o/r".into(),
            project: "site".into(),
            target: "preview".into(),
            branch: "dev".into(),
            commit_summary: "wip".into(),
            status: DeployStatus::Queued,
            started_at: at(99),
        },
    ];
    let snap = snap_at(&tick_of(vec![], &[5, 6], &hosted, &deps), at(100));
    assert_eq!(snap.generated_at, 100);
    assert_eq!(snap.hosted[0].status, "in_progress");
    assert_eq!(snap.hosted[0].elapsed_secs, 10);
    assert_eq!(snap.hosted[0].label, "ubuntu-latest");
    assert_eq!(snap.hosted[1].status, "queued");
    assert_eq!(snap.hosted[1].job, "Test");
    assert_eq!(snap.hosted[1].elapsed_secs, 0);
    assert_eq!(snap.vercel[0].status, "building");
    assert_eq!(snap.vercel[0].commit, "fix");
    assert_eq!(snap.vercel[0].elapsed_secs, 40);
    assert_eq!(snap.vercel[1].status, "queued");
    assert_eq!(snap.vercel[1].target, "preview");
    assert_eq!(snap.slice.hist, vec![5, 6]);
    assert_eq!(snap.slice.docker_mem, 0);
}

#[test]
fn slice_counts_docker_rows_only_and_gets_its_own_level() {
    let mut a = row("a", SourceKind::Docker, Load::Idle, MemLevel::Normal);
    a.mem_bytes = 60;
    let mut b = row("b", SourceKind::Native, Load::Idle, MemLevel::Normal);
    b.mem_bytes = 1000;
    let mut c = row("c", SourceKind::Docker, Load::Idle, MemLevel::Normal);
    c.mem_bytes = 27;
    let tick = tick_of(vec![a, b, c], &[], &[], &[]);
    assert_eq!(slice_total_bytes(&tick.rows), 87);
    let snap = Snapshot::from_tick(&tick, 100, double(0.85), double(0.90), &mem_level, at(1));
    assert_eq!(snap.slice.docker_mem, 87);
    assert_eq!(snap.slice.mem_level, "warn");
    assert_eq!(snap.runners[1].kind, "native");
    assert_eq!(snap.runners[1].mem_limit, 0);
}

#[test]
fn a_row_total_that_overflows_is_seen_beforehand() {
    let mut a = row("a", SourceKind::Docker, Load::Idle, MemLevel::Normal);
    a.mem_bytes = u64::MAX;
    let b = row("b", SourceKind::Native, Load::Idle, MemLevel::Normal);
    let c = row("c", SourceKind::Docker, Load::Idle, MemLevel::Normal);
    let mut rows = vec![a, b];
    assert_eq!(checked_slice_total(&rows), Some(u64::MAX));
    rows.push(c);
    assert_eq!(checked_slice_total(&rows), None);
}

#[test]
fn projecting_an_engine_uses_its_settings() {
    let cfg = Config {
        slice_cap_bytes: 110,
        warn_ratio: double(0.85),
        crit_ratio: double(0.90),
        prefix: "p".into(),
        configured_repos: vec![],
        repos: vec![],
        orgs: vec![],
    };
    let (mut e, _) = Engine::spawn(cfg, vec![], vec![]);
    e.state = AppState {
        docker_resources: vec![RunnerResource {
            name: "a".into(),
            cpu_pct: double(1.0),
            mem_bytes: 100,
            mem_limit: 0,
            key: None,
            kind: SourceKind::Docker,
        }],
        jobs_err: Some("jobs: z".into()),
        ..Default::default()
    };
    let snap = project(&e, &mem_level, at(7));
    assert_eq!(snap.generated_at, 7);
    assert_eq!(snap.slice.cap, 110);
    assert_eq!(snap.slice.mem_level, "critical");
    assert_eq!(snap.runners[0].name, "a");
    assert_eq!(snap.runners[0].load, "idle");
    assert_eq!(snap.errors, vec!["jobs: z"]);
}
