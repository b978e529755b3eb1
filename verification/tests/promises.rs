use pitwall::app::{Config, Engine, PollEvent, RecvOutcome};
use pitwall::jobs::{JobMap, JobsUpdate};
use pitwall::model::{Bits64, HostedJob, HostedStatus, JobInfo, MemLevel, RunnerKey};
use pitwall::model::{RunnerResource, SourceKind};
use pitwall::resource::ResourceUpdate;
use pitwall::time::{elapsed_secs, Timestamp};
use pitwall::tui::draw;
use pitwall::web::{project, seed, Refresh, RefreshAction};

fn at(secs: i64) -> Timestamp {
    Timestamp::new(secs, 0).unwrap()
}

fn normal(_bytes: u64, _limit: u64, _warn: Bits64, _crit: Bits64) -> MemLevel {
    MemLevel::Normal
}

fn runner(name: &str, cpu: u64, kind: SourceKind) -> RunnerResource {
    RunnerResource {
        name: name.into(),
        cpu_pct: Bits64 { bits: cpu },
        mem_bytes: 10,
        mem_limit: 100,
        key: Some(RunnerKey {
            scope: "o/r".into(),
            name: name.into(),
        }),
        kind,
    }
}

fn poll(
    source: SourceKind,
    resources: Vec<RunnerResource>,
    error: Option<&str>,
) -> PollEvent {
    PollEvent::Resources(Some(ResourceUpdate {
        source,
        matched_seen: resources.len(),
        resources,
        unmatched_seen: 0,
        error: error.map(|e| e.to_string()),
    }))
}

fn busy_engine() -> Engine {
    let cfg = Config {
        slice_cap_bytes: 1000,
        warn_ratio: Bits64 { bits: 1 },
        crit_ratio: Bits64 { bits: 2 },
        prefix: "p".into(),
        configured_repos: vec![],
        repos: vec![],
        orgs: vec![],
    };
    let (mut e, _) = Engine::spawn(cfg, vec![], vec![]);
    e.recv(poll(
        SourceKind::Docker,
        vec![runner("d", 1, SourceKind::Docker)],
        None,
    ));
    let mut jobs = JobMap::new();
    jobs.insert(
        RunnerKey {
            scope: "o/r".into(),
            name: "d".into(),
        },
        Some(JobInfo {
            workflow: "CI".into(),
            job: "Build".into(),
            branch: "main".into(),
            started_at: at(70),
        }),
    );
    e.recv(PollEvent::Jobs(Some(JobsUpdate {
        jobs,
        hosted: vec![HostedJob {
            repo: "o/r".into(),
            workflow: "CI".into(),
            job: "Lint".into(),
            label: "ubuntu-latest".into(),
            branch: "main".into(),
            status: HostedStatus::Queued,
            since: at(80),
        }],
        error: None,
    })));
    e
}

#[test]
fn an_error_only_refresh_changes_banners_only() {
    let mut e = busy_engine();
    let mut refresh = Refresh::new(at(100));
    let before = project(&e, &normal, refresh.last_applied_at);
    let outcome = e.recv(poll(SourceKind::Docker, vec![], Some("docker: x")));
    assert_eq!(outcome, RecvOutcome::ErrorOnly);
    let after = match refresh.step(outcome, at(160)) {
        RefreshAction::Publish(t) => project(&e, &normal, t),
        RefreshAction::Stop => panic!("the engine is open"),
    };
    assert_eq!(after.errors, vec!["docker: x"]);
    assert!(before.errors.is_empty());
    assert_eq!(after.generated_at, 100);
    assert_eq!(after.runners[0].job.as_ref().unwrap().elapsed_secs, 30);
    assert_eq!(after.hosted[0].elapsed_secs, 20);
    assert_eq!(format!("{:?}", after.runners), format!("{:?}", before.runners));
    assert_eq!(format!("{:?}", after.hosted), format!("{:?}", before.hosted));
    assert_eq!(format!("{:?}", after.slice), format!("{:?}", before.slice));
}

#[test]
fn the_seed_and_the_refresh_share_one_clock() {
    let mut e = busy_engine();
    let (first, mut refresh) = seed(&e, &normal, at(100));
    assert_eq!(first.generated_at, 100);
    assert_eq!(first.runners.len(), 1);
    let outcome = e.recv(poll(SourceKind::Docker, vec![], Some("docker: x")));
    let next = match refresh.step(outcome, at(101)) {
        RefreshAction::Publish(t) => project(&e, &normal, t),
        RefreshAction::Stop => panic!("the engine is open"),
    };
    assert_eq!(next.generated_at, first.generated_at);
    assert_eq!(next.errors, vec!["docker: x"]);
}

#[test]
fn a_docker_error_keeps_the_tick_but_for_its_banners() {
    let mut e = busy_engine();
    e.recv(poll(SourceKind::Native, vec![], Some("native: y")));
    let before = format!("{:?}", e.tick(&normal).rows);
    e.recv(poll(SourceKind::Docker, vec![], Some("docker: x")));
    let tick = e.tick(&normal);
    assert_eq!(format!("{:?}", tick.rows), before);
    assert_eq!(tick.errors, vec!["docker: x", "native: y"]);
    assert_eq!(tick.matched_seen, 1);
    assert_eq!(tick.hosted.len(), 1);
    assert_eq!(tick.slice_mem_hist, &[10]);
}

#[test]
fn a_series_is_the_runners_own_readings_in_order() {
    let mut e = busy_engine();
    e.recv(poll(
        SourceKind::Native,
        vec![runner("n", 50, SourceKind::Native)],
        Some("native: other denied"),
    ));
    e.recv(poll(
        SourceKind::Docker,
        vec![runner("d", 2, SourceKind::Docker)],
        None,
    ));
    e.recv(poll(SourceKind::Docker, vec![], Some("docker: x")));
    e.recv(poll(
        SourceKind::Docker,
        vec![runner("d", 3, SourceKind::Docker)],
        None,
    ));
    let cpu: Vec<u64> = e.state.history.cpu("d").iter().map(|c| c.bits).collect();
    assert_eq!(cpu, vec![1, 2, 3]);
    let cpu: Vec<u64> = e.state.history.cpu("n").iter().map(|c| c.bits).collect();
    assert_eq!(cpu, vec![50]);
}

#[test]
fn a_run_of_docker_failures_keeps_everything_but_the_banner() {
    let mut e = busy_engine();
    for i in 0..30 {
        let error = format!("docker: {i}");
        e.recv(poll(SourceKind::Docker, vec![], Some(&error)));
    }
    assert_eq!(e.state.docker_err.as_deref(), Some("docker: 29"));
    assert_eq!(e.state.docker_resources.len(), 1);
    assert_eq!(e.state.history.cpu("d").len(), 1);
    assert_eq!(e.state.history.slice_mem(), &[10]);
    assert_eq!(e.state.matched_seen, 1);
}

#[test]
fn terminal_and_portal_show_the_same() {
    let mut e = busy_engine();
    e.recv(poll(SourceKind::Docker, vec![], Some("docker: x")));
    e.recv(poll(SourceKind::Native, vec![], Some("native: y")));
    let tick = e.tick(&normal);
    let screen = draw(&e, &tick, at(100));
    let portal = project(&e, &normal, at(100));
    assert_eq!(screen.status.as_deref(), Some("docker: x"));
    assert_eq!(portal.errors, vec!["docker: x", "native: y"]);
    assert_eq!(screen.rows.len(), portal.runners.len());
    assert_eq!(screen.rows[0].name, portal.runners[0].name);
    assert_eq!(screen.hosted.len(), portal.hosted.len());
    assert_eq!(screen.deployments.len(), portal.vercel.len());
    assert_eq!(screen.slice_mem_hist, portal.slice.hist);
}

#[test]
fn elapsed_never_runs_backwards() {
    let since = at(50);
    let mut last = 0;
    for secs in 40..60 {
        let e = elapsed_secs(since, at(secs));
        assert!(e >= last);
        last = e;
    }
    assert_eq!(last, 9);
}
