use pitwall::app::{
    apply_jobs_update, apply_resource_update, apply_vercel_update, outcome, project_tick, AppState,
    Config, Engine, PollEvent, RecvOutcome,
};
use pitwall::history::HISTORY_LEN;
use pitwall::jobs::{JobMap, JobsUpdate};
use pitwall::model::{
    join, Bits64, DeployStatus, Deployment, HostedJob, HostedStatus, JobInfo, Load, MemLevel,
    MemSample, RunnerKey, RunnerResource, SourceKind,
};
use pitwall::resource::ResourceUpdate;
use pitwall::time::Timestamp;
use pitwall::vercel::VercelUpdate;
use std::time::{SystemTime, UNIX_EPOCH};

fn double(x: f64) -> Bits64 {
    Bits64 { bits: x.to_bits() }
}

fn now() -> Timestamp {
    let d = SystemTime::now().duration_since(UNIX_EPOCH).unwrap();
    Timestamp::new(d.as_secs() as i64, d.subsec_nanos()).unwrap()
}

fn mem_level(bytes: u64, limit: u64, warn: Bits64, crit: Bits64) -> MemLevel {
    if limit == 0 {
        return MemLevel::Normal;
    }
    let ratio = bytes as f64 / limit as f64;
    if ratio >= f64::from_bits(crit.bits) {
        MemLevel::Critical
    } else if ratio >= f64::from_bits(warn.bits) {
        MemLevel::Warn
    } else {
        MemLevel::Normal
    }
}

fn slice_mem(state: &AppState) -> Vec<f64> {
    state.history.slice_mem().iter().map(|&b| b as f64).collect()
}

fn resource(name: &str, kind: SourceKind) -> RunnerResource {
    RunnerResource {
        name: name.into(),
        cpu_pct: double(1.0),
        mem_bytes: 100,
        mem_limit: 8 * 1024 * 1024 * 1024,
        key: None,
        kind,
    }
}

fn docker_update(resources: Vec<RunnerResource>, error: Option<String>) -> ResourceUpdate {
    let (m, u) = if error.is_none() {
        (resources.len(), 0)
    } else {
        (0, 0)
    };
    ResourceUpdate {
        source: SourceKind::Docker,
        resources,
        matched_seen: m,
        unmatched_seen: u,
        error,
    }
}

fn native_update(resources: Vec<RunnerResource>, error: Option<String>) -> ResourceUpdate {
    ResourceUpdate {
        source: SourceKind::Native,
        resources,
        matched_seen: 0,
        unmatched_seen: 0,
        error,
    }
}

fn job() -> JobInfo {
    JobInfo {
        workflow: "ci".into(),
        job: "test".into(),
        branch: "main".into(),
        started_at: now(),
    }
}

fn key(scope: &str, name: &str) -> RunnerKey {
    RunnerKey {
        scope: scope.into(),
        name: name.into(),
    }
}

fn engine() -> Engine {
    let cfg = Config {
        slice_cap_bytes: 1000,
        warn_ratio: double(0.85),
        crit_ratio: double(0.90),
        prefix: "pulse-".into(),
        configured_repos: vec![],
        repos: vec![],
        orgs: vec![],
    };
    Engine::spawn(cfg, vec!["o/r".into()], vec![]).0
}

#[test]
fn docker_error_preserves_last_known_and_leaves_native_untouched() {
    let mut state = AppState {
        docker_resources: vec![
            resource("pulse-ci-runner-1", SourceKind::Docker),
            resource("pulse-ci-runner-2", SourceKind::Docker),
        ],
        native_resources: vec![resource("ltdovr", SourceKind::Native)],
        ..Default::default()
    };

    apply_resource_update(
        &mut state,
        docker_update(vec![], Some("docker: x".to_string())),
    );

    assert_eq!(state.docker_resources.len(), 2);
    assert_eq!(state.docker_err, Some("docker: x".to_string()));
    // Native slice untouched by a docker failure.
    assert_eq!(state.native_resources.len(), 1);
}

#[test]
fn resource_success_replaces_its_own_slice() {
    let mut state = AppState {
        native_resources: vec![
            resource("ltdovr", SourceKind::Native),
            resource("scoop-vanscout", SourceKind::Native),
        ],
        native_err: Some("stale error".to_string()),
        ..Default::default()
    };

    apply_resource_update(
        &mut state,
        native_update(vec![resource("ltdovr", SourceKind::Native)], None),
    );

    assert_eq!(state.native_resources.len(), 1);
    assert!(state.native_err.is_none());
}

#[test]
fn native_partial_error_applies_healthy_and_still_banners() {
    // One native runner failed to read; the poller drops it and sends the
    // healthy set with a banner. The fresh healthy rows are applied while the
    // banner is shown.
    let mut state = AppState {
        native_resources: vec![resource("stale-runner", SourceKind::Native)],
        ..Default::default()
    };

    apply_resource_update(
        &mut state,
        native_update(
            vec![resource("ltdovr", SourceKind::Native)],
            Some("native: scoop-vanscout: denied".to_string()),
        ),
    );

    assert_eq!(state.native_resources.len(), 1);
    assert_eq!(state.native_resources[0].name, "ltdovr");
    assert_eq!(
        state.native_err.as_deref(),
        Some("native: scoop-vanscout: denied")
    );
    assert!(!state.history.cpu("ltdovr").is_empty());
}

#[test]
fn success_poll_records_history_for_both_sources() {
    let mut state = AppState::default();
    apply_resource_update(
        &mut state,
        docker_update(
            vec![resource("pulse-ci-runner-1", SourceKind::Docker)],
            None,
        ),
    );
    apply_resource_update(
        &mut state,
        native_update(vec![resource("ltdovr", SourceKind::Native)], None),
    );
    // Both runners now have history, and neither poll pruned the other's series.
    assert!(!state.history.cpu("pulse-ci-runner-1").is_empty());
    assert!(!state.history.cpu("ltdovr").is_empty());
}

#[test]
fn error_poll_does_not_touch_history() {
    let mut state = AppState::default();
    apply_resource_update(
        &mut state,
        docker_update(
            vec![resource("pulse-ci-runner-1", SourceKind::Docker)],
            None,
        ),
    );
    let before = state.history.cpu("pulse-ci-runner-1").len();
    apply_resource_update(
        &mut state,
        docker_update(vec![], Some("docker: x".to_string())),
    );
    // The error poll neither appended a point nor cleared the series.
    assert_eq!(state.history.cpu("pulse-ci-runner-1").len(), before);
}

#[test]
fn docker_poll_with_resources_appends_slice_point() {
    let mut state = AppState::default();
    apply_resource_update(
        &mut state,
        docker_update(
            vec![resource("pulse-ci-runner-1", SourceKind::Docker)],
            None,
        ),
    );
    // resource() has mem_bytes 100, so the slice total is that one runner.
    assert_eq!(slice_mem(&state), &[100.0]);
}

#[test]
fn native_poll_does_not_touch_slice_series() {
    // Native runners aren't in the docker slice, so a native poll must not
    // append a slice-memory sample.
    let mut state = AppState::default();
    apply_resource_update(
        &mut state,
        native_update(vec![resource("ltdovr", SourceKind::Native)], None),
    );
    assert!(state.history.slice_mem().is_empty());
}

#[test]
fn transient_empty_docker_poll_skips_slice_sample() {
    // Containers match the prefix but stats aren't ready yet. Recording 0 here
    // would inject a baseline dip, so the sample is skipped.
    let mut state = AppState::default();
    apply_resource_update(
        &mut state,
        ResourceUpdate {
            source: SourceKind::Docker,
            resources: vec![],
            matched_seen: 2,
            unmatched_seen: 0,
            error: None,
        },
    );
    assert!(state.history.slice_mem().is_empty());
}

#[test]
fn genuine_zero_docker_poll_records_zero_slice_sample() {
    // Nothing matches the prefix: 0 is the truth, so it is recorded.
    let mut state = AppState::default();
    apply_resource_update(&mut state, docker_update(vec![], None));
    assert_eq!(slice_mem(&state), &[0.0]);
}

#[test]
fn jobs_update_always_replaces() {
    let mut stale = JobMap::new();
    stale.insert(
        RunnerKey {
            scope: "erwins-enkel/pulse".into(),
            name: "runner-1".into(),
        },
        Some(job()),
    );
    let mut state = AppState {
        jobs: stale,
        jobs_err: Some("stale error".to_string()),
        ..Default::default()
    };

    let mut fresh = JobMap::new();
    fresh.insert(
        RunnerKey {
            scope: "erwins-enkel/pulse".into(),
            name: "runner-2".into(),
        },
        Some(job()),
    );
    apply_jobs_update(
        &mut state,
        JobsUpdate {
            jobs: fresh,
            hosted: Vec::new(),
            error: None,
        },
    );

    assert_eq!(state.jobs.len(), 1);
    assert!(state.jobs.contains_key(&RunnerKey {
        scope: "erwins-enkel/pulse".into(),
        name: "runner-2".into()
    }));
    assert!(state.jobs_err.is_none());
}

#[test]
fn jobs_update_sets_hosted() {
    let mut state = AppState::default();
    let hosted = vec![HostedJob {
        repo: "o/r".into(),
        workflow: "CI".into(),
        job: "Build".into(),
        label: "ubuntu-latest".into(),
        branch: "main".into(),
        status: HostedStatus::InProgress,
        since: now(),
    }];
    apply_jobs_update(
        &mut state,
        JobsUpdate {
            jobs: JobMap::new(),
            hosted,
            error: None,
        },
    );
    assert_eq!(state.hosted.len(), 1);
    assert_eq!(state.hosted[0].job, "Build");
}

#[test]
fn tick_errors_follow_docker_native_jobs_precedence() {
    // All three sources erroring: the banner list is docker, native, jobs.
    let state = AppState {
        docker_err: Some("docker: x".into()),
        native_err: Some("native: y".into()),
        jobs_err: Some("jobs: z".into()),
        ..Default::default()
    };
    let tick = project_tick(&state, double(0.85), double(0.90), &mem_level);
    assert_eq!(tick.errors, vec!["docker: x", "native: y", "jobs: z"]);

    // With docker healthy, native leads and the list only carries the present ones.
    let state = AppState {
        native_err: Some("native: y".into()),
        jobs_err: Some("jobs: z".into()),
        ..Default::default()
    };
    let tick = project_tick(&state, double(0.85), double(0.90), &mem_level);
    assert_eq!(tick.errors, vec!["native: y", "jobs: z"]);
}

#[test]
fn tick_rows_match_join_for_the_same_state() {
    // The projected rows must equal a direct `join` over the union of both slices.
    let state = AppState {
        docker_resources: vec![resource("pulse-ci-runner-1", SourceKind::Docker)],
        native_resources: vec![resource("ltdovr", SourceKind::Native)],
        ..Default::default()
    };
    let tick = project_tick(&state, double(0.85), double(0.90), &mem_level);
    let expected = join(
        state.all_resources(),
        &state.jobs,
        &state.history,
        double(0.85),
        double(0.90),
        &mem_level,
    );
    let got: Vec<&str> = tick.rows.iter().map(|r| r.name.as_str()).collect();
    let want: Vec<&str> = expected.iter().map(|r| r.name.as_str()).collect();
    assert_eq!(got, want);
    assert_eq!(tick.rows.len(), 2);
}

#[test]
fn outcome_says_whether_data_was_applied() {
    assert_eq!(outcome(true), RecvOutcome::Applied);
    assert_eq!(outcome(false), RecvOutcome::ErrorOnly);
}

#[test]
fn docker_counts_come_from_the_last_successful_poll() {
    let mut state = AppState::default();
    let good = ResourceUpdate {
        source: SourceKind::Docker,
        resources: vec![],
        matched_seen: 2,
        unmatched_seen: 5,
        error: None,
    };
    assert!(apply_resource_update(&mut state, good));
    assert!(!apply_resource_update(
        &mut state,
        docker_update(vec![], Some("docker: x".into()))
    ));
    assert!(apply_resource_update(&mut state, native_update(vec![], None)));
    assert_eq!((state.matched_seen, state.unmatched_seen), (2, 5));
}

#[test]
fn a_success_clears_the_docker_banner() {
    let mut state = AppState {
        docker_err: Some("docker: x".into()),
        ..Default::default()
    };
    assert!(apply_resource_update(&mut state, docker_update(vec![], None)));
    assert_eq!(state.docker_err, None);
}

#[test]
fn slice_point_is_the_sum_over_the_docker_runners() {
    let mut state = AppState::default();
    let mut big = resource("b", SourceKind::Docker);
    big.mem_bytes = 250;
    apply_resource_update(
        &mut state,
        docker_update(vec![resource("a", SourceKind::Docker), big], None),
    );
    assert_eq!(state.history.slice_mem(), &[350]);
}

#[test]
fn series_are_bounded_and_keep_the_newest() {
    let mut state = AppState::default();
    for i in 0..HISTORY_LEN + 5 {
        let mut r = resource("a", SourceKind::Docker);
        r.cpu_pct = double(i as f64);
        r.mem_bytes = i as u64;
        apply_resource_update(&mut state, docker_update(vec![r], None));
    }
    let cpu = state.history.cpu("a");
    assert_eq!(cpu.len(), HISTORY_LEN);
    assert_eq!(cpu[0], double(5.0));
    assert_eq!(cpu[HISTORY_LEN - 1], double((HISTORY_LEN + 4) as f64));
    let mem = state.history.mem("a");
    assert_eq!(mem.len(), HISTORY_LEN);
    assert_eq!(mem[0].bytes, 5);
    assert_eq!(mem[0].limit, 8 * 1024 * 1024 * 1024);
    assert_eq!(state.history.slice_mem().len(), HISTORY_LEN);
    assert_eq!(state.history.slice_mem()[0], 5);
}

#[test]
fn a_runner_that_is_gone_loses_its_series() {
    let mut state = AppState::default();
    apply_resource_update(
        &mut state,
        docker_update(
            vec![
                resource("a", SourceKind::Docker),
                resource("b", SourceKind::Docker),
            ],
            None,
        ),
    );
    apply_resource_update(
        &mut state,
        docker_update(vec![resource("b", SourceKind::Docker)], None),
    );
    assert!(state.history.cpu("a").is_empty());
    assert_eq!(state.history.cpu("b").len(), 2);
}

#[test]
fn a_poll_leaves_the_other_source_series_alone() {
    let mut state = AppState::default();
    apply_resource_update(
        &mut state,
        native_update(vec![resource("n", SourceKind::Native)], None),
    );
    apply_resource_update(
        &mut state,
        docker_update(vec![resource("d", SourceKind::Docker)], None),
    );
    apply_resource_update(
        &mut state,
        docker_update(vec![resource("d", SourceKind::Docker)], None),
    );
    assert_eq!(state.history.cpu("n").len(), 1);
    assert_eq!(state.history.cpu("d").len(), 2);
}

#[test]
fn vercel_update_replaces_the_list() {
    let mut state = AppState::default();
    let d = Deployment {
        repo: "o/r".into(),
        project: "p".into(),
        target: "production".into(),
        branch: "main".into(),
        commit_summary: "fix".into(),
        status: DeployStatus::Building,
        started_at: now(),
    };
    assert!(apply_vercel_update(
        &mut state,
        VercelUpdate {
            deployments: vec![d]
        }
    ));
    assert_eq!(state.deployments.len(), 1);
    assert!(apply_vercel_update(
        &mut state,
        VercelUpdate {
            deployments: vec![]
        }
    ));
    assert!(state.deployments.is_empty());
}

#[test]
fn failed_jobs_poll_is_error_only_and_mirrors_what_was_sent() {
    let mut state = AppState::default();
    let mut jobs = JobMap::new();
    jobs.insert(key("o/r", "a"), None);
    let applied = apply_jobs_update(
        &mut state,
        JobsUpdate {
            jobs,
            hosted: vec![],
            error: Some("jobs: z".into()),
        },
    );
    assert!(!applied);
    assert_eq!(state.jobs_err.as_deref(), Some("jobs: z"));
    assert_eq!(state.jobs.len(), 1);
}

#[test]
fn job_map_keeps_one_entry_per_runner() {
    let mut jobs = JobMap::new();
    jobs.insert(key("o/r", "a"), None);
    jobs.insert(key("o/r", "b"), Some(job()));
    jobs.insert(key("o/s", "a"), None);
    jobs.insert(key("o/r", "a"), Some(job()));
    assert_eq!(jobs.len(), 3);
    assert!(jobs.get(&key("o/r", "a")).unwrap().is_some());
    assert!(jobs.get(&key("o/s", "a")).unwrap().is_none());
    assert!(jobs.get(&key("o/s", "b")).is_none());
    assert!(!jobs.contains_key(&key("o/s", "b")));
}

#[test]
fn join_reads_job_level_and_history() {
    let mut state = AppState::default();
    let mut busy_warn = resource("busy-warn", SourceKind::Docker);
    busy_warn.mem_bytes = 86;
    busy_warn.mem_limit = 100;
    busy_warn.key = Some(key("o/r", "busy-warn"));
    let mut critical = resource("critical", SourceKind::Docker);
    critical.mem_bytes = 95;
    critical.mem_limit = 100;
    critical.key = Some(key("o/r", "critical"));
    let mut unknown = resource("unknown", SourceKind::Docker);
    unknown.key = Some(key("o/r", "unknown"));
    apply_resource_update(
        &mut state,
        docker_update(vec![busy_warn, critical, unknown], None),
    );
    let mut jobs = JobMap::new();
    jobs.insert(key("o/r", "busy-warn"), Some(job()));
    jobs.insert(key("o/r", "critical"), None);
    apply_jobs_update(
        &mut state,
        JobsUpdate {
            jobs,
            hosted: vec![],
            error: None,
        },
    );
    let tick = project_tick(&state, double(0.85), double(0.90), &mem_level);
    assert_eq!(tick.rows[0].load, Load::Busy);
    assert_eq!(tick.rows[0].mem_level, MemLevel::Warn);
    assert_eq!(tick.rows[0].job.as_ref().unwrap().workflow, "ci");
    assert_eq!(
        tick.rows[0].mem_hist,
        vec![MemSample {
            bytes: 86,
            limit: 100
        }]
    );
    assert_eq!(tick.rows[0].cpu_hist, vec![double(1.0)]);
    assert_eq!(tick.rows[1].load, Load::NearCap);
    assert_eq!(tick.rows[1].mem_level, MemLevel::Critical);
    assert!(tick.rows[1].job.is_none());
    assert_eq!(tick.rows[2].load, Load::Idle);
    assert_eq!(tick.rows[2].mem_level, MemLevel::Normal);
}

fn scoped_config() -> Config {
    Config {
        slice_cap_bytes: 7,
        warn_ratio: double(0.85),
        crit_ratio: double(0.90),
        prefix: "p".into(),
        configured_repos: vec!["o/r".into()],
        repos: vec!["stale/a".into(), "stale/b".into()],
        orgs: vec!["stale".into()],
    }
}

#[test]
fn spawn_gates_the_repo_column() {
    let (e, _) = Engine::spawn(scoped_config(), vec!["o/r".into(), "o/s".into()], vec![]);
    assert!(e.multi_repo);
    assert_eq!(e.slice_cap_bytes, 7);
    assert_eq!(e.warn_ratio, double(0.85));
    assert_eq!(e.crit_ratio, double(0.90));
    assert_eq!(e.prefix, "p");
    assert!(e.res_alive && e.jobs_alive && e.vercel_alive);
    // What the settings held before does not count, only the derived scopes do.
    assert!(!Engine::spawn(scoped_config(), vec!["o/r".into()], vec![]).0.multi_repo);
    assert!(!Engine::spawn(scoped_config(), vec![], vec![]).0.multi_repo);
}

#[test]
fn pollers_get_the_settings_with_the_derived_scopes() {
    let (_, cfg) = Engine::spawn(
        scoped_config(),
        vec!["o/r".into(), "o/s".into()],
        vec!["acme".into()],
    );
    assert_eq!(cfg.repos, vec!["o/r", "o/s"]);
    assert_eq!(cfg.orgs, vec!["acme"]);
    assert_eq!(cfg.configured_repos, vec!["o/r"]);
    assert_eq!(cfg.slice_cap_bytes, 7);
    assert_eq!(cfg.warn_ratio, double(0.85));
    assert_eq!(cfg.crit_ratio, double(0.90));
    assert_eq!(cfg.prefix, "p");
}

#[test]
fn recv_reports_each_outcome() {
    let mut e = engine();
    assert_eq!(
        e.recv(PollEvent::Resources(Some(docker_update(
            vec![resource("a", SourceKind::Docker)],
            None
        )))),
        RecvOutcome::Applied
    );
    assert_eq!(
        e.recv(PollEvent::Resources(Some(docker_update(
            vec![],
            Some("docker: x".into())
        )))),
        RecvOutcome::ErrorOnly
    );
    assert_eq!(
        e.recv(PollEvent::Resources(Some(native_update(
            vec![],
            Some("native: y".into())
        )))),
        RecvOutcome::Applied
    );
    assert_eq!(
        e.recv(PollEvent::Jobs(Some(JobsUpdate {
            jobs: JobMap::new(),
            hosted: vec![],
            error: Some("jobs: z".into()),
        }))),
        RecvOutcome::ErrorOnly
    );
    assert_eq!(
        e.recv(PollEvent::Vercel(Some(VercelUpdate {
            deployments: vec![]
        }))),
        RecvOutcome::Applied
    );
    let tick = e.tick(&mem_level);
    assert_eq!(tick.rows.len(), 1);
    assert_eq!(tick.errors, vec!["docker: x", "native: y", "jobs: z"]);
    assert_eq!(tick.slice_mem_hist, &[100]);
}

#[test]
fn closing_channels_ends_in_closed() {
    let mut e = engine();
    assert_eq!(e.recv(PollEvent::Jobs(None)), RecvOutcome::ErrorOnly);
    assert!(e.res_alive && !e.jobs_alive && e.vercel_alive);
    assert_eq!(e.recv(PollEvent::Vercel(None)), RecvOutcome::ErrorOnly);
    assert!(e.res_alive && !e.jobs_alive && !e.vercel_alive);
    assert_eq!(e.recv(PollEvent::Resources(None)), RecvOutcome::ErrorOnly);
    assert!(!e.res_alive && !e.jobs_alive && !e.vercel_alive);
    assert_eq!(e.recv(PollEvent::NoneArmed), RecvOutcome::Closed);
    assert_eq!(e.recv(PollEvent::NoneArmed), RecvOutcome::Closed);
}

#[test]
fn a_closing_channel_raises_a_banner_and_keeps_the_data() {
    let mut e = engine();
    e.recv(PollEvent::Resources(Some(docker_update(
        vec![resource("a", SourceKind::Docker)],
        None,
    ))));
    assert!(e.tick(&mem_level).errors.is_empty());
    assert_eq!(e.recv(PollEvent::Jobs(None)), RecvOutcome::ErrorOnly);
    assert_eq!(e.tick(&mem_level).errors, vec!["jobs: poller stopped"]);
    assert_eq!(e.recv(PollEvent::Resources(None)), RecvOutcome::ErrorOnly);
    assert_eq!(
        e.tick(&mem_level).errors,
        vec!["docker: resource pollers stopped", "jobs: poller stopped"]
    );
    // The deployments channel has no place among the banners.
    assert_eq!(e.recv(PollEvent::Vercel(None)), RecvOutcome::ErrorOnly);
    let tick = e.tick(&mem_level);
    assert_eq!(tick.errors.len(), 2);
    assert_eq!(tick.rows.len(), 1);
    assert_eq!(tick.slice_mem_hist, &[100]);
}

#[test]
fn a_closing_channel_keeps_the_banner_that_stands() {
    let mut e = engine();
    e.recv(PollEvent::Resources(Some(docker_update(
        vec![],
        Some("docker: x".into()),
    ))));
    e.recv(PollEvent::Jobs(Some(JobsUpdate {
        jobs: JobMap::new(),
        hosted: vec![],
        error: Some("jobs: z".into()),
    })));
    e.recv(PollEvent::Resources(None));
    e.recv(PollEvent::Jobs(None));
    assert_eq!(e.tick(&mem_level).errors, vec!["docker: x", "jobs: z"]);
}

#[test]
fn a_slice_total_that_overflows_is_seen_beforehand() {
    let mut a = resource("a", SourceKind::Docker);
    a.mem_bytes = u64::MAX;
    let fits = docker_update(vec![a.clone()], None);
    assert!(fits.check_fits());
    let too_much = docker_update(vec![a.clone(), resource("b", SourceKind::Docker)], None);
    assert!(!too_much.check_fits());
    let native = native_update(vec![a.clone(), a.clone()], None);
    assert!(native.check_fits());
    let failed = docker_update(vec![a.clone(), a], Some("docker: x".into()));
    assert!(failed.check_fits());
}
