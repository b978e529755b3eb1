use pitwall::app::{Config, Engine, RecvOutcome, Tick};
use pitwall::model::Bits64;
use pitwall::time::{epoch_secs, Timestamp};
use pitwall::tui::{
    draw, is_quit, KeyCode, KeyEvent, KeyEventKind, LoopAction, LoopEvent, RunLoop,
};
use pitwall::web::{addr_from_env, Refresh, RefreshAction, DEFAULT_PORT};

fn at(secs: i64) -> Timestamp {
    Timestamp::new(secs, 0).unwrap()
}

fn port(var: &str) -> u16 {
    addr_from_env(Some(var.to_string())).port
}

fn press(code: KeyCode, modifiers: u8) -> KeyEvent {
    KeyEvent {
        code,
        modifiers,
        kind: KeyEventKind::Press,
    }
}

fn ctrl() -> u8 {
    crossterm::event::KeyModifiers::CONTROL.bits()
}

fn shift() -> u8 {
    crossterm::event::KeyModifiers::SHIFT.bits()
}

#[test]
fn addr_defaults_to_loopback_8787() {
    // The variable is not set; the default must be 127.0.0.1:8787.
    let addr = addr_from_env(None);
    let [a, b, c, d] = addr.host;
    assert_eq!(format!("{a}.{b}.{c}.{d}"), "127.0.0.1");
    assert_eq!(addr.port, DEFAULT_PORT);
    assert_eq!(addr.port, 8787);
}

#[test]
fn port_is_trimmed_and_parsed() {
    assert_eq!(port("9000"), 9000);
    assert_eq!(port("  9000\n"), 9000);
    assert_eq!(port("\u{3000}9000\u{85}"), 9000);
    assert_eq!(port("+80"), 80);
    assert_eq!(port("0080"), 80);
    assert_eq!(port("65535"), 65535);
}

#[test]
fn unusable_ports_fall_back() {
    for var in [
        "", " ", "0", "00", "65536", "-1", "-0", "+", "++1", "80a", "8 0", "8_0", "0x50", "\u{663}",
        "\u{200b}80",
    ] {
        assert_eq!(port(var), DEFAULT_PORT, "{var:?}");
    }
    assert_eq!(addr_from_env(Some("nonsense".to_string())).host, [127, 0, 0, 1]);
}

#[test]
fn quit_keys() {
    assert!(is_quit(&press(KeyCode::Char('q'), 0)));
    assert!(is_quit(&press(KeyCode::Char('q'), shift())));
    assert!(is_quit(&press(KeyCode::Esc, 0)));
    assert!(is_quit(&press(KeyCode::Char('c'), ctrl())));
    assert!(is_quit(&press(KeyCode::Char('c'), ctrl() | shift())));
}

#[test]
fn other_keys_do_not_quit() {
    assert!(!is_quit(&press(KeyCode::Char('c'), 0)));
    assert!(!is_quit(&press(KeyCode::Char('c'), shift())));
    assert!(!is_quit(&press(KeyCode::Char('c'), 0xff ^ ctrl())));
    assert!(!is_quit(&press(KeyCode::Char('Q'), 0)));
    assert!(!is_quit(&press(KeyCode::Char('x'), ctrl())));
    assert!(!is_quit(&press(KeyCode::Other, ctrl())));
    for kind in [KeyEventKind::Release, KeyEventKind::Repeat] {
        assert!(!is_quit(&KeyEvent {
            code: KeyCode::Char('q'),
            modifiers: 0,
            kind,
        }));
    }
}

#[test]
fn loop_quits_on_quit_key_and_closed_input_only() {
    let mut l = RunLoop::new();
    let quit = LoopEvent::Key(press(KeyCode::Char('q'), 0));
    let other = LoopEvent::Key(press(KeyCode::Char('x'), 0));
    assert_eq!(l.step(other), LoopAction::Draw);
    assert_eq!(l.step(LoopEvent::OtherInput), LoopAction::Draw);
    assert_eq!(l.step(LoopEvent::InputError), LoopAction::Draw);
    assert_eq!(l.step(LoopEvent::Timer), LoopAction::Draw);
    assert_eq!(l.step(LoopEvent::Engine(RecvOutcome::Closed)), LoopAction::Draw);
    assert_eq!(l.step(quit), LoopAction::Quit);
    assert_eq!(RunLoop::new().step(LoopEvent::InputClosed), LoopAction::Quit);
}

#[test]
fn a_closed_engine_is_not_waited_for_again() {
    let mut l = RunLoop::new();
    l.step(LoopEvent::Engine(RecvOutcome::ErrorOnly));
    l.step(LoopEvent::Engine(RecvOutcome::Applied));
    assert!(l.engine_alive);
    l.step(LoopEvent::Engine(RecvOutcome::Closed));
    assert!(!l.engine_alive);
    l.step(LoopEvent::Timer);
    assert!(!l.engine_alive);
}

#[test]
fn refresh_dates_by_the_last_applied_report() {
    let mut r = Refresh::new(at(10));
    let date = |action: RefreshAction| match action {
        RefreshAction::Publish(t) => Some(epoch_secs(t)),
        RefreshAction::Stop => None,
    };
    assert_eq!(date(r.step(RecvOutcome::ErrorOnly, at(11))), Some(10));
    assert_eq!(date(r.step(RecvOutcome::Applied, at(12))), Some(12));
    assert_eq!(date(r.step(RecvOutcome::ErrorOnly, at(13))), Some(12));
    assert_eq!(date(r.step(RecvOutcome::Closed, at(14))), None);
    assert_eq!(epoch_secs(r.last_applied_at), 12);
}

#[test]
fn frame_shows_the_first_banner_and_the_settings() {
    let cfg = Config {
        slice_cap_bytes: 7,
        warn_ratio: Bits64 { bits: 1 },
        crit_ratio: Bits64 { bits: 2 },
        prefix: "p".into(),
        configured_repos: vec![],
        repos: vec![],
        orgs: vec![],
    };
    let (e, _) = Engine::spawn(cfg, vec!["o/r".into(), "o/s".into()], vec![]);
    let tick = Tick {
        rows: vec![],
        errors: vec!["native: y".into(), "jobs: z".into()],
        slice_mem_hist: &[3],
        matched_seen: 4,
        unmatched_seen: 5,
        hosted: &[],
        deployments: &[],
    };
    let frame = draw(&e, &tick, at(9));
    assert_eq!(frame.status.as_deref(), Some("native: y"));
    assert_eq!(frame.slice_cap_bytes, 7);
    assert_eq!(frame.prefix, "p");
    assert!(frame.multi_repo);
    assert_eq!((frame.matched_seen, frame.unmatched_seen), (4, 5));
    assert_eq!(frame.slice_mem_hist, &[3]);
    assert_eq!(frame.warn_ratio.bits, 1);
    assert_eq!(frame.crit_ratio.bits, 2);
    assert_eq!(epoch_secs(frame.now), 9);

    let quiet = Tick {
        errors: vec![],
        ..tick
    };
    assert_eq!(draw(&e, &quiet, at(9)).status, None);
}
