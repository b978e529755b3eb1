//! The terminal frontend's decisions: which keys quit, when its loop ends, and
//! what it draws.

use crate::app::{text, Engine, RecvOutcome, Tick, TickView};
use crate::model::{row_views, Bits64, Deployment, HostedJob, RunnerRow};
use crate::time::Timestamp;
use vstd::prelude::*;

verus! {

/// What happened to a key.
#[derive(Clone, Copy, Debug, PartialEq, Eq, Structural)]
pub enum KeyEventKind {
    Press,
    Repeat,
    Release,
}

/// Which key it was.
#[derive(Clone, Copy, Debug, PartialEq, Eq)]
pub enum KeyCode {
    Char(char),
    Esc,
    /// A key that the monitor has no use for.
    Other,
}

/// A key event of the terminal.
#[derive(Clone, Copy, Debug, PartialEq, Eq)]
pub struct KeyEvent {
    pub code: KeyCode,
    /// The modifier keys held down, as the bits of `crossterm`'s `KeyModifiers`.
    pub modifiers: u8,
    pub kind: KeyEventKind,
}

/// Control is among the modifiers.
pub open spec fn control_held(modifiers: u8) -> bool {
    modifiers & 0b10u8 == 0b10u8
}

/// Calls `contains` of `crossterm::event::KeyModifiers` on the flags with these
/// bits, for the flag `CONTROL`. Believed of it: the answer is whether the bit of
/// `CONTROL`, the second lowest, is set, whatever the other bits are.
#[verifier::external_body]
fn contains_control(modifiers: u8) -> (r: bool)
    ensures
        r == control_held(modifiers),
{
    crossterm::event::KeyModifiers::from_bits_retain(modifiers).contains(
        crossterm::event::KeyModifiers::CONTROL,
    )
}

/// The key asks to leave: a press of `q`, of escape, or of `c` with control.
pub open spec fn quits(key: KeyEvent) -> bool {
    &&& key.kind == KeyEventKind::Press
    &&& {
        ||| key.code == KeyCode::Char('q')
        ||| key.code == KeyCode::Esc
        ||| control_held(key.modifiers) && key.code == KeyCode::Char('c')
    }
}

/// Whether the key asks to leave.
pub fn is_quit(key: &KeyEvent) -> (r: bool)
    ensures
        r == quits(*key),
        r <==> key.kind == KeyEventKind::Press && (key.code == KeyCode::Char('q') || key.code
            == KeyCode::Esc || (key.code == KeyCode::Char('c') && key.modifiers & 0b10u8
            == 0b10u8)),
        key.code == KeyCode::Other ==> !r,
{
    match key.kind {
        KeyEventKind::Press => match key.code {
            KeyCode::Char(c) => c == 'q' || (contains_control(key.modifiers) && c == 'c'),
            KeyCode::Esc => true,
            KeyCode::Other => false,
        },
        _ => false,
    }
}

/// What wakes the terminal loop.
#[derive(Clone, Copy, Debug)]
pub enum LoopEvent {
    Key(KeyEvent),
    /// Input that is no key: a resize, the mouse, a paste.
    OtherInput,
    /// The terminal could not be read this time.
    InputError,
    /// The input stream ended.
    InputClosed,
    /// The engine took in a report.
    Engine(RecvOutcome),
    /// The redraw timer.
    Timer,
}

/// What the terminal loop does next.
#[derive(Clone, Copy, Debug, PartialEq, Eq, Structural)]
pub enum LoopAction {
    Draw,
    Quit,
}

/// The terminal loop's memory: whether the engine is still waited for. Waiting for
/// an engine that is closed would return at once, every time.
#[derive(Clone, Copy, Debug)]
pub struct RunLoop {
    pub engine_alive: bool,
}

/// What the loop does at `event`.
pub open spec fn loop_action(event: LoopEvent) -> LoopAction {
    match event {
        LoopEvent::Key(key) => if quits(key) {
            LoopAction::Quit
        } else {
            LoopAction::Draw
        },
        LoopEvent::InputClosed => LoopAction::Quit,
        _ => LoopAction::Draw,
    }
}

/// Whether the engine is waited for after `event`.
pub open spec fn engine_alive_after(alive: bool, event: LoopEvent) -> bool {
    alive && event != LoopEvent::Engine(RecvOutcome::Closed)
}

impl RunLoop {
    pub fn new() -> (r: RunLoop)
        ensures
            r.engine_alive,
    {
        RunLoop { engine_alive: true }
    }

    /// Takes in one event and says what to do.
    pub fn step(&mut self, event: LoopEvent) -> (action: LoopAction)
        ensures
            action == loop_action(event),
            final(self).engine_alive == engine_alive_after(old(self).engine_alive, event),
            event == LoopEvent::Engine(RecvOutcome::Closed) ==> !final(self).engine_alive,
            event != LoopEvent::Engine(RecvOutcome::Closed) ==> final(self).engine_alive == old(
                self,
            ).engine_alive,
            match event {
                LoopEvent::InputClosed => action == LoopAction::Quit,
                LoopEvent::Key(key) => action == LoopAction::Quit <==> key.kind
                    == KeyEventKind::Press && (key.code == KeyCode::Char('q') || key.code
                    == KeyCode::Esc || (key.code == KeyCode::Char('c') && key.modifiers & 0b10u8
                    == 0b10u8)),
                LoopEvent::OtherInput
                | LoopEvent::InputError
                | LoopEvent::Engine(_)
                | LoopEvent::Timer => action == LoopAction::Draw,
            },
    {
        match event {
            LoopEvent::Key(key) => if is_quit(&key) {
                LoopAction::Quit
            } else {
                LoopAction::Draw
            },
            LoopEvent::InputClosed => LoopAction::Quit,
            LoopEvent::Engine(outcome) => {
                if outcome == RecvOutcome::Closed {
                    self.engine_alive = false;
                }
                LoopAction::Draw
            },
            LoopEvent::OtherInput | LoopEvent::InputError | LoopEvent::Timer => LoopAction::Draw,
        }
    }
}

/// Everything that one frame shows.
#[derive(Debug)]
pub struct Screen<'a> {
    pub rows: &'a Vec<RunnerRow>,
    pub slice_cap_bytes: u64,
    pub slice_mem_hist: &'a [u64],
    pub now: Timestamp,
    /// The banner, if a source is failing.
    pub status: Option<String>,
    pub prefix: &'a String,
    pub matched_seen: usize,
    pub unmatched_seen: usize,
    pub warn_ratio: Bits64,
    pub crit_ratio: Bits64,
    pub hosted: &'a [HostedJob],
    pub multi_repo: bool,
    pub deployments: &'a [Deployment],
}

/// The one banner that fits the screen: the first.
pub open spec fn status_of(tick: TickView) -> Option<Seq<char>> {
    if tick.errors.len() == 0 {
        None
    } else {
        Some(tick.errors[0])
    }
}

/// The frame for `tick`.
pub fn draw<'a>(engine: &'a Engine, tick: &'a Tick<'a>, now: Timestamp) -> (r: Screen<'a>)
    ensures
        row_views(r.rows@) == tick@.rows,
        r.slice_cap_bytes == engine.slice_cap_bytes,
        r.slice_mem_hist@ == tick@.slice_mem_hist,
        r.now@ == now@,
        text(r.status) == status_of(tick@),
        r.prefix@ == engine.prefix@,
        r.matched_seen == tick@.matched_seen,
        r.unmatched_seen == tick@.unmatched_seen,
        r.warn_ratio == engine.warn_ratio,
        r.crit_ratio == engine.crit_ratio,
        r.hosted@ == tick@.hosted,
        r.multi_repo == engine.multi_repo,
        r.deployments@ == tick@.deployments,
        r.rows@ == tick.rows@,
        r.slice_mem_hist@ == tick.slice_mem_hist@,
        r.status is Some <==> tick.errors@.len() > 0,
        r.status matches Some(status) ==> status@ == tick.errors@[0]@,
        r.matched_seen == tick.matched_seen,
        r.unmatched_seen == tick.unmatched_seen,
        r.hosted@ == tick.hosted@,
        r.deployments@ == tick.deployments@,
{
    let status = if tick.errors.len() == 0 {
        None
    } else {
        Some(tick.errors[0].clone())
    };
    Screen {
        rows: &tick.rows,
        slice_cap_bytes: engine.slice_cap_bytes,
        slice_mem_hist: tick.slice_mem_hist,
        now,
        status,
        prefix: &engine.prefix,
        matched_seen: tick.matched_seen,
        unmatched_seen: tick.unmatched_seen,
        warn_ratio: engine.warn_ratio,
        crit_ratio: engine.crit_ratio,
        hosted: tick.hosted,
        multi_repo: engine.multi_repo,
        deployments: tick.deployments,
    }
}

} // verus!
