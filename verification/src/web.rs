//! The portal's decisions: where it listens, and when its snapshot is renewed.

use crate::app::{text, tick_of, Engine, RecvOutcome};
use crate::model::{
    all_answered, answered, docker_total, lemma_joined_total, reads_levels, Bits64, MemLevel,
};
use crate::snapshot::{snapshot_at, Snapshot, SnapshotView};
use crate::time::Timestamp;
use vstd::prelude::*;

verus! {

/// The port where no usable one is configured.
pub const DEFAULT_PORT: u16 = 8787;

/// Where the portal listens.
#[derive(Clone, Copy, Debug)]
pub struct PortalAddr {
    pub host: [u8; 4],
    pub port: u16,
}

/// The characters with the Unicode property `White_Space`.
pub open spec fn is_white_space(c: char) -> bool {
    ||| '\u{9}' <= c <= '\u{d}'
    ||| c == ' '
    ||| c == '\u{85}'
    ||| c == '\u{a0}'
    ||| c == '\u{1680}'
    ||| '\u{2000}' <= c <= '\u{200a}'
    ||| c == '\u{2028}'
    ||| c == '\u{2029}'
    ||| c == '\u{202f}'
    ||| c == '\u{205f}'
    ||| c == '\u{3000}'
}

/// `s` without the white space that it starts with.
pub open spec fn trimmed_start(s: Seq<char>) -> Seq<char>
    decreases s.len(),
{
    if s.len() > 0 && is_white_space(s[0]) {
        trimmed_start(s.drop_first())
    } else {
        s
    }
}

/// `s` without the white space that it ends with.
pub open spec fn trimmed_end(s: Seq<char>) -> Seq<char>
    decreases s.len(),
{
    if s.len() > 0 && is_white_space(s.last()) {
        trimmed_end(s.drop_last())
    } else {
        s
    }
}

/// `s` without the white space around it.
pub open spec fn trimmed(s: Seq<char>) -> Seq<char> {
    trimmed_end(trimmed_start(s))
}

/// `str::trim` of the standard library. Believed of it: it removes the leading and
/// the trailing characters with the Unicode property `White_Space`.
pub assume_specification[ str::trim ](s: &str) -> (r: &str)
    ensures
        r@ == trimmed(s@),
;

/// A decimal digit.
pub open spec fn is_digit(c: char) -> bool {
    '0' <= c <= '9'
}

/// The number that the digits `s` write.
pub open spec fn digits_value(s: Seq<char>) -> nat
    decreases s.len(),
{
    if s.len() == 0 {
        0
    } else {
        10 * digits_value(s.drop_last()) + (s.last() as nat - '0' as nat) as nat
    }
}

/// `s` without the plus sign that it may start with.
pub open spec fn unsigned_part(s: Seq<char>) -> Seq<char> {
    if s.len() > 0 && s[0] == '+' {
        s.drop_first()
    } else {
        s
    }
}

/// `s` writes a number from 0 to 65535: digits, at least one, perhaps after a plus
/// sign.
pub open spec fn writes_u16(s: Seq<char>) -> bool {
    let digits = unsigned_part(s);
    &&& digits.len() > 0
    &&& forall|i: int| 0 <= i < digits.len() ==> is_digit(#[trigger] digits[i])
    &&& digits_value(digits) <= u16::MAX
}

/// Calls `str::parse::<u16>` of the standard library. Believed of it: it accepts an
/// optional plus sign before one or more decimal digits and nothing else, answers
/// the number they write, and refuses one above 65535.
#[verifier::external_body]
fn parse_u16(s: &str) -> (r: Option<u16>)
    ensures
        r is Some <==> writes_u16(s@),
        r matches Some(n) ==> n == digits_value(unsigned_part(s@)),
{
    s.parse::<u16>().ok()
}

/// `s`, trimmed, writes a port to listen on: any but 0.
pub open spec fn writes_port(s: Seq<char>) -> bool {
    writes_u16(trimmed(s)) && digits_value(unsigned_part(trimmed(s))) != 0
}

/// The port that the configured value `var` asks for; the default where there is
/// none, or none that can be used.
pub open spec fn port_of(var: Option<Seq<char>>) -> nat {
    match var {
        Some(s) => if writes_port(s) {
            digits_value(unsigned_part(trimmed(s)))
        } else {
            DEFAULT_PORT as nat
        },
        None => DEFAULT_PORT as nat,
    }
}

/// Where to listen, given the value of the environment variable for the port. On
/// the loopback interface only: who may reach the portal is decided elsewhere.
pub fn addr_from_env(var: Option<String>) -> (r: PortalAddr)
    ensures
        r.host@ == seq![127u8, 0, 0, 1],
        r.port == port_of(text(var)),
        r.port != 0,
{
    let asked = match &var {
        Some(s) => parse_u16(s.as_str().trim()),
        None => None,
    };
    let port = match asked {
        Some(p) => if p != 0 {
            p
        } else {
            DEFAULT_PORT
        },
        None => DEFAULT_PORT,
    };
    let host: [u8; 4] = [127, 0, 0, 1];
    assert(host@ =~= seq![127u8, 0, 0, 1]);
    PortalAddr { host, port }
}

/// What the portal shows of `engine` as of `now`.
pub open spec fn portal_of<L: Fn(u64, u64, Bits64, Bits64) -> MemLevel>(
    engine: Engine,
    level_of: L,
    now: int,
) -> SnapshotView {
    snapshot_at(
        tick_of(engine.state@, engine.warn_ratio, engine.crit_ratio, level_of),
        engine.slice_cap_bytes,
        engine.warn_ratio,
        engine.crit_ratio,
        level_of,
        now,
    )
}

/// `level_of` did answer for each runner of `engine` and for its slice.
pub open spec fn levels_answered<L: Fn(u64, u64, Bits64, Bits64) -> MemLevel>(
    engine: Engine,
    level_of: L,
) -> bool {
    &&& all_answered(level_of, engine.state@.runners(), engine.warn_ratio, engine.crit_ratio)
    &&& answered(
        level_of,
        docker_total(engine.state@.runners()) as u64,
        engine.slice_cap_bytes,
        engine.warn_ratio,
        engine.crit_ratio,
    )
}

/// The snapshot of the engine's current tick, as of `now`.
pub fn project<L: Fn(u64, u64, Bits64, Bits64) -> MemLevel>(
    engine: &Engine,
    level_of: &L,
    now: Timestamp,
) -> (r: Snapshot)
    requires
        reads_levels(*level_of),
        docker_total(engine.state@.runners()) <= u64::MAX,
    ensures
        r@ == portal_of(*engine, *level_of, now@),
        levels_answered(*engine, *level_of),
{
    let tick = engine.tick(level_of);
    proof {
        lemma_joined_total(
            engine.state@.runners(),
            engine.state@.jobs,
            engine.state@.history,
            engine.warn_ratio,
            engine.crit_ratio,
            *level_of,
        );
    }
    Snapshot::from_tick(
        &tick,
        engine.slice_cap_bytes,
        engine.warn_ratio,
        engine.crit_ratio,
        level_of,
        now,
    )
}

/// What the refresh task does next.
#[derive(Clone, Copy, Debug)]
pub enum RefreshAction {
    /// Publish a snapshot as of this time.
    Publish(Timestamp),
    /// Stop; the last snapshot stays.
    Stop,
}

/// The refresh task's memory: when data was last applied.
#[derive(Clone, Copy, Debug)]
pub struct Refresh {
    pub last_applied_at: Timestamp,
}

/// When data was last applied, after `outcome` at `now`.
pub open spec fn applied_at_after(last: int, outcome: RecvOutcome, now: int) -> int {
    if outcome == RecvOutcome::Applied {
        now
    } else {
        last
    }
}

/// The first snapshot to serve, and the refresh task that goes on from it: one
/// reading of the clock dates both.
pub fn seed<L: Fn(u64, u64, Bits64, Bits64) -> MemLevel>(
    engine: &Engine,
    level_of: &L,
    now: Timestamp,
) -> (r: (Snapshot, Refresh))
    requires
        reads_levels(*level_of),
        docker_total(engine.state@.runners()) <= u64::MAX,
    ensures
        r.0@ == portal_of(*engine, *level_of, now@),
        levels_answered(*engine, *level_of),
        r.1.last_applied_at@ == now@,
{
    (project(engine, level_of, now), Refresh::new(now))
}

impl Refresh {
    pub fn new(now: Timestamp) -> (r: Refresh)
        ensures
            r.last_applied_at@ == now@,
    {
        Refresh { last_applied_at: now }
    }

    /// Takes in what the engine made of a report, at time `now`. A report that only
    /// raised a banner is published as of the last applied one, so that the data
    /// does not look fresher than it is.
    pub fn step(&mut self, outcome: RecvOutcome, now: Timestamp) -> (action: RefreshAction)
        ensures
            final(self).last_applied_at@ == applied_at_after(
                old(self).last_applied_at@,
                outcome,
                now@,
            ),
            match action {
                RefreshAction::Stop => outcome == RecvOutcome::Closed,
                RefreshAction::Publish(at) => {
                    outcome != RecvOutcome::Closed && at@ == final(self).last_applied_at@
                },
            },
            outcome == RecvOutcome::Applied ==> final(self).last_applied_at@ == now@,
            outcome != RecvOutcome::Applied ==> final(self).last_applied_at@ == old(
                self,
            ).last_applied_at@,
    {
        match outcome {
            RecvOutcome::Closed => RefreshAction::Stop,
            RecvOutcome::Applied => {
                self.last_applied_at = now;
                RefreshAction::Publish(now)
            },
            RecvOutcome::ErrorOnly => RefreshAction::Publish(self.last_applied_at),
        }
    }
}

} // verus!
