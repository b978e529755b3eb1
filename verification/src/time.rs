//! Points in time as plain numbers.

use vstd::prelude::*;

verus! {

/// Nanoseconds in a second.
pub const NANOS_PER_SEC: u32 = 1_000_000_000;

/// A point in time: whole seconds since the Unix epoch, negative before it, and
/// the nanoseconds past that second.
#[derive(Clone, Copy, Debug)]
pub struct Timestamp {
    secs: i64,
    nanos: u32,
}

impl View for Timestamp {
    type V = int;

    /// Nanoseconds since the Unix epoch.
    closed spec fn view(&self) -> int {
        self.secs * NANOS_PER_SEC + self.nanos
    }
}

impl Timestamp {
    #[verifier::type_invariant]
    spec fn normalized(self) -> bool {
        self.nanos < NANOS_PER_SEC
    }

    /// The point `nanos` nanoseconds after second `secs`; `None` when `nanos` is a
    /// second or more.
    pub fn new(secs: i64, nanos: u32) -> (r: Option<Timestamp>)
        ensures
            r is Some <==> nanos < NANOS_PER_SEC,
            r matches Some(t) ==> t@ == secs * NANOS_PER_SEC + nanos,
            r is Some <==> nanos < 1_000_000_000,
            r matches Some(t) ==> t@ == secs * 1_000_000_000 + nanos,
    {
        if nanos < NANOS_PER_SEC {
            Some(Timestamp { secs, nanos })
        } else {
            None
        }
    }
}

/// Whole seconds from `since` to `now`, both in nanoseconds; zero when `since` is
/// the later one.
pub open spec fn secs_between(since: int, now: int) -> int {
    if now < since {
        0
    } else {
        (now - since) / NANOS_PER_SEC as int
    }
}

/// Whole seconds since the Unix epoch; zero for a time before it.
pub fn epoch_secs(t: Timestamp) -> (r: u64)
    ensures
        r == secs_between(0, t@),
{
    proof {
        use_type_invariant(&t);
    }
    if t.secs < 0 {
        0
    } else {
        t.secs as u64
    }
}

/// Whole seconds from `since` to `now`; zero when the clock reads earlier than
/// `since`.
pub fn elapsed_secs(since: Timestamp, now: Timestamp) -> (r: u64)
    ensures
        r == secs_between(since@, now@),
{
    proof {
        use_type_invariant(&since);
        use_type_invariant(&now);
    }
    let whole: i128 = now.secs as i128 - since.secs as i128;
    let secs: i128 = if now.nanos < since.nanos {
        whole - 1
    } else {
        whole
    };
    if secs < 0 {
        0
    } else {
        secs as u64
    }
}

/// Elapsed time never runs backwards while the clock does not.
pub proof fn law_elapsed_is_monotone(since: int, now: int, later: int)
    requires
        now <= later,
    ensures
        0 <= secs_between(since, now) <= secs_between(since, later),
{
}

} // verus!
