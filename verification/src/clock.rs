//! Points in time and the rule that decides when an update is due.
use vstd::prelude::*;

verus! {

/// Nanoseconds in one second.
pub const NANOS_PER_SEC: u64 = 1_000_000_000;

/// A point in time at or after the Unix epoch, with nanosecond resolution.
///
/// Its view is the number of nanoseconds since the epoch.
#[derive(Clone, Copy, Debug)]
pub struct Timestamp {
    secs: u64,
    nanos: u32,
}

impl View for Timestamp {
    type V = nat;

    closed spec fn view(&self) -> nat {
        (self.secs * NANOS_PER_SEC + self.nanos) as nat
    }
}

/// Whether an update is due at `now` (nanoseconds since the epoch) when the
/// last one happened at `last` and updates are `interval` seconds apart.
pub open spec fn due(now: nat, last: nat, interval: nat, force: bool) -> bool {
    force || now - last >= interval * NANOS_PER_SEC
}

/// Whole seconds that still have to pass at `now` before the update after
/// `last` is due; zero once it is overdue.
pub open spec fn seconds_left(now: nat, last: nat, interval: nat) -> nat {
    let elapsed = (now - last) / (NANOS_PER_SEC as int);
    if elapsed >= interval {
        0
    } else {
        (interval - elapsed) as nat
    }
}

/// Whether the update after `last` has been missed at `now`: strictly more
/// whole seconds than `interval` have gone by.
pub open spec fn overdue(now: nat, last: nat, interval: nat) -> bool {
    (now - last) / (NANOS_PER_SEC as int) > interval
}

/// Time left until the next automatic update, split for display.
#[derive(Clone, Copy, Debug, PartialEq, Eq)]
pub struct Countdown {
    pub hours: usize,
    pub minutes: usize,
    pub seconds: usize,
    /// Whether the update has been missed: more than the interval has passed.
    pub missed: bool,
}

/// The countdown that shows `left` seconds.
pub open spec fn countdown_of(left: nat, missed: bool) -> Countdown {
    Countdown {
        hours: (left / 3600) as usize,
        minutes: ((left % 3600) / 60) as usize,
        seconds: (left % 60) as usize,
        missed,
    }
}

/// The countdown at `now` to the update that follows the one at `last`.
pub open spec fn countdown_at(now: nat, last: nat, interval: nat) -> Countdown {
    countdown_of(seconds_left(now, last, interval), overdue(now, last, interval))
}

impl Timestamp {
    #[verifier::type_invariant]
    spec fn in_range(self) -> bool {
        self.nanos < NANOS_PER_SEC
    }

    /// The Unix epoch.
    pub fn epoch() -> (t: Timestamp)
        ensures
            t@ == 0,
    {
        Timestamp { secs: 0, nanos: 0 }
    }

    /// The point `secs` seconds and `nanos` nanoseconds after the epoch, if
    /// `nanos` is a fraction of a second.
    pub fn new(secs: u64, nanos: u32) -> (t: Option<Timestamp>)
        ensures
            nanos >= NANOS_PER_SEC ==> t is None,
            nanos < NANOS_PER_SEC ==> t is Some && t.unwrap()@ == secs * NANOS_PER_SEC + nanos,
    {
        if nanos as u64 >= NANOS_PER_SEC {
            None
        } else {
            Some(Timestamp { secs, nanos })
        }
    }

    /// Whole seconds since the epoch.
    pub fn secs(&self) -> (s: u64)
        ensures
            s == self@ / (NANOS_PER_SEC as nat),
    {
        proof {
            use_type_invariant(self);
        }
        self.secs
    }

    /// The fraction of the current second, in nanoseconds.
    pub fn subsec_nanos(&self) -> (n: u32)
        ensures
            n == self@ % (NANOS_PER_SEC as nat),
            n < NANOS_PER_SEC,
    {
        proof {
            use_type_invariant(self);
        }
        self.nanos
    }

    fn total(&self) -> (n: u128)
        ensures
            n == self@,
    {
        self.secs as u128 * 1_000_000_000u128 + self.nanos as u128
    }

    /// Whether `self` lies strictly before `other`.
    pub fn precedes(&self, other: &Timestamp) -> (b: bool)
        ensures
            b == (self@ < other@),
    {
        self.total() < other.total()
    }

    /// Whether both name the same instant.
    pub fn same(&self, other: &Timestamp) -> (b: bool)
        ensures
            b == (self@ == other@),
    {
        self.total() == other.total()
    }
}

/// Decides whether an update is due at `now`: always when forced, otherwise
/// once `interval` seconds have passed since `last`.
pub fn is_due(now: Timestamp, last: Timestamp, interval: usize, force: bool) -> (d: bool)
    ensures
        d == due(now@, last@, interval as nat, force),
{
    if force {
        return true;
    }
    let n: u128 = now.total();
    let l: u128 = last.total();
    if n < l {
        false
    } else {
        n - l >= interval as u128 * 1_000_000_000u128
    }
}

/// Splits the time that is left at `now` until the update after `last`
/// into hours, minutes and seconds. There is no countdown where `now` lies
/// before `last`.
pub fn countdown(now: Timestamp, last: Timestamp, interval: usize) -> (c: Option<Countdown>)
    ensures
        c == if now@ < last@ {
            None
        } else {
            Some(countdown_at(now@, last@, interval as nat))
        },
{
    let n: u128 = now.total();
    let l: u128 = last.total();
    if n < l {
        return None;
    }
    let elapsed: u128 = (n - l) / 1_000_000_000u128;
    let span: u128 = interval as u128;
    let left: usize = if elapsed >= span {
        0
    } else {
        (span - elapsed) as usize
    };
    Some(
        Countdown {
            hours: left / 3600,
            minutes: (left % 3600) / 60,
            seconds: left % 60,
            missed: elapsed > span,
        },
    )
}

/// Splits an interval of `seconds` into whole hours and the whole minutes
/// beyond them.
pub fn hours_and_minutes(seconds: usize) -> (hm: (usize, usize))
    ensures
        hm.0 == seconds / 3600,
        hm.1 == (seconds % 3600) / 60,
{
    (seconds / 3600, (seconds % 3600) / 60)
}

/// Without force, an update is due exactly when at least `interval` seconds
/// have passed since the last one.
pub proof fn lemma_due_after_interval(now: nat, last: nat, interval: nat)
    requires
        interval > 0,
    ensures
        now - last >= interval * NANOS_PER_SEC ==> due(now, last, interval, false),
        now - last < interval * NANOS_PER_SEC ==> !due(now, last, interval, false),
{
}

/// A forced update is always due.
pub proof fn lemma_force_always_due(now: nat, last: nat, interval: nat)
    ensures
        due(now, last, interval, true),
{
}

} // verus!
