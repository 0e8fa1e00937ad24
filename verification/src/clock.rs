//! The local clock: today's date, the present instant, and deadlines.

use crate::calendar::{is_calendar_date, ymd, CivilDate};
use chrono::Datelike;
use vstd::prelude::*;

verus! {

/// The number of nanoseconds in a second.
pub const NANOS_PER_SECOND: u32 = 1_000_000_000;

/// The instant `seconds` whole seconds and `nanos` nanoseconds after the
/// start of 1970 (UTC), in nanoseconds.
pub open spec fn instant(seconds: int, nanos: int) -> int {
    seconds * NANOS_PER_SECOND + nanos
}

/// Reads the system clock once with `chrono::Local::now`, and hands out the
/// local date (`date_naive`, then `year`, `month`, `day`) and the instant
/// (`timestamp`, `timestamp_subsec_nanos`).
///
/// Trusted: the date that chrono gives is a day of the calendar in a year it
/// can represent, and the clock's fraction of a second is below one second.
/// Nothing is claimed of which day or instant it is. chrono panics where the
/// system clock stands before 1970 or beyond the years it can represent.
#[verifier::external_body]
fn read_local_clock() -> (reading: ((i32, u32, u32), (i64, u32)))
    ensures
        is_calendar_date(ymd(reading.0.0 as int, reading.0.1 as int, reading.0.2 as int)),
        reading.1.1 < NANOS_PER_SECOND,
{
    let now = chrono::Local::now();
    let date = now.date_naive();
    ((date.year(), date.month(), date.day()), (now.timestamp(), now.timestamp_subsec_nanos()))
}

/// A reading of the clock: `nanos` nanoseconds after the whole second
/// `seconds`, counted from the start of 1970 (UTC).
#[derive(Clone, Copy, Debug, PartialEq, Eq)]
pub struct Timestamp {
    seconds: i64,
    nanos: u32,
}

impl View for Timestamp {
    type V = int;

    closed spec fn view(&self) -> int {
        instant(self.seconds as int, self.nanos as int)
    }
}

impl Timestamp {
    #[verifier::type_invariant]
    spec fn well_formed(self) -> bool {
        self.nanos < NANOS_PER_SECOND
    }

    /// The reading with the given seconds and nanoseconds, if the nanoseconds
    /// are less than a second.
    pub fn new(seconds: i64, nanos: u32) -> (made: Option<Timestamp>)
        ensures
            made is Some <==> nanos < NANOS_PER_SECOND,
            made matches Some(t) ==> t@ == instant(seconds as int, nanos as int),
    {
        if nanos < NANOS_PER_SECOND {
            Some(Timestamp { seconds, nanos })
        } else {
            None
        }
    }

    /// The whole seconds of the reading.
    pub fn seconds(&self) -> (seconds: i64)
        ensures
            seconds as int == self@ / (NANOS_PER_SECOND as int),
    {
        proof {
            use_type_invariant(self);
        }
        self.seconds
    }

    /// The nanoseconds after the whole second.
    pub fn subsec_nanos(&self) -> (nanos: u32)
        ensures
            nanos as int == self@ % (NANOS_PER_SECOND as int),
    {
        proof {
            use_type_invariant(self);
        }
        self.nanos
    }
}

/// An instant at which something falls due.
#[derive(Clone, Copy, Debug, PartialEq, Eq)]
pub struct Deadline {
    seconds: i128,
    nanos: u32,
}

impl View for Deadline {
    type V = int;

    closed spec fn view(&self) -> int {
        instant(self.seconds as int, self.nanos as int)
    }
}

impl Deadline {
    #[verifier::type_invariant]
    spec fn well_formed(self) -> bool {
        self.nanos < NANOS_PER_SECOND
    }

    /// The deadline `seconds` seconds after `start`; before it, if `seconds`
    /// is negative.
    pub closed spec fn due_after(start: Timestamp, seconds: i64) -> Deadline {
        Deadline { seconds: (start.seconds + seconds) as i128, nanos: start.nanos }
    }

    /// Whether the deadline is reached at `now`: whether `now` is not before it.
    pub open spec fn is_reached(self, now: Timestamp) -> bool {
        self@ <= now@
    }

    /// A deadline lies exactly as many seconds after its start as it was given.
    pub proof fn lemma_due_after(start: Timestamp, seconds: i64)
        ensures
            Deadline::due_after(start, seconds)@ == start@ + seconds * NANOS_PER_SECOND,
    {
        let due = Deadline::due_after(start, seconds);
        assert(due@ == start@ + seconds * NANOS_PER_SECOND) by (nonlinear_arith)
            requires
                due@ == (start.seconds + seconds) * NANOS_PER_SECOND + start.nanos,
                start@ == start.seconds * NANOS_PER_SECOND + start.nanos,
        ;
    }

    /// The deadline `seconds` seconds after `start`; before it, if `seconds`
    /// is negative.
    pub fn after(start: Timestamp, seconds: i64) -> (deadline: Deadline)
        ensures
            deadline == Deadline::due_after(start, seconds),
            deadline@ == start@ + seconds * NANOS_PER_SECOND,
    {
        proof {
            use_type_invariant(start);
            Deadline::lemma_due_after(start, seconds);
        }
        Deadline { seconds: start.seconds as i128 + seconds as i128, nanos: start.nanos }
    }

    /// Whether the deadline is reached at `now`: whether `now` is not before it.
    pub fn has_passed(&self, now: Timestamp) -> (passed: bool)
        ensures
            passed == self.is_reached(now),
    {
        proof {
            use_type_invariant(self);
            use_type_invariant(now);
        }
        let now_seconds = now.seconds as i128;
        self.seconds < now_seconds || (self.seconds == now_seconds && self.nanos <= now.nanos)
    }
}

/// The local date that the system clock shows.
pub fn today() -> (date: CivilDate)
    ensures
        is_calendar_date(date@),
{
    let ((year, month, day), _) = read_local_clock();
    CivilDate::from_parts(year, month, day)
}

/// The instant that the system clock shows.
pub fn now() -> Timestamp {
    let (_, (seconds, nanos)) = read_local_clock();
    Timestamp { seconds, nanos }
}

} // verus!
