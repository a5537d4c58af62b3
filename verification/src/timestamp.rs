//! Instants on the UTC time line, counted in nanoseconds from the Unix epoch.

use vstd::prelude::*;

verus! {

/// Seconds from the epoch to the first instant of the proleptic Gregorian
/// year -262143, the earliest a timestamp can name.
pub const MIN_TIMESTAMP_SECS: i64 = -8_334_601_228_800;

/// Seconds from the epoch to the last whole second of the year 262142, the
/// latest a timestamp can name.
pub const MAX_TIMESTAMP_SECS: i64 = 8_210_266_876_799;

/// Nanoseconds in one second.
pub const NANOS_PER_SEC: u32 = 1_000_000_000;

/// Nanoseconds in one millisecond.
pub const NANOS_PER_MILLI: u32 = 1_000_000;

/// Whether whole seconds and a sub-second part name an instant in range.
pub open spec fn instant_in_range(secs: int, nanos: int) -> bool {
    &&& MIN_TIMESTAMP_SECS <= secs <= MAX_TIMESTAMP_SECS
    &&& 0 <= nanos < NANOS_PER_SEC
}

/// The instant, in nanoseconds from the epoch, that whole seconds and a
/// sub-second part name.
pub open spec fn instant_nanos(secs: int, nanos: int) -> int {
    secs * NANOS_PER_SEC + nanos
}

/// Whole milliseconds in a span of nanoseconds, rounded towards zero.
pub open spec fn whole_millis(span: int) -> int {
    if span >= 0 {
        span / (NANOS_PER_MILLI as int)
    } else {
        -((-span) / (NANOS_PER_MILLI as int))
    }
}

/// An instant in UTC with nanosecond resolution.
///
/// Its model is the number of nanoseconds between the Unix epoch and the
/// instant, negative before the epoch.
#[derive(Clone, Copy, Debug, PartialEq, Eq)]
pub struct Timestamp {
    secs: i64,
    nanos: u32,
}

impl View for Timestamp {
    type V = int;

    closed spec fn view(&self) -> int {
        instant_nanos(self.secs as int, self.nanos as int)
    }
}

/// Reads the system clock through `chrono::Utc::now` and hands back the
/// reading's `timestamp()` and `timestamp_subsec_nanos()`.
///
/// Trusted: chrono builds the reading from the time elapsed since the epoch,
/// so the seconds are not negative, the sub-second part is below one second,
/// and the instant lies in the range of dates chrono can hold. Nothing is
/// claimed about which instant it is.
#[verifier::external_body]
fn clock_reading() -> (reading: (i64, u32))
    ensures
        instant_in_range(reading.0 as int, reading.1 as int),
        reading.0 >= 0,
{
    let now = chrono::Utc::now();
    (now.timestamp(), now.timestamp_subsec_nanos())
}

impl Timestamp {
    #[verifier::type_invariant]
    spec fn in_range(self) -> bool {
        instant_in_range(self.secs as int, self.nanos as int)
    }

    /// The instant `nanos` nanoseconds after the whole second `secs`, if it
    /// is in range.
    pub fn from_parts(secs: i64, nanos: u32) -> (made: Option<Timestamp>)
        ensures
            made is Some <==> instant_in_range(secs as int, nanos as int),
            made matches Some(t) ==> t@ == instant_nanos(secs as int, nanos as int),
    {
        if MIN_TIMESTAMP_SECS <= secs && secs <= MAX_TIMESTAMP_SECS && nanos < NANOS_PER_SEC {
            Some(Timestamp { secs, nanos })
        } else {
            None
        }
    }

    /// The current instant by the system clock.
    pub fn now() -> (t: Timestamp)
        ensures
            t@ >= 0,
    {
        let reading = clock_reading();
        assert(instant_nanos(reading.0 as int, reading.1 as int) >= 0) by (nonlinear_arith)
            requires
                reading.0 >= 0,
                reading.1 >= 0,
        ;
        Timestamp { secs: reading.0, nanos: reading.1 }
    }

    /// Whole seconds from the epoch to this instant, rounded down.
    pub fn secs(&self) -> (s: i64)
        ensures
            s == self@ / (NANOS_PER_SEC as int),
            MIN_TIMESTAMP_SECS <= s <= MAX_TIMESTAMP_SECS,
    {
        proof {
            use_type_invariant(self);
            lemma_parts(self.secs as int, self.nanos as int);
        }
        self.secs
    }

    /// Nanoseconds from the last whole second to this instant.
    pub fn subsec_nanos(&self) -> (n: u32)
        ensures
            n == self@ % (NANOS_PER_SEC as int),
            n < NANOS_PER_SEC,
    {
        proof {
            use_type_invariant(self);
            lemma_parts(self.secs as int, self.nanos as int);
        }
        self.nanos
    }

    /// Whole milliseconds from this instant to `later`, rounded towards
    /// zero; negative when `later` comes first.
    pub fn millis_until(&self, later: &Timestamp) -> (millis: i64)
        ensures
            millis == whole_millis(later@ - self@),
    {
        proof {
            use_type_invariant(self);
            use_type_invariant(later);
        }
        let whole: i128 = (later.secs as i128 - self.secs as i128) * 1_000_000_000;
        let span: i128 = whole + (later.nanos as i128 - self.nanos as i128);
        assert(span == later@ - self@) by (nonlinear_arith)
            requires
                span == (later.secs - self.secs) * 1_000_000_000 + (later.nanos - self.nanos),
                later@ == later.secs * 1_000_000_000 + later.nanos,
                self@ == self.secs * 1_000_000_000 + self.nanos,
        ;
        if span >= 0 {
            (span / 1_000_000) as i64
        } else {
            let back: i128 = -span;
            let ms: i128 = back / 1_000_000;
            (-ms) as i64
        }
    }
}

/// Seconds and sub-second part are the quotient and remainder of the instant
/// they name.
proof fn lemma_parts(secs: int, nanos: int)
    requires
        0 <= nanos < NANOS_PER_SEC,
    ensures
        instant_nanos(secs, nanos) / (NANOS_PER_SEC as int) == secs,
        instant_nanos(secs, nanos) % (NANOS_PER_SEC as int) == nanos,
{
    vstd::arithmetic::div_mod::lemma_fundamental_div_mod_converse(
        instant_nanos(secs, nanos),
        NANOS_PER_SEC as int,
        secs,
        nanos,
    );
}

} // verus!
