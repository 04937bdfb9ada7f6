//! Clock readings, the elapsed time between two of them, and their text form.

use vstd::prelude::*;

verus! {

/// Nanoseconds in one second.
pub const NANOS_PER_SECOND: u32 = 1_000_000_000;

/// Nanoseconds in one minute.
pub const NANOS_PER_MINUTE: i64 = 60_000_000_000;

/// Earliest supported instant, in seconds since the Unix epoch:
/// the first second of the year -262143.
pub const MIN_SECONDS: i64 = -8_334_601_228_800;

/// Latest supported instant, in seconds since the Unix epoch:
/// the last second of the year 262142.
pub const MAX_SECONDS: i64 = 8_210_266_876_799;

/// A UTC offset lies strictly between minus and plus one day, in seconds.
pub const OFFSET_LIMIT: i32 = 86_400;

/// Whether the three numbers describe an instant that a `Timestamp` can hold.
pub open spec fn representable(secs: int, nanos: int, offset: int) -> bool {
    &&& MIN_SECONDS <= secs <= MAX_SECONDS
    &&& 0 <= nanos < NANOS_PER_SECOND
    &&& -OFFSET_LIMIT < offset < OFFSET_LIMIT
}

/// Quotient of `a` by a positive `d`, rounded toward zero.
pub open spec fn truncated_quotient(a: int, d: int) -> int {
    if a >= 0 {
        a / d
    } else {
        -((-a) / d)
    }
}

/// Nanoseconds from the first instant to the second.
pub open spec fn nanos_between(
    start_secs: int,
    start_nanos: int,
    end_secs: int,
    end_nanos: int,
) -> int {
    (end_secs - start_secs) * NANOS_PER_SECOND + (end_nanos - start_nanos)
}

/// Whole minutes from the first instant to the second, rounded toward zero.
pub open spec fn whole_minutes(
    start_secs: int,
    start_nanos: int,
    end_secs: int,
    end_nanos: int,
) -> int {
    truncated_quotient(
        nanos_between(start_secs, start_nanos, end_secs, end_nanos),
        NANOS_PER_MINUTE as int,
    )
}

/// The RFC 3339 text that chrono gives for the instant `secs` seconds and
/// `nanos` nanoseconds after the Unix epoch, shown at the UTC offset `offset`.
pub uninterp spec fn rfc3339_text(secs: int, nanos: int, offset: int) -> Seq<char>;

/// Builds the instant with chrono's `DateTime::from_timestamp`, moves it to
/// the zone that `FixedOffset::east_opt` gives with `DateTime::with_timezone`,
/// and formats it with `DateTime::to_rfc3339`.
///
/// Trusted: the two constructors accept every representable triple, and the
/// text depends on the three numbers alone.
#[verifier::external_body]
fn format_rfc3339(secs: i64, nanos: u32, offset: i32) -> (r: String)
    requires
        representable(secs as int, nanos as int, offset as int),
    ensures
        r@ == rfc3339_text(secs as int, nanos as int, offset as int),
{
    let utc = chrono::DateTime::from_timestamp(secs, nanos).unwrap();
    let zone = chrono::FixedOffset::east_opt(offset).unwrap();
    utc.with_timezone(&zone).to_rfc3339()
}

/// Builds both instants with chrono's `DateTime::from_timestamp`, subtracts
/// the first from the second and asks the difference for `num_minutes`.
///
/// Trusted: the constructor accepts every representable instant, the
/// difference is exact, and `num_minutes` drops the fraction toward zero.
#[verifier::external_body]
fn minutes_between(start_secs: i64, start_nanos: u32, end_secs: i64, end_nanos: u32) -> (r: i64)
    requires
        representable(start_secs as int, start_nanos as int, 0),
        representable(end_secs as int, end_nanos as int, 0),
    ensures
        r as int == whole_minutes(
            start_secs as int,
            start_nanos as int,
            end_secs as int,
            end_nanos as int,
        ),
{
    let start = chrono::DateTime::from_timestamp(start_secs, start_nanos).unwrap();
    let end = chrono::DateTime::from_timestamp(end_secs, end_nanos).unwrap();
    (end - start).num_minutes()
}

/// A clock reading: an instant and the local UTC offset in force at it.
#[derive(Clone, Copy, Debug)]
pub struct Timestamp {
    secs: i64,
    nanos: u32,
    offset: i32,
}

impl Timestamp {
    #[verifier::type_invariant]
    spec fn valid(self) -> bool {
        representable(self.secs as int, self.nanos as int, self.offset as int)
    }

    /// Seconds since the Unix epoch.
    pub closed spec fn spec_secs(self) -> int {
        self.secs as int
    }

    /// Nanoseconds past the second.
    pub closed spec fn spec_nanos(self) -> int {
        self.nanos as int
    }

    /// Local time minus UTC, in seconds.
    pub closed spec fn spec_offset(self) -> int {
        self.offset as int
    }

    /// The reading with the given parts, where they are representable.
    pub fn new(secs: i64, nanos: u32, offset: i32) -> (r: Option<Timestamp>)
        ensures
            r is Some <==> representable(secs as int, nanos as int, offset as int),
            r matches Some(t) ==> t.spec_secs() == secs && t.spec_nanos() == nanos
                && t.spec_offset() == offset,
    {
        if MIN_SECONDS <= secs && secs <= MAX_SECONDS && nanos < NANOS_PER_SECOND && -OFFSET_LIMIT
            < offset && offset < OFFSET_LIMIT {
            Some(Timestamp { secs, nanos, offset })
        } else {
            None
        }
    }

    /// Seconds since the Unix epoch.
    pub fn secs(&self) -> (r: i64)
        ensures
            r == self.spec_secs(),
            MIN_SECONDS <= r <= MAX_SECONDS,
    {
        proof {
            use_type_invariant(self);
        }
        self.secs
    }

    /// Nanoseconds past the second.
    pub fn nanos(&self) -> (r: u32)
        ensures
            r == self.spec_nanos(),
            r < NANOS_PER_SECOND,
    {
        proof {
            use_type_invariant(self);
        }
        self.nanos
    }

    /// Local time minus UTC, in seconds.
    pub fn offset(&self) -> (r: i32)
        ensures
            r == self.spec_offset(),
            -OFFSET_LIMIT < r < OFFSET_LIMIT,
    {
        proof {
            use_type_invariant(self);
        }
        self.offset
    }

    /// The text of this reading in RFC 3339 form.
    pub open spec fn spec_rfc3339(self) -> Seq<char> {
        rfc3339_text(self.spec_secs(), self.spec_nanos(), self.spec_offset())
    }

    /// Whole minutes from this reading to `end`, rounded toward zero;
    /// negative where `end` is the earlier one.
    pub open spec fn spec_minutes_until(self, end: Timestamp) -> int {
        whole_minutes(self.spec_secs(), self.spec_nanos(), end.spec_secs(), end.spec_nanos())
    }

    /// The RFC 3339 text of this reading, at its own offset.
    pub fn to_rfc3339(&self) -> (r: String)
        ensures
            r@ == self.spec_rfc3339(),
    {
        proof {
            use_type_invariant(self);
        }
        format_rfc3339(self.secs, self.nanos, self.offset)
    }

    /// Whole minutes from this reading to `end`, rounded toward zero.
    pub fn minutes_until(&self, end: &Timestamp) -> (r: i64)
        ensures
            r == self.spec_minutes_until(*end),
    {
        proof {
            use_type_invariant(self);
            use_type_invariant(end);
        }
        minutes_between(self.secs, self.nanos, end.secs, end.nanos)
    }
}

} // verus!
