use vstd::prelude::*;

verus! {

/// Earliest second, counted from 1970-01-01T00:00:00Z, that chrono can
/// represent: January 1 of the year -262143.
pub const MIN_SECS: i64 = -8334601228800;

/// Latest second, counted from 1970-01-01T00:00:00Z, that chrono can
/// represent: the last second of December 31 of the year 262142.
pub const MAX_SECS: i64 = 8210266876799;

/// The offsets that chrono accepts lie strictly between minus and plus one day.
pub const DAY_SECS: i32 = 86400;

/// A point in time as seconds since the Unix epoch, the nanoseconds within
/// that second (from one billion on: a leap second, only in a minute's last
/// second) and the offset of the local zone east of UTC, in seconds.
pub open spec fn timestamp_valid(secs: int, nanos: int, offset: int) -> bool {
    &&& MIN_SECS <= secs <= MAX_SECS
    &&& (nanos < 1_000_000_000 || (nanos < 2_000_000_000 && secs % 60 == 59))
    &&& -DAY_SECS < offset < DAY_SECS
}

/// The RFC 3339 text that chrono's `to_rfc3339` writes for a valid
/// timestamp: `seconds`, `nanoseconds` and `offset` as in `timestamp_valid`.
pub uninterp spec fn rfc3339_of(secs: int, nanos: int, offset: int) -> Seq<char>;

/// Relies on `chrono::Local::now`, read through `DateTime::timestamp`,
/// `DateTime::timestamp_subsec_nanos` and `FixedOffset::local_minus_utc`:
/// any `DateTime` that chrono hands out lies within its range of dates, its
/// nanoseconds pass over one billion only in a leap second, and a
/// `FixedOffset` stays strictly within one day.
#[verifier::external_body]
fn local_now() -> (r: (i64, u32, i32))
    ensures
        timestamp_valid(r.0 as int, r.1 as int, r.2 as int),
{
    let now = chrono::Local::now();
    (now.timestamp(), now.timestamp_subsec_nanos(), now.offset().local_minus_utc())
}

/// Relies on `chrono::DateTime::to_rfc3339`, after `DateTime::from_timestamp`
/// and `FixedOffset::east_opt` have built the value: both return `Some` on
/// every valid timestamp, and the text depends on the three numbers alone.
#[verifier::external_body]
fn rfc3339_text(secs: i64, nanos: u32, offset: i32) -> (r: String)
    requires
        timestamp_valid(secs as int, nanos as int, offset as int),
    ensures
        r@ == rfc3339_of(secs as int, nanos as int, offset as int),
{
    let utc = chrono::DateTime::from_timestamp(secs, nanos).unwrap();
    let zone = chrono::FixedOffset::east_opt(offset).unwrap();
    utc.with_timezone(&zone).to_rfc3339()
}

/// The moment a piece of content was created, with the offset of the zone
/// it was created in.
#[derive(Clone, Copy, Debug, PartialEq, Eq)]
pub struct Timestamp {
    secs: i64,
    nanos: u32,
    offset: i32,
}

impl View for Timestamp {
    /// Seconds since the epoch, nanoseconds, and offset east of UTC.
    type V = (int, int, int);

    closed spec fn view(&self) -> (int, int, int) {
        (self.secs as int, self.nanos as int, self.offset as int)
    }
}

impl Timestamp {
    #[verifier::type_invariant]
    spec fn valid(self) -> bool {
        timestamp_valid(self.secs as int, self.nanos as int, self.offset as int)
    }

    /// The timestamp of the given parts, or `None` where chrono cannot
    /// represent it.
    pub fn new(secs: i64, nanos: u32, offset: i32) -> (r: Option<Timestamp>)
        ensures
            r is Some <==> timestamp_valid(secs as int, nanos as int, offset as int),
            r matches Some(t) ==> t@ == (secs as int, nanos as int, offset as int),
    {
        // `%` rounds toward zero: the last second of a minute before the
        // epoch leaves -1.
        let last_of_minute = secs % 60 == 59 || secs % 60 == -1;
        if MIN_SECS <= secs && secs <= MAX_SECS && (nanos < 1_000_000_000 || (nanos
            < 2_000_000_000 && last_of_minute)) && -DAY_SECS < offset && offset < DAY_SECS {
            Some(Timestamp { secs, nanos, offset })
        } else {
            None
        }
    }

    /// The current time in the local zone.
    pub fn now() -> (r: Timestamp) {
        let (secs, nanos, offset) = local_now();
        Timestamp { secs, nanos, offset }
    }

    pub fn secs(&self) -> (r: i64)
        ensures
            r as int == self@.0,
    {
        self.secs
    }

    pub fn nanos(&self) -> (r: u32)
        ensures
            r as int == self@.1,
    {
        self.nanos
    }

    pub fn offset(&self) -> (r: i32)
        ensures
            r as int == self@.2,
    {
        self.offset
    }

    /// The timestamp in RFC 3339 form, with its offset, such as
    /// `1996-12-19T16:39:57-08:00`.
    pub fn to_rfc3339(&self) -> (r: String)
        ensures
            r@ == rfc3339_of(self@.0, self@.1, self@.2),
    {
        proof {
            use_type_invariant(self);
        }
        rfc3339_text(self.secs, self.nanos, self.offset)
    }
}

} // verus!
