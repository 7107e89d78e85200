use vstd::prelude::*;

verus! {

/// Earliest second since the Unix epoch that chrono's `DateTime<Utc>` holds
/// (January 1 of year -262143).
pub const MIN_UTC_SECS: i64 = -8334601228800;

/// Latest second since the Unix epoch that chrono's `DateTime<Utc>` holds
/// (December 31 of year 262142, 23:59:59).
pub const MAX_UTC_SECS: i64 = 8210266876799;

/// A point in time in UTC: whole seconds since the Unix epoch and the
/// nanoseconds past that second (a leap second counts its nanoseconds from one
/// billion on).
#[derive(Clone, Copy, Debug, PartialEq, Eq, Structural)]
pub struct UtcTime {
    pub secs: i64,
    pub nanos: u32,
}

/// The pairs of seconds and nanoseconds that chrono accepts as a `DateTime<Utc>`.
pub open spec fn representable(secs: int, nanos: int) -> bool {
    &&& MIN_UTC_SECS <= secs <= MAX_UTC_SECS
    &&& (nanos < 1_000_000_000 || (nanos < 2_000_000_000 && secs % 60 == 59))
}

impl UtcTime {
    pub open spec fn wf(self) -> bool {
        representable(self.secs as int, self.nanos as int)
    }

    /// Whether this time lies within the calendar that chrono can represent.
    pub fn is_representable(&self) -> (r: bool)
        ensures
            r == self.wf(),
    {
        if self.secs < MIN_UTC_SECS || self.secs > MAX_UTC_SECS {
            return false;
        }
        let rem = self.secs % 60;
        let second = if rem < 0 {
            rem + 60
        } else {
            rem
        };
        assert(second == self.secs as int % 60);
        self.nanos < 1_000_000_000 || (self.nanos < 2_000_000_000 && second == 59)
    }
}

/// The UTC date of a representable time as chrono's `%Y/%m/%d` writes it.
pub uninterp spec fn utc_date_path_of(secs: int) -> Seq<char>;

/// RFC 3339 text of a representable time, with milliseconds and a `Z` suffix.
pub uninterp spec fn rfc3339_millis_of(secs: int, nanos: int) -> Seq<char>;

/// Relies on chrono's `DateTime::from_timestamp` and `DateTime::format` with
/// `%Y/%m/%d`: the calendar date of the time in UTC, which depends on the
/// seconds alone.
#[verifier::external_body]
pub(crate) fn utc_date_path(t: UtcTime) -> (r: String)
    requires
        t.wf(),
    ensures
        r@ == utc_date_path_of(t.secs as int),
{
    match chrono::DateTime::from_timestamp(t.secs, t.nanos) {
        Some(dt) => dt.format("%Y/%m/%d").to_string(),
        None => String::new(),
    }
}

/// Relies on chrono's `DateTime::from_timestamp` and
/// `DateTime::to_rfc3339_opts(SecondsFormat::Millis, true)`.
#[verifier::external_body]
pub(crate) fn rfc3339_millis(t: UtcTime) -> (r: String)
    requires
        t.wf(),
    ensures
        r@ == rfc3339_millis_of(t.secs as int, t.nanos as int),
{
    match chrono::DateTime::from_timestamp(t.secs, t.nanos) {
        Some(dt) => dt.to_rfc3339_opts(chrono::SecondsFormat::Millis, true),
        None => String::new(),
    }
}

} // verus!
