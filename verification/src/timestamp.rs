//! Points in time, held as whole seconds since the Unix epoch that the
//! calendar of the `time` crate can represent.

use vstd::prelude::*;

verus! {

/// The first second of the calendar: the beginning of the year -9999.
pub const MIN_SECONDS: i64 = -377_705_116_800;

/// The last second of the calendar: the end of the year 9999.
pub const MAX_SECONDS: i64 = 253_402_300_799;

/// Whether `time::OffsetDateTime::from_unix_timestamp` accepts `seconds`:
/// it accepts the seconds of its calendar, which goes from the year -9999
/// to the year 9999.
pub open spec fn calendar_accepts(seconds: int) -> bool {
    MIN_SECONDS <= seconds <= MAX_SECONDS
}

/// The text that `time::OffsetDateTime` displays for the UTC date and time
/// at `seconds` after the Unix epoch.
pub uninterp spec fn utc_text(seconds: int) -> Seq<char>;

/// Calls `time::OffsetDateTime::from_unix_timestamp` and reports whether it
/// returned a date and time rather than a range error. The contract says
/// that it does so exactly from the first second of its calendar to the
/// last.
#[verifier::external_body]
fn accepted_by_calendar(seconds: i64) -> (r: bool)
    ensures
        r == calendar_accepts(seconds as int),
{
    time::OffsetDateTime::from_unix_timestamp(seconds).is_ok()
}

/// Displays the `time::OffsetDateTime` that `from_unix_timestamp` makes of
/// `seconds`; the contract names the text and claims nothing else of it.
#[verifier::external_body]
fn display_utc(seconds: i64) -> (r: String)
    requires
        calendar_accepts(seconds as int),
    ensures
        r@ == utc_text(seconds as int),
{
    time::OffsetDateTime::from_unix_timestamp(seconds).map(|t| t.to_string()).unwrap_or_default()
}

/// An absolute point in time with a resolution of one second.
#[derive(Clone, Copy, Debug, PartialEq, Eq)]
pub struct Timestamp {
    seconds: i64,
}

impl Timestamp {
    #[verifier::type_invariant]
    spec fn in_calendar(self) -> bool {
        calendar_accepts(self.seconds as int)
    }

    /// Seconds since the Unix epoch.
    pub closed spec fn seconds(self) -> i64 {
        self.seconds
    }

    /// The point in time `seconds` after the Unix epoch, if the calendar
    /// reaches it.
    pub fn from_unix_seconds(seconds: i64) -> (r: Option<Timestamp>)
        ensures
            r is Some <==> calendar_accepts(seconds as int),
            r matches Some(t) ==> t.seconds() == seconds,
    {
        if accepted_by_calendar(seconds) {
            Some(Timestamp { seconds })
        } else {
            None
        }
    }

    /// Seconds since the Unix epoch.
    pub fn unix_seconds(&self) -> (r: i64)
        ensures
            r == self.seconds(),
            calendar_accepts(r as int),
    {
        proof {
            use_type_invariant(self);
        }
        self.seconds
    }

    /// The UTC date and time as the calendar displays it.
    pub fn render(&self) -> (r: String)
        ensures
            r@ == utc_text(self.seconds() as int),
    {
        proof {
            use_type_invariant(self);
        }
        display_utc(self.seconds)
    }
}

} // verus!
