//! Publication instants, held as plain integers.
use vstd::prelude::*;

verus! {

/// The earliest whole second that chrono can represent (January 1 of the
/// year 262143 BCE, UTC), in seconds since the Unix epoch.
pub const MIN_SECONDS: i64 = -8334601228800;

/// The last whole second that chrono can represent (December 31 of the year
/// 262142 CE, 23:59:59 UTC), in seconds since the Unix epoch.
pub const MAX_SECONDS: i64 = 8210266876799;

/// An instant in UTC: whole seconds since the Unix epoch, and nanoseconds
/// since that second began. The nanoseconds reach one second or more only
/// for a leap second, which can only end a minute.
#[derive(Clone, Copy, Debug, PartialEq, Eq, Structural, Hash)]
pub struct Timestamp {
    pub secs: i64,
    pub nanos: u32,
}

impl Timestamp {
    /// The instant lies in chrono's range, and its nanoseconds are a valid
    /// fraction or leap-second fraction.
    pub open spec fn wf(self) -> bool {
        &&& MIN_SECONDS <= self.secs <= MAX_SECONDS
        &&& (self.nanos < 1_000_000_000 || (self.nanos < 2_000_000_000 && self.secs % 60 == 59))
    }

    /// Whether chrono can represent this instant.
    pub fn is_valid(&self) -> (r: bool)
        ensures
            r == self.wf(),
    {
        let rem: i64 = self.secs % 60;
        let second: i64 = if rem < 0 {
            rem + 60
        } else {
            rem
        };
        MIN_SECONDS <= self.secs && self.secs <= MAX_SECONDS && (self.nanos < 1_000_000_000 || (
        self.nanos < 2_000_000_000 && second == 59))
    }
}

/// The instant that chrono reads from a date-time text, as seconds and
/// nanoseconds, or `None` where it reads none.
pub uninterp spec fn instant_of(text: Seq<char>) -> Option<(i64, u32)>;

/// Relies on chrono's `FromStr` for `DateTime<Utc>` (a relaxed RFC 3339
/// reader) to read the instant, and on `DateTime::timestamp` and
/// `DateTime::timestamp_subsec_nanos` to take it apart. Every `DateTime<Utc>`
/// lies in chrono's range.
#[verifier::external_body]
pub(crate) fn parse_instant(text: &str) -> (r: Option<Timestamp>)
    ensures
        match r {
            Some(t) => instant_of(text@) == Some((t.secs, t.nanos)) && t.wf(),
            None => instant_of(text@) is None,
        },
{
    text.parse::<chrono::DateTime<chrono::Utc>>().ok().map(
        |d| Timestamp { secs: d.timestamp(), nanos: d.timestamp_subsec_nanos() },
    )
}

/// The text that chrono writes for an instant in RFC 3339 form.
pub uninterp spec fn rfc3339_of(secs: i64, nanos: u32) -> Seq<char>;

/// Relies on chrono's `DateTime::from_timestamp`, which accepts every instant
/// in range (and round-trips with `timestamp` and `timestamp_subsec_nanos`),
/// and on `DateTime::to_rfc3339`, whose text chrono's `FromStr` reads back
/// as the same instant.
#[verifier::external_body]
pub(crate) fn format_instant(t: &Timestamp) -> (r: String)
    requires
        t.wf(),
    ensures
        r@ == rfc3339_of(t.secs, t.nanos),
        instant_of(r@) == Some((t.secs, t.nanos)),
{
    chrono::DateTime::from_timestamp(t.secs, t.nanos).unwrap().to_rfc3339()
}

} // verus!
