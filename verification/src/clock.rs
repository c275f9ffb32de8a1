//! The wall clock, and how its readings are written.
use vstd::prelude::*;

verus! {

/// How the body of a notification writes the time.
pub const STAMP_FORMAT: &'static str = "%Y-%m-%d %H:%M:%S UTC";

/// A reading of the clock: whole seconds since the Unix epoch, and nanoseconds beyond them.
#[derive(Debug, Clone, Copy)]
pub struct UtcInstant {
    pub secs: i64,
    pub nanos: u32,
}

impl UtcInstant {
    /// The instant lies between the epoch and the last one that `chrono` can represent, the end
    /// of the year 262142.
    pub open spec fn wf(self) -> bool {
        0 <= self.secs <= 8_210_266_876_799 && self.nanos < 1_000_000_000
    }
}

/// What `chrono::DateTime::<Utc>::to_rfc3339` writes for an instant.
pub uninterp spec fn rfc3339_text(secs: int, nanos: int) -> Seq<char>;

/// What `chrono::DateTime::<Utc>::format` writes for an instant under a format.
pub uninterp spec fn utc_text(secs: int, nanos: int, format: Seq<char>) -> Seq<char>;

/// An instant in RFC 3339 form.
pub open spec fn rfc3339_of(at: UtcInstant) -> Seq<char> {
    rfc3339_text(at.secs as int, at.nanos as int)
}

/// An instant in the form that the body of a notification uses.
pub open spec fn stamp_of(at: UtcInstant) -> Seq<char> {
    utc_text(at.secs as int, at.nanos as int, STAMP_FORMAT@)
}

/// `chrono::Utc::now` reads the system clock. It counts from the epoch, in nanoseconds below one
/// second, and gives only what `chrono` can represent; nothing else is known of the reading.
#[verifier::external_body]
pub(crate) fn utc_now() -> (at: UtcInstant)
    ensures
        at.wf(),
{
    let now = chrono::Utc::now();
    UtcInstant { secs: now.timestamp(), nanos: now.timestamp_subsec_nanos() }
}

/// `chrono::DateTime::to_rfc3339` writes an instant in RFC 3339 form, with the offset of UTC: the
/// text depends on the instant alone.
#[verifier::external_body]
pub(crate) fn to_rfc3339(at: UtcInstant) -> (text: String)
    requires
        at.wf(),
    ensures
        text@ == rfc3339_text(at.secs as int, at.nanos as int),
{
    chrono::DateTime::from_timestamp(at.secs, at.nanos).unwrap().to_rfc3339()
}

/// `chrono::DateTime::format` writes an instant as a format says: the text depends on the instant
/// and the format alone. The format of notification bodies names fields that every instant has.
#[verifier::external_body]
pub(crate) fn format_utc(at: UtcInstant, format: &str) -> (text: String)
    requires
        at.wf(),
        format@ == STAMP_FORMAT@,
    ensures
        text@ == utc_text(at.secs as int, at.nanos as int, format@),
{
    chrono::DateTime::from_timestamp(at.secs, at.nanos).unwrap().format(format).to_string()
}

/// The present time in RFC 3339 form.
pub fn now_rfc3339() -> (text: String)
    ensures
        exists|at: UtcInstant| at.wf() && text@ == #[trigger] rfc3339_of(at),
{
    let at = utc_now();
    let text = to_rfc3339(at);
    assert(text@ == rfc3339_of(at));
    text
}

/// The present time in the form that the body of a notification uses.
pub fn now_stamp() -> (text: String)
    ensures
        exists|at: UtcInstant| at.wf() && text@ == #[trigger] stamp_of(at),
{
    let at = utc_now();
    let text = format_utc(at, STAMP_FORMAT);
    assert(text@ == stamp_of(at));
    text
}

/// The texts of an instant are those of its own seconds and nanoseconds, and the one in the body
/// of a notification gives the date, the time of day and the zone.
pub proof fn texts_are_of_the_instant(at: UtcInstant)
    ensures
        rfc3339_of(at) == rfc3339_text(at.secs as int, at.nanos as int),
        stamp_of(at) == utc_text(at.secs as int, at.nanos as int, "%Y-%m-%d %H:%M:%S UTC"@),
        at.wf() <==> 0 <= at.secs <= 8_210_266_876_799 && at.nanos <= 999_999_999,
{
}

}
