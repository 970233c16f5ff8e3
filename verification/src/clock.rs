//! Points in time.
use vstd::prelude::*;

verus! {

/// What `chrono` writes for a point in time by a format.
pub uninterp spec fn utc_text(seconds: i64, format: Seq<char>) -> Seq<char>;

/// The first second that there is a point in time for: the beginning of the year
/// -262143.
pub const FIRST_SECOND: i64 = -8334601228800;

/// The last second that there is a point in time for: the end of the year 262142.
pub const LAST_SECOND: i64 = 8210266876799;

/// Whether there is a point in time so many seconds and nanoseconds after the beginning
/// of 1970, in universal time. More than a second's worth of nanoseconds stands for a
/// leap second, which only the last second of a minute can have.
pub open spec fn is_utc_time(seconds: i64, nanos: u32) -> bool {
    &&& FIRST_SECOND <= seconds <= LAST_SECOND
    &&& nanos < 1_000_000_000 || (nanos < 2_000_000_000 && seconds as int % 60 == 59)
}

/// The format of a date and a time of day.
pub const DATE_TIME_FORMAT: &'static str = "%Y-%m-%d %H:%M:%S UTC";

/// Calls `chrono::Utc.timestamp_opt`, which gives a single point in time, with the
/// seconds and nanoseconds that it was made from, or none where the years do not reach
/// or the nanoseconds are too many.
#[verifier::external_body]
pub(crate) fn utc_timestamp(seconds: i64, nanos: u32) -> (r: Option<(i64, u32)>)
    ensures
        r == (if is_utc_time(seconds, nanos) {
            Some((seconds, nanos))
        } else {
            None
        }),
{
    let time = chrono::TimeZone::timestamp_opt(&chrono::Utc, seconds, nanos).single();
    time.map(|t| (t.timestamp(), t.timestamp_subsec_nanos()))
}

/// Calls `format` of `chrono::DateTime<Utc>` on a point in time. What it gives depends
/// on the point in time and the format alone; the format is one that it accepts.
#[verifier::external_body]
pub(crate) fn format_utc(seconds: i64, format: &str) -> (r: String)
    requires
        is_utc_time(seconds, 0),
        format@ == DATE_TIME_FORMAT@,
    ensures
        r@ == utc_text(seconds, format@),
{
    chrono::DateTime::from_timestamp(seconds, 0).unwrap().format(format).to_string()
}

/// `sntpc::fraction_to_nanoseconds` turns a fraction of a second, in units of 2 to the
/// power of -32, into whole nanoseconds.
pub assume_specification[ sntpc::fraction_to_nanoseconds ](sec_fraction: u32) -> (r: u32)
    ensures
        r == sec_fraction as int * 1_000_000_000 / 0x1_0000_0000,
;

} // verus!
