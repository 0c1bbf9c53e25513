//! Points in time as Unix timestamps (seconds and nanoseconds, UTC), the
//! range of seconds that chrono's date-times can hold, and the current time.
use vstd::prelude::*;

verus! {

/// The timestamp of chrono's earliest date-time (`DateTime::<Utc>::MIN_UTC`,
/// the start of `NaiveDate::MIN`).
pub const MIN_TIMESTAMP: i64 = -8_334_601_228_800;

/// The timestamp of chrono's latest date-time (`DateTime::<Utc>::MAX_UTC`,
/// December 31, 262142 CE, 23:59:59).
pub const MAX_TIMESTAMP: i64 = 8_210_266_876_799;

/// Seconds in thirty days.
pub const THIRTY_DAYS_SECONDS: i64 = 2_592_000;

/// Nanoseconds in a second.
pub const NANOS_PER_SECOND: u32 = 1_000_000_000;

/// A point in time: whole seconds since the Unix epoch (UTC) and the
/// nanoseconds past them.
#[derive(Clone, Copy, Debug, PartialEq, Eq, Structural)]
pub struct Timestamp {
    pub secs: i64,
    pub nanos: u32,
}

/// A point in time that the clock can read: not before the epoch, within
/// chrono's range, with fewer than a second's nanoseconds.
pub open spec fn is_clock_reading(t: Timestamp) -> bool {
    0 <= t.secs <= MAX_TIMESTAMP && t.nanos < NANOS_PER_SECOND
}

/// A timestamp that chrono can turn into a date-time.
pub open spec fn timestamp_in_range(secs: i64) -> bool {
    MIN_TIMESTAMP <= secs <= MAX_TIMESTAMP
}

/// Whether `chrono::NaiveDateTime::from_timestamp_opt(secs, 0)` gives a date-time.
/// chrono's source returns `None` exactly when the day of `secs` falls outside
/// the range of `NaiveDate` (`NaiveDate::MIN` to `NaiveDate::MAX`); with zero
/// nanoseconds the time of day is always valid.
#[verifier::external_body]
pub(crate) fn naive_datetime_exists(secs: i64) -> (exists: bool)
    ensures
        exists == timestamp_in_range(secs),
{
    #[allow(deprecated)]
    chrono::NaiveDateTime::from_timestamp_opt(secs, 0).is_some()
}

/// The system clock's time, as std's `SystemTime`.
#[verifier::external_type_specification]
#[verifier::external_body]
pub struct ExSystemTime(std::time::SystemTime);

/// A time that the clock can give: none when it could not be read, else a
/// clock reading.
pub open spec fn is_clock_result(r: Option<Timestamp>) -> bool {
    r matches Some(t) ==> is_clock_reading(t)
}

/// The system clock's current time (`std::time::SystemTime::now()`). Nothing
/// is stated of which time comes back: that depends on the clock.
#[verifier::external_body]
fn system_time_now() -> std::time::SystemTime {
    std::time::SystemTime::now()
}

/// The time `t` as seconds since the Unix epoch and the nanoseconds past them
/// (`SystemTime::duration_since(UNIX_EPOCH)`, read with `Duration::as_secs` and
/// `Duration::subsec_nanos`), or `None` where `t` is before the epoch, for
/// which std returns an error rather than panicking. std documents
/// `subsec_nanos` as always below one billion.
#[verifier::external_body]
fn since_unix_epoch(t: &std::time::SystemTime) -> (r: Option<(u64, u32)>)
    ensures
        r matches Some((_, nanos)) ==> nanos < NANOS_PER_SECOND,
{
    match t.duration_since(std::time::UNIX_EPOCH) {
        Ok(d) => Some((d.as_secs(), d.subsec_nanos())),
        Err(_) => None,
    }
}

/// A time since the Unix epoch, as seconds and the nanoseconds past them
/// (`None` for a clock before the epoch), read as a timestamp: `None` past the
/// latest date-time that chrono can hold.
pub open spec fn epoch_offset_timestamp(since: Option<(u64, u32)>) -> Option<Timestamp> {
    match since {
        Some((secs, nanos)) => if secs <= MAX_TIMESTAMP {
            Some(Timestamp { secs: secs as i64, nanos })
        } else {
            None
        },
        None => None,
    }
}

/// A reading of the time since the epoch that std can give: the nanoseconds
/// are below a second.
pub open spec fn is_epoch_offset(since: Option<(u64, u32)>) -> bool {
    since matches Some((_, nanos)) ==> nanos < NANOS_PER_SECOND
}

/// Reads a time since the Unix epoch as a timestamp.
pub fn timestamp_from_epoch_offset(since: Option<(u64, u32)>) -> (r: Option<Timestamp>)
    ensures
        r == epoch_offset_timestamp(since),
        is_epoch_offset(since) ==> is_clock_result(r),
{
    match since {
        None => None,
        Some((secs, nanos)) => {
            if secs <= MAX_TIMESTAMP as u64 {
                Some(Timestamp { secs: secs as i64, nanos })
            } else {
                None
            }
        },
    }
}

/// The times the clock can give are exactly those that some reading of the
/// system clock since the epoch turns into: `is_clock_result` says no more and
/// no less of a result than `read_clock` does.
pub proof fn clock_results_are_epoch_offsets(r: Option<Timestamp>)
    ensures
        is_clock_result(r) <==> exists|since: Option<(u64, u32)>|
            is_epoch_offset(since) && r == #[trigger] epoch_offset_timestamp(since),
{
    if is_clock_result(r) {
        match r {
            None => {
                assert(is_epoch_offset(None) && r == epoch_offset_timestamp(None));
            },
            Some(t) => {
                let since = Some((t.secs as u64, t.nanos));
                assert(is_epoch_offset(since) && r == epoch_offset_timestamp(since));
            },
        }
    }
}

/// The current time, or `None` when the system clock reads a time before the
/// Unix epoch or after the latest date-time that chrono can hold: the system
/// clock's time since the epoch, whichever it is, read by
/// `timestamp_from_epoch_offset`.
pub fn read_clock() -> (r: Option<Timestamp>)
    ensures
        exists|since: Option<(u64, u32)>|
            is_epoch_offset(since) && r == #[trigger] epoch_offset_timestamp(since),
        is_clock_result(r),
{
    let t = system_time_now();
    let since = since_unix_epoch(&t);
    let r = timestamp_from_epoch_offset(since);
    assert(is_epoch_offset(since) && r == epoch_offset_timestamp(since));
    r
}

} // verus!
