//! The single-slot cache: one snapshot of the last result, stamped with the
//! time it was taken, served only while it is younger than the configured span.
use vstd::prelude::*;
use crate::duration::CacheDuration;
use crate::providers::WeatherData;

verus! {

/// The stored snapshot: when it was taken, in milliseconds since the Unix
/// epoch, and what was found.
#[derive(Clone, Debug, PartialEq, Eq)]
pub struct CacheEntry {
    pub timestamp_ms: i64,
    pub data: WeatherData,
}

/// Whether a snapshot taken at `saved_at` is still valid at `now`.
pub open spec fn fresh_at(saved_at: int, now: int, ttl: CacheDuration) -> bool {
    now - saved_at < ttl.millis()
}

/// What a load at `now` serves from the stored snapshot, if any.
pub open spec fn served(entry: Option<CacheEntry>, now: int, ttl: CacheDuration) -> Option<
    WeatherData,
> {
    match entry {
        Some(e) => if fresh_at(e.timestamp_ms as int, now, ttl) {
            Some(e.data)
        } else {
            None
        },
        None => None,
    }
}

/// The system clock's reading, opaque: only the time since the epoch is read from it.
#[verifier::external_type_specification]
#[verifier::external_body]
pub struct ExSystemTime(std::time::SystemTime);

/// The error of a clock reading earlier than the one it is measured from.
#[verifier::external_type_specification]
#[verifier::external_body]
pub struct ExSystemTimeError(std::time::SystemTimeError);

/// Relies on std's SystemTime::now: the current reading of the system clock,
/// of which nothing is promised.
pub assume_specification[ std::time::SystemTime::now ]() -> std::time::SystemTime;

/// Relies on std's SystemTime::duration_since: the span from `earlier` to
/// the reading, or an error where `earlier` is the later one; it does not panic.
pub assume_specification[ std::time::SystemTime::duration_since ](
    this: &std::time::SystemTime,
    earlier: std::time::SystemTime,
) -> std::result::Result<core::time::Duration, std::time::SystemTimeError>;

/// Relies on std's Duration::as_millis: the whole milliseconds of the span.
pub assume_specification[ core::time::Duration::as_millis ](d: &core::time::Duration) -> u128;

/// Relies on std's UNIX_EPOCH: the clock reading of the Unix epoch.
#[verifier::external_body]
fn unix_epoch() -> (r: std::time::SystemTime) {
    std::time::UNIX_EPOCH
}

/// Why no snapshot could be made.
#[derive(Clone, Copy, Debug, PartialEq, Eq, Structural)]
pub enum CacheError {
    /// The system clock reads before the Unix epoch, or too far after it
    /// for a millisecond count in an `i64`.
    ClockOutOfRange,
}

/// A clock reading, in whole milliseconds since the Unix epoch, as a
/// millisecond stamp: `None` where the clock read before the epoch or past
/// what an `i64` counts.
pub open spec fn millis_from(since_epoch_ms: Option<u128>) -> Option<i64> {
    match since_epoch_ms {
        Some(ms) => if ms <= 9223372036854775807u128 {
            Some(ms as i64)
        } else {
            None
        },
        None => None,
    }
}

/// The system clock in whole milliseconds since the Unix epoch, or `None`
/// where it reads before the epoch. Nothing is promised of the reading.
fn clock_reading() -> (r: Option<u128>) {
    let now = std::time::SystemTime::now();
    match now.duration_since(unix_epoch()) {
        Ok(span) => Some(span.as_millis()),
        Err(_) => None,
    }
}

/// The millisecond stamp of a clock reading.
pub fn millis_of(since_epoch_ms: Option<u128>) -> (r: Option<i64>)
    ensures
        r == millis_from(since_epoch_ms),
        r matches Some(ms) ==> ms >= 0,
{
    match since_epoch_ms {
        Some(ms) => if ms <= 9223372036854775807u128 {
            Some(ms as i64)
        } else {
            None
        },
        None => None,
    }
}

pub fn is_fresh(saved_at_ms: i64, now_ms: i64, ttl: CacheDuration) -> (r: bool)
    ensures
        r == fresh_at(saved_at_ms as int, now_ms as int, ttl),
{
    (now_ms as i128) - (saved_at_ms as i128) < (ttl.minutes as i128) * 60000
}

/// The stored snapshot's result if it is still valid at `now_ms`; a missing
/// snapshot, or one that could not be read, is a miss.
pub fn serve(entry: Option<CacheEntry>, now_ms: i64, ttl: CacheDuration) -> (r: Option<WeatherData>)
    ensures
        r == served(entry, now_ms as int, ttl),
{
    match entry {
        Some(e) => if is_fresh(e.timestamp_ms, now_ms, ttl) {
            Some(e.data)
        } else {
            None
        },
        None => None,
    }
}

/// The snapshot of `data` taken at a clock reading, stamped with that
/// reading; a reading that is no stamp is `ClockOutOfRange`.
pub fn stamp(data: WeatherData, since_epoch_ms: Option<u128>) -> (r: Result<CacheEntry, CacheError>)
    ensures
        r == (match millis_from(since_epoch_ms) {
            Some(ms) => Ok(CacheEntry { timestamp_ms: ms, data }),
            None => Err(CacheError::ClockOutOfRange),
        }),
{
    match millis_of(since_epoch_ms) {
        Some(ms) => Ok(CacheEntry { timestamp_ms: ms, data }),
        None => Err(CacheError::ClockOutOfRange),
    }
}

/// The snapshot to store for `data`, stamped with the current time: what
/// `stamp` gives on the clock's reading.
pub fn save(data: WeatherData) -> (r: Result<CacheEntry, CacheError>)
    ensures
        r matches Ok(e) ==> e.data == data && e.timestamp_ms >= 0,
        r matches Err(err) ==> err == CacheError::ClockOutOfRange,
{
    stamp(data, clock_reading())
}

/// What a load at a clock reading serves from the stored snapshot: a
/// reading that is no stamp is a miss.
pub fn load_at(entry: Option<CacheEntry>, since_epoch_ms: Option<u128>, ttl: CacheDuration) -> (r:
    Option<WeatherData>)
    ensures
        r == (match millis_from(since_epoch_ms) {
            Some(now) => served(entry, now as int, ttl),
            None => None,
        }),
{
    match millis_of(since_epoch_ms) {
        Some(now) => serve(entry, now, ttl),
        None => None,
    }
}

/// The stored snapshot's result if it is still valid now; `entry` is what
/// the cache file held, `None` where it was missing or unreadable. What
/// `load_at` gives on the clock's reading.
pub fn load(entry: Option<CacheEntry>, ttl: CacheDuration) -> (r: Option<WeatherData>)
    ensures
        entry is None ==> r is None,
        entry matches Some(e) ==> (r is None || r == Some(e.data)),
{
    load_at(entry, clock_reading(), ttl)
}

/// A snapshot serves its own result, unchanged, to a load made less than
/// the span after it was taken, and nothing to a load made the span or more
/// after it.
pub proof fn lemma_snapshot_served(data: WeatherData, saved_at: i64, now: i64, ttl: CacheDuration)
    ensures
        now - saved_at < ttl.millis() ==> served(
            Some(CacheEntry { timestamp_ms: saved_at, data }),
            now as int,
            ttl,
        ) == Some(data),
        now - saved_at >= ttl.millis() ==> served(
            Some(CacheEntry { timestamp_ms: saved_at, data }),
            now as int,
            ttl,
        ) is None,
{
}

} // verus!
