//! Wall-clock readings.
use vstd::prelude::*;

verus! {

/// A reading of the system clock.
#[verifier::external_type_specification]
#[verifier::external_body]
pub struct ExSystemTime(std::time::SystemTime);

/// [`std::time::SystemTime::now`]: the current time of the system clock. Nothing is claimed of it.
pub assume_specification[ std::time::SystemTime::now ]() -> (now: std::time::SystemTime)
;

/// [`std::time::SystemTime::duration_since`] with the Unix epoch as the earlier time: whole
/// seconds and further nanoseconds from the epoch to `time`, or from `time` to the epoch as the
/// error where `time` lies before it. Only the range of the nanoseconds is claimed.
#[verifier::external_body]
pub(crate) fn distance_from_epoch(time: std::time::SystemTime) -> (distance: Result<
    (u64, u32),
    (u64, u32),
>)
    ensures
        distance matches Ok(after) ==> after.1 < 1_000_000_000,
        distance matches Err(before) ==> before.1 < 1_000_000_000,
{
    match time.duration_since(std::time::UNIX_EPOCH) {
        Ok(after) => Ok((after.as_secs(), after.subsec_nanos())),
        Err(error) => Err((error.duration().as_secs(), error.duration().subsec_nanos())),
    }
}

/// Nanoseconds from the Unix epoch, negative before it.
pub open spec fn nanos_from_epoch(distance: Result<(u64, u32), (u64, u32)>) -> int {
    match distance {
        Ok(after) => after.0 * 1_000_000_000 + after.1,
        Err(before) => -(before.0 * 1_000_000_000 + before.1),
    }
}

/// Whole seconds from the Unix epoch, rounded down.
pub fn whole_seconds(distance: Result<(u64, u32), (u64, u32)>) -> (seconds: i128)
    requires
        distance matches Ok(after) ==> after.1 < 1_000_000_000,
        distance matches Err(before) ==> before.1 < 1_000_000_000,
    ensures
        seconds * 1_000_000_000 <= nanos_from_epoch(distance) < (seconds + 1) * 1_000_000_000,
        can_be_shown(seconds as int),
        distance matches Ok(after) ==> seconds == after.0,
        distance matches Err(before) ==> seconds + before.0 == if before.1 == 0 {
            0int
        } else {
            -1int
        },
{
    match distance {
        Ok(after) => after.0 as i128,
        Err(before) => {
            if before.1 == 0 {
                -(before.0 as i128)
            } else {
                -(before.0 as i128) - 1
            }
        },
    }
}

/// Whether a clock can show a number of whole seconds from the Unix epoch.
pub open spec fn can_be_shown(seconds: int) -> bool {
    -(u64::MAX as int) - 1 <= seconds <= u64::MAX
}

/// The current time in whole seconds from the Unix epoch, rounded down.
pub fn current_seconds() -> (seconds: i128)
    ensures
        can_be_shown(seconds as int),
{
    whole_seconds(distance_from_epoch(std::time::SystemTime::now()))
}

/// The Unix time of a clock that shows `seconds`: none before the epoch.
pub open spec fn unix_time_of(seconds: int) -> Option<u64> {
    if 0 <= seconds <= u64::MAX {
        Some(seconds as u64)
    } else {
        None
    }
}

/// The Unix time of a clock that shows `seconds`: none before the epoch.
pub fn unix_time_at(seconds: i128) -> (time: Option<u64>)
    ensures
        time == unix_time_of(seconds as int),
        match time {
            Some(told) => told == seconds,
            None => seconds < 0 || seconds > 0xffff_ffff_ffff_ffff,
        },
{
    if seconds < 0 || seconds > u64::MAX as i128 {
        None
    } else {
        Some(seconds as u64)
    }
}

/// The current Unix time in seconds; none where the clock stands before the epoch.
pub fn unix_time_seconds() -> (time: Option<u64>)
    ensures
        exists|seconds: int| can_be_shown(seconds) && time == #[trigger] unix_time_of(seconds),
{
    let seconds: i128 = current_seconds();
    unix_time_at(seconds)
}

/// A time after the Unix epoch.
#[derive(Clone, Copy, Debug, PartialEq, Eq, Structural)]
pub struct ClockReading {
    pub seconds: u64,
    pub nanos: u32,
}

/// The last second of the calendar in which token lifetimes are counted, the end of the year
/// 262142.
pub const LAST_CALENDAR_SECOND: u64 = 8_210_266_876_799;

impl ClockReading {
    /// Whether the calendar holds the time.
    pub open spec fn wf(&self) -> bool {
        self.seconds <= LAST_CALENDAR_SECOND && self.nanos < 1_000_000_000
    }
}

/// The reading of a clock at a distance from the Unix epoch; none before the epoch and beyond the
/// calendar.
pub fn reading_at(distance: Result<(u64, u32), (u64, u32)>) -> (reading: Option<ClockReading>)
    ensures
        match distance {
            Ok((seconds, nanos)) => {
                let told = ClockReading { seconds, nanos };
                reading == if told.wf() {
                    Some(told)
                } else {
                    None
                }
            },
            Err(_) => reading is None,
        },
{
    match distance {
        Ok((seconds, nanos)) => {
            if seconds <= LAST_CALENDAR_SECOND && nanos < 1_000_000_000 {
                Some(ClockReading { seconds, nanos })
            } else {
                None
            }
        },
        Err(_) => None,
    }
}

/// Reads the system clock.
pub fn read_clock() -> (reading: Option<ClockReading>)
    ensures
        reading matches Some(told) ==> told.wf(),
{
    reading_at(distance_from_epoch(std::time::SystemTime::now()))
}

/// The calendar holds the times from the epoch to the end of the year 262142, by the nanosecond.
pub proof fn calendar_ends(reading: ClockReading)
    ensures
        reading.wf() <==> reading.seconds <= 8_210_266_876_799 && reading.nanos < 1_000_000_000,
{
}

/// The Unix time of a clock is what it shows, from the epoch on, as far as 64 bits hold it.
pub proof fn unix_time_is_what_is_shown(seconds: int)
    ensures
        0 <= seconds <= 0xffff_ffff_ffff_ffff ==> unix_time_of(seconds) == Some(seconds as u64),
        seconds < 0 || seconds > 0xffff_ffff_ffff_ffff ==> unix_time_of(seconds) is None,
{
}

/// A time and the epoch are as far apart whichever of them comes first: the two distances add up to
/// nothing, and a second holds a thousand million nanoseconds.
pub proof fn distances_from_the_epoch(seconds: u64, nanos: u32)
    ensures
        nanos_from_epoch(Ok((seconds, nanos))) + nanos_from_epoch(Err((seconds, nanos))) == 0,
        nanos_from_epoch(Ok((seconds, nanos))) - nanos == seconds * 1_000_000_000,
{
}

/// Every distance from the epoch that a clock gives is one that it can show.
pub proof fn shown_seconds_have_bounds(seconds: int)
    ensures
        can_be_shown(seconds) <==> -0x1_0000_0000_0000_0000 <= seconds < 0x1_0000_0000_0000_0000,
{
}

} // verus!
