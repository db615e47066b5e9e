use std::time::{Duration, SystemTime, SystemTimeError};
use vstd::prelude::*;

verus! {

/// An instant of the system's wall clock. Nothing is known of what is
/// inside.
#[verifier::external_type_specification]
#[verifier::external_body]
pub struct ExSystemTime(std::time::SystemTime);

/// What `SystemTime::duration_since` returns where the second instant is
/// the later one. Nothing is known of what is inside.
#[verifier::external_type_specification]
#[verifier::external_body]
pub struct ExSystemTimeError(std::time::SystemTimeError);

/// `SystemTime::now` of std reads the wall clock. Nothing is claimed of
/// the instant: the clock may be set at will and may go backwards.
pub assume_specification[ std::time::SystemTime::now ]() -> (now: SystemTime)
;

/// `SystemTime::duration_since` of std gives the span from `earlier` to
/// `at`, or an error where `earlier` is the later of the two. Nothing is
/// claimed of which it is.
pub assume_specification[ std::time::SystemTime::duration_since ](
    at: &SystemTime,
    earlier: SystemTime,
) -> (span: Result<Duration, SystemTimeError>)
;

/// `Duration::as_millis` of std gives the whole milliseconds of a span.
/// Nothing is claimed of the number.
pub assume_specification[ std::time::Duration::as_millis ](span: &Duration) -> (millis: u128)
;

/// The constant `UNIX_EPOCH` of std: 1970-01-01T00:00:00Z as an instant.
#[verifier::external_body]
fn unix_epoch() -> (epoch: SystemTime) {
    std::time::UNIX_EPOCH
}

/// The wall clock in milliseconds since 1970-01-01T00:00:00Z, as
/// `reading_to_millis` makes them of what the clock gave: any number may come.
pub(crate) fn get_time_milli() -> (millis: u64)
    ensures
        exists|reading: Option<u128>| millis == #[trigger] millis_of_reading(reading),
{
    let now = SystemTime::now();
    match now.duration_since(unix_epoch()) {
        Ok(span) => reading_to_millis(Some(span.as_millis())),
        Err(_) => reading_to_millis(None),
    }
}

/// The milliseconds that a reading of the clock stands for. A reading is
/// the whole milliseconds from 1970-01-01T00:00:00Z to the instant read, or
/// `None` where the instant lies before it. The milliseconds are the low 64
/// bits of that number, and zero where there is none.
pub open spec fn millis_of_reading(since_epoch: Option<u128>) -> u64 {
    match since_epoch {
        Some(whole) => (whole % 0x1_0000_0000_0000_0000) as u64,
        None => 0,
    }
}

/// The milliseconds that a reading of the clock stands for.
pub fn reading_to_millis(since_epoch: Option<u128>) -> (millis: u64)
    ensures
        millis == millis_of_reading(since_epoch),
        since_epoch matches Some(whole) ==> (whole <= u64::MAX ==> millis == whole),
{
    match since_epoch {
        Some(whole) => {
            let low: u128 = whole & 0xffff_ffff_ffff_ffff;
            assert(low == whole % 0x1_0000_0000_0000_0000 && low <= 0xffff_ffff_ffff_ffff) by (
            bit_vector)
                requires
                    low == whole & 0xffff_ffff_ffff_ffff,
            ;
            low as u64
        },
        None => 0,
    }
}

} // verus!
