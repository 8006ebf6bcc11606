//! Wall-clock time as milliseconds since the Unix epoch.
use std::time::Duration;
use std::time::SystemTimeError;
use vstd::prelude::*;

verus! {

/// `std::time::SystemTimeError`, the error of a clock reading that lies
/// before the time it is measured from. Verus sees nothing inside it.
#[verifier::external_type_specification]
#[verifier::external_body]
pub struct ExSystemTimeError(std::time::SystemTimeError);

/// Number of whole milliseconds in `d`, as `Duration::as_millis` returns it.
pub uninterp spec fn whole_millis(d: Duration) -> u128;

/// The value of `ms` as a `u64`: its low 64 bits, which is `ms` itself
/// whenever `ms` fits.
pub open spec fn low_u64(ms: u128) -> u64 {
    (ms % 0x1_0000_0000_0000_0000u128) as u64
}

/// The millisecond count that a clock reading stands for: the whole
/// milliseconds elapsed since the epoch, cut to 64 bits, or 0 when the
/// clock reads a time before the epoch.
pub open spec fn epoch_millis(elapsed_millis: Option<u128>) -> u64 {
    match elapsed_millis {
        Some(ms) => low_u64(ms),
        None => 0,
    }
}

/// Whether `e` is an outcome that one reading of the system clock by
/// `unix_epoch_elapsed` may give.
pub closed spec fn is_clock_reading(e: Result<Duration, SystemTimeError>) -> bool {
    call_ensures(unix_epoch_elapsed, (), e)
}

/// Calls `SystemTime::elapsed` on `UNIX_EPOCH`: the time from the epoch to
/// the current reading of the system clock, or an error when the clock is set
/// before the epoch. The outcome depends on the clock, so nothing is promised
/// of it.
#[verifier::external_body]
fn unix_epoch_elapsed() -> (r: Result<Duration, SystemTimeError>) {
    std::time::UNIX_EPOCH.elapsed()
}

/// Calls `Duration::as_millis`, which returns the total number of whole
/// milliseconds in `d`; its result is named `whole_millis(d)`.
#[verifier::external_body]
fn duration_as_millis(d: &Duration) -> (ms: u128)
    ensures
        ms == whole_millis(*d),
{
    d.as_millis()
}

/// Turns a millisecond count since the epoch, or `None` for a clock set
/// before the epoch, into the `u64` that `current_time_millis` returns:
/// the count cut to 64 bits, or 0.
pub fn millis_or_zero(elapsed_millis: Option<u128>) -> (r: u64)
    ensures
        r == epoch_millis(elapsed_millis),
        elapsed_millis is None ==> r == 0,
        elapsed_millis is Some && elapsed_millis->0 <= u64::MAX ==> r == elapsed_millis->0,
{
    match elapsed_millis {
        Some(ms) => {
            let r: u64 = ms as u64;
            assert(ms as u64 == (ms % 0x1_0000_0000_0000_0000u128) as u64) by (bit_vector);
            r
        },
        None => 0,
    }
}

/// The millisecond count for a clock reading taken as the time elapsed since
/// the epoch: its whole milliseconds cut to 64 bits, or 0 when the reading
/// failed because the clock is set before the epoch.
pub fn millis_since_epoch(elapsed: Result<Duration, SystemTimeError>) -> (r: u64)
    ensures
        r == epoch_millis(
            match elapsed {
                Ok(d) => Some(whole_millis(d)),
                Err(_) => None,
            },
        ),
        elapsed is Err ==> r == 0,
{
    let elapsed_millis: Option<u128> = match elapsed {
        Ok(d) => Some(duration_as_millis(&d)),
        Err(_) => None,
    };
    millis_or_zero(elapsed_millis)
}

/// Returns the current time in milliseconds since the Unix epoch.
///
/// Returns 0 if the system clock is set before the Unix epoch (1970-01-01),
/// which should never happen on a correctly configured system. The result is
/// what `millis_since_epoch` makes of one reading of the clock by
/// `unix_epoch_elapsed`; which reading that is rests on the clock.
pub fn current_time_millis() -> (r: u64)
    ensures
        exists|e: Result<Duration, SystemTimeError>|
            is_clock_reading(e) && r == epoch_millis(
                match e {
                    Ok(d) => Some(whole_millis(d)),
                    Err(_) => None,
                },
            ),
{
    let read_clock = unix_epoch_elapsed;
    let elapsed = read_clock();
    assert(is_clock_reading(elapsed));
    millis_since_epoch(elapsed)
}

} // verus!
