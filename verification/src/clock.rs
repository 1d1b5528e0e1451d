//! The wall clock, read where the logic needs the current time.

use vstd::prelude::*;

verus! {

#[verifier::external_type_specification]
#[verifier::external_body]
pub struct ExSystemTime(std::time::SystemTime);

#[verifier::external_type_specification]
#[verifier::external_body]
pub struct ExSystemTimeError(std::time::SystemTimeError);

/// `SystemTime::now`. Nothing is claimed of the value: it depends on the
/// machine's clock.
#[verifier::external_body]
fn system_now() -> std::time::SystemTime {
    std::time::SystemTime::now()
}

/// `SystemTime::duration_since(UNIX_EPOCH)`: the time since the epoch, or an
/// error for a clock set before it. Nothing is claimed of either outcome.
#[verifier::external_body]
fn since_epoch(t: &std::time::SystemTime) -> Result<std::time::Duration, std::time::SystemTimeError> {
    t.duration_since(std::time::UNIX_EPOCH)
}

/// `Duration::as_millis`: the whole milliseconds of the duration. Nothing is
/// claimed of the value, since no view of a `Duration` is stated.
#[verifier::external_body]
fn duration_millis(d: &std::time::Duration) -> u128 {
    d.as_millis()
}

/// The current time as whole milliseconds since the Unix epoch: 0 for a
/// clock set before the epoch, and `u64::MAX` for one beyond what a `u64`
/// holds.
pub(crate) fn now_unix_millis() -> (r: u64) {
    let t = system_now();
    match since_epoch(&t) {
        Ok(d) => {
            let ms: u128 = duration_millis(&d);
            if ms > 0xffff_ffff_ffff_ffffu128 {
                0xffff_ffff_ffff_ffffu64
            } else {
                ms as u64
            }
        },
        Err(_) => 0,
    }
}

} // verus!
