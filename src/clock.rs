use std::time::SystemTime;
use vstd::prelude::*;

verus! {

#[verifier::external_type_specification]
#[verifier::external_body]
pub struct ExSystemTime(SystemTime);

/// Relies on `SystemTime::now`: a reading of the system clock, of which
/// nothing is promised.
#[verifier::external_body]
fn clock_reading() -> SystemTime {
    SystemTime::now()
}

/// Relies on `SystemTime::duration_since` against `UNIX_EPOCH`: `Ok` holds the
/// whole seconds by which `t` follows the epoch, `Err` those by which it
/// precedes it.
#[verifier::external_body]
fn seconds_around_epoch(t: &SystemTime) -> Result<u64, u64> {
    match t.duration_since(std::time::UNIX_EPOCH) {
        Ok(d) => Ok(d.as_secs()),
        Err(e) => Err(e.duration().as_secs()),
    }
}

/// The current time in whole seconds since the Unix epoch (negative before it).
pub fn unix_now() -> (r: i128)
    ensures
        -(u64::MAX as int) <= r <= u64::MAX,
{
    let t = clock_reading();
    match seconds_around_epoch(&t) {
        Ok(s) => s as i128,
        Err(s) => -(s as i128),
    }
}

} // verus!
