use vstd::prelude::*;

verus! {

/// Ticks per second of the RTC timebases used by both schedulers.
pub const RTC_TICK_HZ: u64 = 32_768;

/// Longest delay, in milliseconds, whose tick count the timebases can compute
/// without overflowing: both multiply the milliseconds by 4096 in a `u64`.
pub const MAX_DELAY_MILLIS: u64 = 0x000f_ffff_ffff_ffff;

/// Calls `fugit::Duration::<u64, 1, 32_768>::from_millis` (fugit as re-exported by
/// `rtic_monotonics`; it is the duration type of the RTC monotonic) and returns the
/// duration's tick count with `as_ticks`. fugit reduces 32 768 / 1000 to 4096 / 125,
/// multiplies with `checked_mul` (panicking on overflow) and divides rounding down.
#[verifier::external_body]
fn rtc_monotonic_ticks(ms: u64) -> (ticks: u64)
    requires
        ms <= MAX_DELAY_MILLIS,
    ensures
        ticks == ms * 4096 / 125,
{
    rtic_monotonics::fugit::Duration::<u64, 1, 32_768>::from_millis(ms).as_ticks()
}

/// Calls `embassy_time::Duration::from_millis` and returns the duration's tick
/// count with `as_ticks`. embassy-time computes `div_ceil(ms * (TICK_HZ / g), 1000 / g)`
/// with `g = gcd(TICK_HZ, 1000)`; in this crate's dependency set `TICK_HZ` is 32 768
/// (embassy-nrf's `time-driver-rtc1` feature selects `tick-hz-32_768`), so it is the
/// round-up of `ms * 4096 / 125`. The multiplication overflows past `MAX_DELAY_MILLIS`.
#[verifier::external_body]
fn embassy_time_ticks(ms: u64) -> (ticks: u64)
    requires
        ms <= MAX_DELAY_MILLIS,
    ensures
        ticks == (ms * 4096 + 124) / 125,
{
    embassy_time::Duration::from_millis(ms).as_ticks()
}

/// The RTIC RTC monotonic's tick count for a delay of `ms` milliseconds, rounded down.
pub fn rtc_delay_ticks(ms: u64) -> (ticks: u64)
    requires
        ms <= MAX_DELAY_MILLIS,
    ensures
        ticks == ms * RTC_TICK_HZ / 1000,
        ticks * 1000 <= ms * RTC_TICK_HZ < (ticks + 1) * 1000,
{
    let ticks: u64 = rtc_monotonic_ticks(ms);
    assert(ms * 4096 / 125 == ms * 32768 / 1000) by (nonlinear_arith);
    assert(ticks * 1000 <= ms * 32768 < (ticks + 1) * 1000) by (nonlinear_arith)
        requires
            ticks == ms * 32768 / 1000,
    ;
    ticks
}

/// The embassy-time tick count for a delay of `ms` milliseconds, rounded up.
pub fn embassy_delay_ticks(ms: u64) -> (ticks: u64)
    requires
        ms <= MAX_DELAY_MILLIS,
    ensures
        ticks == (ms * RTC_TICK_HZ + 999) / 1000,
        (ticks - 1) * 1000 < ms * RTC_TICK_HZ <= ticks * 1000,
{
    let ticks: u64 = embassy_time_ticks(ms);
    assert((ms * 4096 + 124) / 125 == (ms * 32768 + 999) / 1000) by (nonlinear_arith);
    assert((ticks - 1) * 1000 < ms * 32768 <= ticks * 1000) by (nonlinear_arith)
        requires
            ticks == (ms * 32768 + 999) / 1000,
    ;
    ticks
}

} // verus!
