//! The Embassy firmware with the SoftDevice: a blink task, a USB serial echo
//! task that resets into the bootloader on `r`, and Bluetooth advertising.
use vstd::prelude::*;
use crate::lights::{LedLevels, Level};
use crate::reset::{GPREGRET_ENTER_SERIAL_DFU, PanicAction, ResetRequest, softdevice_serial_dfu_reset};
use crate::timing::{RTC_TICK_HZ, embassy_delay_ticks};

verus! {

/// How long the LEDs stay in each half of the blink, in milliseconds.
pub const BLINK_HALF_PERIOD_MILLIS: u64 = 500;

/// How this firmware resets into the bootloader's DFU mode.
pub fn reset_into_dfu() -> (request: ResetRequest)
    ensures
        request == (ResetRequest::ClearThenSet { register: 0, clear_mask: 0xff, set: GPREGRET_ENTER_SERIAL_DFU }),
        forall|before: u32|
            before <= 0xff ==> #[trigger] request.register_after(before) == GPREGRET_ENTER_SERIAL_DFU as u32,
{
    let request = softdevice_serial_dfu_reset();
    assert forall|before: u32| before <= 0xff implies #[trigger] request.register_after(before)
        == GPREGRET_ENTER_SERIAL_DFU as u32 by {
        assert((before & !(0xffu8 as u32)) | (0x4Eu8 as u32) == 0x4Eu32) by (bit_vector)
            requires
                before <= 0xff,
        ;
    }
    request
}

/// The panic handler asks the bootloader for serial DFU through the SoftDevice
/// (clearing GPREGRET, then setting the value) and resets.
///
/// The action is the same on every panic, whatever the panic's message or location.
pub fn panic() -> (action: PanicAction)
    ensures
        action == PanicAction::Reset(
            ResetRequest::ClearThenSet { register: 0, clear_mask: 0xff, set: GPREGRET_ENTER_SERIAL_DFU },
        ),
{
    PanicAction::Reset(reset_into_dfu())
}

/// One half of the blink: all three LED pins at `levels`, held for `delay_ticks`.
#[derive(Clone, Copy, Debug, PartialEq, Eq, Structural)]
pub struct BlinkPhase {
    pub levels: LedLevels,
    pub delay_ticks: u64,
    /// Whether the following half drives the pins high.
    pub next_high: bool,
}

/// The blink starts with all pins high.
pub fn first_blink_high() -> (high: bool)
    ensures
        high,
{
    true
}

/// The blink half with all pins high (`high`) or low, and what comes after it.
pub open spec fn spec_blink_phase(high: bool) -> BlinkPhase {
    let level = if high {
        Level::High
    } else {
        Level::Low
    };
    BlinkPhase {
        levels: LedLevels { red: level, green: level, blue: level },
        delay_ticks: ((BLINK_HALF_PERIOD_MILLIS * RTC_TICK_HZ + 999) / 1000) as u64,
        next_high: !high,
    }
}

/// Whether the `k`-th blink half (counted from 0) drives the pins high.
pub open spec fn blink_high_at(k: nat) -> bool
    decreases k,
{
    if k == 0 {
        true
    } else {
        spec_blink_phase(blink_high_at((k - 1) as nat)).next_high
    }
}

proof fn lemma_blink_high_at(k: nat)
    ensures
        blink_high_at(k) == (k % 2 == 0),
    decreases k,
{
    if k > 0 {
        lemma_blink_high_at((k - 1) as nat);
    }
}

/// Over all rounds, from the start: in every half the three pins have the same
/// level; the first half of each second (even `k`) has them all high, the second
/// half all low; every half lasts 500 ms, 16 384 ticks.
pub proof fn lemma_blink_halves(k: nat)
    ensures
        spec_blink_phase(blink_high_at(k)).levels.red == spec_blink_phase(blink_high_at(k)).levels.green,
        spec_blink_phase(blink_high_at(k)).levels.green == spec_blink_phase(blink_high_at(k)).levels.blue,
        spec_blink_phase(blink_high_at(k)).levels.red == (if k % 2 == 0 {
            Level::High
        } else {
            Level::Low
        }),
        spec_blink_phase(blink_high_at(k)).delay_ticks == 16384,
{
    lemma_blink_high_at(k);
}

/// The blink half with all pins high (`high`) or low, and what comes after it.
pub fn blink_phase(high: bool) -> (phase: BlinkPhase)
    ensures
        phase == spec_blink_phase(high),
        phase.levels == (if high {
            LedLevels { red: Level::High, green: Level::High, blue: Level::High }
        } else {
            LedLevels { red: Level::Low, green: Level::Low, blue: Level::Low }
        }),
        phase.delay_ticks == (BLINK_HALF_PERIOD_MILLIS * RTC_TICK_HZ + 999) / 1000,
        phase.next_high == !high,
{
    let level = if high {
        Level::High
    } else {
        Level::Low
    };
    BlinkPhase {
        levels: LedLevels { red: level, green: level, blue: level },
        delay_ticks: embassy_delay_ticks(BLINK_HALF_PERIOD_MILLIS),
        next_high: !high,
    }
}

} // verus!
