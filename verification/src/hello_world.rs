//! The timer-driven firmware: every second it moves on to the next LED.
use vstd::prelude::*;
use crate::lights::{LedLevels, LightState};
use crate::reset::{GPREGRET_DFU_START, PanicAction, ResetRequest};

verus! {

/// How this firmware resets into the bootloader's DFU mode.
pub fn reset_into_dfu() -> (request: ResetRequest)
    ensures
        request == (ResetRequest::Write { value: GPREGRET_DFU_START }),
{
    ResetRequest::Write { value: GPREGRET_DFU_START }
}

/// The panic handler writes Nordic's "start DFU" value to GPREGRET and resets.
///
/// The action is the same on every panic, whatever the panic's message or location.
pub fn panic() -> (action: PanicAction)
    ensures
        action == PanicAction::Reset(ResetRequest::Write { value: GPREGRET_DFU_START }),
{
    PanicAction::Reset(reset_into_dfu())
}

/// The light state before the first period ends.
pub fn initial_light() -> (light: LightState)
    ensures
        light == LightState::Red,
{
    LightState::Red
}

/// At the end of each timer period the firmware advances the light and shows it.
pub fn on_period(light: LightState) -> (next: (LightState, LedLevels))
    ensures
        next.0 == light.spec_next(),
        next.1 == light.spec_next().spec_led_levels(),
{
    let shown = light.next();
    (shown, shown.led_levels())
}

} // verus!
