//! The first firmware: cycles the three LEDs with blocking one-second delays.
use vstd::prelude::*;
use crate::lights::{LedLevels, LightState};
use crate::reset::PanicAction;

verus! {

/// How long each light stays on, in milliseconds.
pub const FRAME_MILLIS: u32 = 1000;

/// The panic handler stops at a debugger breakpoint, again and again.
///
/// The action is the same on every panic, whatever the panic's message or location.
pub fn panic() -> (action: PanicAction)
    ensures
        action == PanicAction::Breakpoint,
{
    PanicAction::Breakpoint
}

/// The light shown first.
pub fn first_light() -> (light: LightState)
    ensures
        light == LightState::Red,
{
    LightState::Red
}

/// One frame of the main loop: the LED levels to set, how long to hold them,
/// and the light of the following frame.
#[derive(Clone, Copy, Debug, PartialEq, Eq, Structural)]
pub struct Frame {
    pub levels: LedLevels,
    pub hold_millis: u32,
    pub next: LightState,
}

/// The frame that shows `light`.
pub fn frame(light: LightState) -> (f: Frame)
    ensures
        f.levels == light.spec_led_levels(),
        f.hold_millis == FRAME_MILLIS,
        f.next == light.spec_next(),
{
    Frame { levels: light.led_levels(), hold_millis: FRAME_MILLIS, next: light.next() }
}

} // verus!
