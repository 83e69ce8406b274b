//! The interrupt-timer firmware with a USB serial port: it cycles the LEDs and
//! reports each switch, echoes what the host sends, and resets into the
//! bootloader when the host sends `r`.
use vstd::prelude::*;
use crate::echo::RESET_COMMAND;
use crate::lights::{
    LedLevels, LightState, switch_report, switch_report_line, switch_report_prefix, switch_report_suffix,
};
use crate::reset::{
    BootStep, GPREGRET_ENTER_SERIAL_DFU, PanicAction, ResetRequest, one_shot_boot, serial_dfu_reset,
    spec_one_shot_boot,
};

verus! {

/// How this firmware resets into the bootloader's DFU mode.
pub fn reset_into_dfu() -> (request: ResetRequest)
    ensures
        request == (ResetRequest::Write { value: GPREGRET_ENTER_SERIAL_DFU }),
{
    serial_dfu_reset()
}

/// The panic handler asks the bootloader for serial DFU and resets.
///
/// The action is the same on every panic, whatever the panic's message or location.
pub fn panic() -> (action: PanicAction)
    ensures
        action == PanicAction::Reset(ResetRequest::Write { value: GPREGRET_ENTER_SERIAL_DFU }),
{
    PanicAction::Reset(reset_into_dfu())
}

/// The first thing after boot: the one-shot reset, given the GPREGRET value read.
pub fn boot(gpregret: u32) -> (step: BootStep)
    ensures
        step == spec_one_shot_boot(gpregret),
{
    one_shot_boot(gpregret)
}

/// The light state before the first timer period ends.
pub fn initial_light() -> (light: LightState)
    ensures
        light == LightState::Red,
{
    LightState::Red
}

/// What the firmware does when the periodic timer fires.
pub struct TickStep {
    /// The light now shown.
    pub light: LightState,
    /// The LED levels that show it.
    pub levels: LedLevels,
    /// The report written to the serial port, in the pieces that are written one by one.
    pub report: Vec<Vec<u8>>,
}

/// On each timer period: advance the light, show it, and report the switch.
pub fn on_timer_tick(light: LightState) -> (step: TickStep)
    ensures
        step.light == light.spec_next(),
        step.levels == light.spec_next().spec_led_levels(),
        step.report@.len() == 3,
        step.report@[0]@ == switch_report_prefix(),
        step.report@[1]@ == seq![light.spec_next().spec_digit()],
        step.report@[2]@ == switch_report_suffix(),
        step.report@[0]@ + step.report@[1]@ + step.report@[2]@ == switch_report_line(
            light.spec_next(),
        ),
{
    let shown = light.next();
    TickStep { light: shown, levels: shown.led_levels(), report: switch_report(shown) }
}

/// Given what a read of the serial port returned (`None` for an error), the
/// number of received bytes to echo, if any.
pub fn bytes_to_echo(read: Option<usize>) -> (count: Option<usize>)
    ensures
        count == (match read {
            Some(n) => if n > 0 {
                Some(n)
            } else {
                None
            },
            None => None,
        }),
{
    match read {
        Some(n) => if n > 0 {
            Some(n)
        } else {
            None
        },
        None => None,
    }
}

/// After echoing the first `count` bytes of `received`: reset into the serial DFU
/// bootloader exactly when they hold the reset command.
pub fn reset_after_echo(received: &[u8], count: usize) -> (request: Option<ResetRequest>)
    requires
        count <= received@.len(),
    ensures
        request == (if received@.take(count as int).contains(RESET_COMMAND) {
            Some(ResetRequest::Write { value: GPREGRET_ENTER_SERIAL_DFU })
        } else {
            None
        }),
{
    let mut i: usize = 0;
    while i < count
        invariant
            i <= count <= received@.len(),
            forall|j: int| 0 <= j < i ==> received@[j] != RESET_COMMAND,
        decreases count - i,
    {
        if received[i] == RESET_COMMAND {
            assert(received@.take(count as int)[i as int] == RESET_COMMAND);
            return Some(serial_dfu_reset());
        }
        i = i + 1;
    }
    assert(!received@.take(count as int).contains(RESET_COMMAND)) by {
        assert forall|j: int| 0 <= j < count implies received@.take(count as int)[j]
            != RESET_COMMAND by {
            assert(received@.take(count as int)[j] == received@[j]);
        }
    }
    None
}

} // verus!
