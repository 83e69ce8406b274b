//! The RTIC firmware: two blink tasks on the RTC monotonic, one of them
//! reporting over the USB serial port, and a task that polls USB.
use vstd::prelude::*;
use crate::lights::Level;
use crate::reset::{
    BootStep, GPREGRET_ENTER_SERIAL_DFU, PanicAction, ResetRequest, one_shot_boot, serial_dfu_reset,
    spec_one_shot_boot,
};
use crate::timing::{RTC_TICK_HZ, rtc_delay_ticks};

verus! {

/// Period of the red LED task, in milliseconds.
pub const RED_BLINK_MILLIS: u64 = 1000;

/// Period of the blue LED task, in milliseconds.
pub const BLUE_BLINK_MILLIS: u64 = 100;

/// Pause between USB polls, in milliseconds. USB wants a poll at least every
/// 10 ms; 5 ms and 10 ms proved too slow for the host to detect the device.
pub const USB_POLL_MILLIS: u64 = 2;

/// How this firmware resets into the bootloader's DFU mode.
pub fn reset_into_dfu() -> (request: ResetRequest)
    ensures
        request == (ResetRequest::Write { value: GPREGRET_ENTER_SERIAL_DFU }),
{
    serial_dfu_reset()
}

/// The panic handler asks the bootloader for serial DFU and resets.
///
/// The action is the same on every panic, whatever the panic's message or location.
pub fn panic() -> (action: PanicAction)
    ensures
        action == PanicAction::Reset(ResetRequest::Write { value: GPREGRET_ENTER_SERIAL_DFU }),
{
    PanicAction::Reset(reset_into_dfu())
}

/// The start of `init`: the one-shot reset, given the GPREGRET value read.
pub fn boot(gpregret: u32) -> (step: BootStep)
    ensures
        step == spec_one_shot_boot(gpregret),
{
    one_shot_boot(gpregret)
}

/// Both blink tasks start in their "off" half.
pub fn initial_blink_on() -> (on: bool)
    ensures
        !on,
{
    false
}

/// One round of a blink task.
#[derive(Clone, Copy, Debug, PartialEq, Eq, Structural)]
pub struct BlinkStep {
    /// Whether the blink is now in its "on" half.
    pub on: bool,
    /// The level the LED pin is set to: high in the "on" half.
    pub level: Level,
    /// The delay before the next round, in RTC monotonic ticks.
    pub delay_ticks: u64,
}

/// The round that follows a blink task's state `on`, with a period of `millis`.
pub open spec fn spec_blink(on: bool, millis: u64) -> BlinkStep {
    BlinkStep {
        on: !on,
        level: if !on {
            Level::High
        } else {
            Level::Low
        },
        delay_ticks: (millis * RTC_TICK_HZ / 1000) as u64,
    }
}

/// `"red on\n"` or `"red off\n"` in ASCII.
pub open spec fn red_message(on: bool) -> Seq<u8> {
    if on {
        seq![114u8, 101, 100, 32, 111, 110, 10]
    } else {
        seq![114u8, 101, 100, 32, 111, 102, 102, 10]
    }
}

/// A round of the red task: toggle, set the LED, report the new state, wait a second.
pub fn blink_red(on: bool) -> (step: (BlinkStep, Vec<u8>))
    ensures
        step.0 == spec_blink(on, RED_BLINK_MILLIS),
        step.1@ == red_message(step.0.on),
{
    let now_on: bool = !on;
    let level = if now_on {
        Level::High
    } else {
        Level::Low
    };
    let message: Vec<u8> = if now_on {
        vec![114, 101, 100, 32, 111, 110, 10]
    } else {
        vec![114, 101, 100, 32, 111, 102, 102, 10]
    };
    (BlinkStep { on: now_on, level, delay_ticks: rtc_delay_ticks(RED_BLINK_MILLIS) }, message)
}

/// A round of the blue task: toggle, set the LED, wait a tenth of a second.
pub fn blink_blue(on: bool) -> (step: BlinkStep)
    ensures
        step == spec_blink(on, BLUE_BLINK_MILLIS),
{
    let now_on: bool = !on;
    let level = if now_on {
        Level::High
    } else {
        Level::Low
    };
    BlinkStep { on: now_on, level, delay_ticks: rtc_delay_ticks(BLUE_BLINK_MILLIS) }
}

/// The pause between USB polls, in RTC monotonic ticks.
pub fn usb_poll_delay_ticks() -> (ticks: u64)
    ensures
        ticks == USB_POLL_MILLIS * RTC_TICK_HZ / 1000,
{
    rtc_delay_ticks(USB_POLL_MILLIS)
}

/// Whether a blink task is in its "on" half after `k` rounds from its start.
pub open spec fn blink_on_after(k: nat) -> bool
    decreases k,
{
    if k == 0 {
        false
    } else {
        spec_blink(blink_on_after((k - 1) as nat), 0).on
    }
}

/// The `k`-th round (counted from 1) of a blink task with period `millis`.
pub open spec fn blink_round(k: nat, millis: u64) -> BlinkStep
    recommends
        k >= 1,
{
    spec_blink(blink_on_after((k - 1) as nat), millis)
}

proof fn lemma_blink_on_after(k: nat)
    ensures
        blink_on_after(k) == (k % 2 == 1),
    decreases k,
{
    if k > 0 {
        lemma_blink_on_after((k - 1) as nat);
    }
}

/// Round by round, from the task's start: the odd rounds set the pin high and
/// the red task reports "red on", the even rounds set it low and it reports
/// "red off" (the report always names the level just set); the red task waits
/// one second (32 768 ticks) after each round, the blue task a tenth of a second
/// (3276 ticks).
pub proof fn lemma_blink_rounds(k: nat)
    requires
        k >= 1,
    ensures
        blink_round(k, RED_BLINK_MILLIS).on == (k % 2 == 1),
        blink_round(k, RED_BLINK_MILLIS).level == (if k % 2 == 1 {
            Level::High
        } else {
            Level::Low
        }),
        red_message(blink_round(k, RED_BLINK_MILLIS).on) == (if k % 2 == 1 {
            red_message(true)
        } else {
            red_message(false)
        }),
        (red_message(blink_round(k, RED_BLINK_MILLIS).on) == red_message(true)) <==> (blink_round(
            k,
            RED_BLINK_MILLIS,
        ).level == Level::High),
        blink_round(k, RED_BLINK_MILLIS).delay_ticks == 32768,
        blink_round(k, BLUE_BLINK_MILLIS).on == (k % 2 == 1),
        blink_round(k, BLUE_BLINK_MILLIS).level == (if k % 2 == 1 {
            Level::High
        } else {
            Level::Low
        }),
        blink_round(k, BLUE_BLINK_MILLIS).delay_ticks == 3276,
{
    lemma_blink_on_after((k - 1) as nat);
    assert(red_message(true) != red_message(false)) by {
        assert(red_message(true).len() != red_message(false).len());
    }
}

/// A blink task alternates: every round flips the LED, and two rounds bring it
/// back to where it was; the pin is high exactly in the "on" rounds.
pub proof fn lemma_blink_alternates(on: bool, millis: u64)
    ensures
        spec_blink(spec_blink(on, millis).on, millis).on == on,
        spec_blink(on, millis).level != spec_blink(spec_blink(on, millis).on, millis).level,
        (spec_blink(on, millis).level == Level::High) <==> spec_blink(on, millis).on,
{
}

} // verus!
