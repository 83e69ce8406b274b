use vstd::prelude::*;

verus! {

/// GPREGRET value that makes the Adafruit bootloader enter CDC/serial DFU on the next reset.
pub const GPREGRET_ENTER_SERIAL_DFU: u8 = 0x4E;

/// GPREGRET value that makes the Adafruit bootloader enter UF2 + CDC mode on the next reset.
pub const GPREGRET_ENTER_UF2_DFU: u8 = 0x57;

/// GPREGRET value that makes the Adafruit bootloader enter OTA DFU mode on the next reset.
pub const GPREGRET_ENTER_OTA_DFU: u8 = 0xA8;

/// Nordic's "start DFU" GPREGRET value, used by the plain blinking firmware.
pub const GPREGRET_DFU_START: u8 = 0xB1;

/// Application marker: one extra reset has already been requested since the last flashing.
pub const GPREGRET_ONE_SHOT_RESET_MARKER: u8 = 0xA5;

/// What a boot does about the one-shot reset that makes the USB CDC device
/// enumerate again after serial DFU flashing.
#[derive(Clone, Copy, Debug, PartialEq, Eq, Structural)]
pub struct BootStep {
    /// The value written to GPREGRET.
    pub gpregret: u32,
    /// Whether the system resets right after the write.
    pub reset: bool,
}

/// The one-shot reset decision, given the GPREGRET value read at boot: without
/// the marker, write the marker and reset; with it, clear the register and go on.
pub open spec fn spec_one_shot_boot(current: u32) -> BootStep {
    if current != GPREGRET_ONE_SHOT_RESET_MARKER as u32 {
        BootStep { gpregret: GPREGRET_ONE_SHOT_RESET_MARKER as u32, reset: true }
    } else {
        BootStep { gpregret: 0, reset: false }
    }
}

/// Decides the boot step from the GPREGRET value read at start-up.
pub fn one_shot_boot(current: u32) -> (step: BootStep)
    ensures
        step == spec_one_shot_boot(current),
{
    if current != GPREGRET_ONE_SHOT_RESET_MARKER as u32 {
        BootStep { gpregret: GPREGRET_ONE_SHOT_RESET_MARKER as u32, reset: true }
    } else {
        BootStep { gpregret: 0, reset: false }
    }
}

/// The GPREGRET value that the boot after a system reset reads: a system reset
/// keeps GPREGRET, so it is the value the previous boot wrote.
pub open spec fn value_after_system_reset(step: BootStep) -> u32 {
    step.gpregret
}

/// The one-shot reset protocol settles after at most one extra reset. Whatever
/// GPREGRET holds at boot, a boot that resets is followed (GPREGRET surviving the
/// reset) by a boot that continues, and every boot that continues leaves GPREGRET
/// cleared. After a power cycle, when GPREGRET reads 0, the device resets exactly once.
pub proof fn lemma_one_shot_reset_settles(current: u32)
    ensures
        !spec_one_shot_boot(current).reset ==> spec_one_shot_boot(current).gpregret == 0,
        spec_one_shot_boot(current).reset ==> !spec_one_shot_boot(
            value_after_system_reset(spec_one_shot_boot(current)),
        ).reset,
        spec_one_shot_boot(current).reset ==> spec_one_shot_boot(
            value_after_system_reset(spec_one_shot_boot(current)),
        ).gpregret == 0,
        spec_one_shot_boot(0).reset,
        !spec_one_shot_boot(value_after_system_reset(spec_one_shot_boot(0))).reset,
{
}

/// How the firmware asks the bootloader for DFU mode before resetting.
#[derive(Clone, Copy, Debug, PartialEq, Eq, Structural)]
pub enum ResetRequest {
    /// Write `value` to GPREGRET, then reset the system.
    Write { value: u8 },
    /// Through the SoftDevice, clear the bits in `clear_mask` of retention register
    /// `register` (0 is GPREGRET, 1 is GPREGRET2), then set the bits of `set` in it,
    /// then reset the system.
    ClearThenSet { register: u8, clear_mask: u8, set: u8 },
}

impl ResetRequest {
    /// The value that the request leaves in the register it writes (GPREGRET for a
    /// direct write), given the value before it.
    pub open spec fn register_after(self, before: u32) -> u32 {
        match self {
            ResetRequest::Write { value } => value as u32,
            ResetRequest::ClearThenSet { clear_mask, set, .. } => (before & !(clear_mask as u32)) | (
            set as u32),
        }
    }
}

/// Reset into the serial DFU bootloader by writing GPREGRET directly.
pub fn serial_dfu_reset() -> (request: ResetRequest)
    ensures
        request == (ResetRequest::Write { value: GPREGRET_ENTER_SERIAL_DFU }),
{
    ResetRequest::Write { value: GPREGRET_ENTER_SERIAL_DFU }
}

/// Reset into the serial DFU bootloader through the SoftDevice: clear the whole
/// low byte of GPREGRET, then set the serial DFU value.
pub fn softdevice_serial_dfu_reset() -> (request: ResetRequest)
    ensures
        request == (ResetRequest::ClearThenSet { register: 0, clear_mask: 0xff, set: GPREGRET_ENTER_SERIAL_DFU }),
{
    ResetRequest::ClearThenSet { register: 0, clear_mask: 0xff, set: GPREGRET_ENTER_SERIAL_DFU }
}

/// What a panic handler does.
#[derive(Clone, Copy, Debug, PartialEq, Eq, Structural)]
pub enum PanicAction {
    /// Stop at a debugger breakpoint, over and over.
    Breakpoint,
    /// Ask the bootloader for DFU mode and reset.
    Reset(ResetRequest),
}

/// Both ways of requesting serial DFU leave the bootloader the same GPREGRET value,
/// whatever the register held before, as long as it held an 8-bit value (GPREGRET
/// implements only its low eight bits).
pub proof fn lemma_serial_dfu_requests_agree(before: u32)
    requires
        before <= 0xff,
    ensures
        (ResetRequest::Write { value: GPREGRET_ENTER_SERIAL_DFU }).register_after(before)
            == (ResetRequest::ClearThenSet {
            register: 0,
            clear_mask: 0xff,
            set: GPREGRET_ENTER_SERIAL_DFU,
        }).register_after(before),
        (ResetRequest::Write { value: GPREGRET_ENTER_SERIAL_DFU }).register_after(before)
            == GPREGRET_ENTER_SERIAL_DFU as u32,
{
    assert((before & !(0xffu8 as u32)) | (0x4Eu8 as u32) == 0x4Eu32) by (bit_vector)
        requires
            before <= 0xff,
    ;
}

} // verus!
