use xiao_nrf52840::reset::{
    one_shot_boot, serial_dfu_reset, softdevice_serial_dfu_reset, BootStep, ResetRequest,
    GPREGRET_DFU_START, GPREGRET_ENTER_OTA_DFU, GPREGRET_ENTER_SERIAL_DFU, GPREGRET_ENTER_UF2_DFU,
    GPREGRET_ONE_SHOT_RESET_MARKER,
};

#[test]
fn bootloader_values() {
    assert_eq!(GPREGRET_ENTER_SERIAL_DFU, 0x4E);
    assert_eq!(GPREGRET_ENTER_UF2_DFU, 0x57);
    assert_eq!(GPREGRET_ENTER_OTA_DFU, 0xA8);
    assert_eq!(GPREGRET_ONE_SHOT_RESET_MARKER, 0xA5);
    assert_eq!(GPREGRET_DFU_START, 0xB1);
}

#[test]
fn first_boot_after_flashing_writes_marker_and_resets() {
    assert_eq!(one_shot_boot(0), BootStep { gpregret: 0xA5, reset: true });
    assert_eq!(one_shot_boot(0x4E), BootStep { gpregret: 0xA5, reset: true });
    assert_eq!(one_shot_boot(0x1A5), BootStep { gpregret: 0xA5, reset: true });
}

#[test]
fn second_boot_clears_marker_and_continues() {
    assert_eq!(one_shot_boot(0xA5), BootStep { gpregret: 0, reset: false });
}

#[test]
fn power_cycle_gives_exactly_one_extra_reset() {
    // GPREGRET reads 0 after a power cycle and survives a system reset.
    let mut register: u32 = 0;
    let mut resets = 0;
    loop {
        let step = one_shot_boot(register);
        register = step.gpregret;
        if !step.reset {
            break;
        }
        resets += 1;
        assert!(resets <= 1);
    }
    assert_eq!(resets, 1);
    assert_eq!(register, 0);
}

#[test]
fn dfu_reset_requests() {
    assert_eq!(serial_dfu_reset(), ResetRequest::Write { value: 0x4E });
    assert_eq!(
        softdevice_serial_dfu_reset(),
        ResetRequest::ClearThenSet { register: 0, clear_mask: 0xff, set: 0x4E }
    );
    // Clearing the low byte and setting the value leaves 0x4E whatever GPREGRET held.
    for before in 0u32..=0xff {
        assert_eq!((before & !0xffu32) | 0x4E, 0x4E);
    }
}
