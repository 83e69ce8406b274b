use xiao_nrf52840::lights::{LedLevels, Level, LightState};
use xiao_nrf52840::reset::{BootStep, PanicAction, ResetRequest};
use xiao_nrf52840::timing::{embassy_delay_ticks, rtc_delay_ticks, RTC_TICK_HZ};
use xiao_nrf52840::{blinky, embassy_softdevice, hello_world, rtic_blinky, usb_serial};

#[test]
fn panic_handlers() {
    assert_eq!(blinky::panic(), PanicAction::Breakpoint);
    assert_eq!(hello_world::panic(), PanicAction::Reset(ResetRequest::Write { value: 0xB1 }));
    assert_eq!(usb_serial::panic(), PanicAction::Reset(ResetRequest::Write { value: 0x4E }));
    assert_eq!(rtic_blinky::panic(), PanicAction::Reset(ResetRequest::Write { value: 0x4E }));
    assert_eq!(
        embassy_softdevice::panic(),
        PanicAction::Reset(ResetRequest::ClearThenSet { register: 0, clear_mask: 0xff, set: 0x4E })
    );
    assert_eq!(usb_serial::reset_into_dfu(), ResetRequest::Write { value: 0x4E });
    assert_eq!(hello_world::reset_into_dfu(), ResetRequest::Write { value: 0xB1 });
}

#[test]
fn blinky_frames_show_red_green_blue_for_a_second_each() {
    let mut light = blinky::first_light();
    let mut shown = Vec::new();
    for _ in 0..4 {
        let f = blinky::frame(light);
        assert_eq!(f.hold_millis, 1000);
        assert_eq!(f.levels, light.led_levels());
        shown.push(light);
        light = f.next;
    }
    assert_eq!(shown, vec![LightState::Red, LightState::Green, LightState::Blue, LightState::Red]);
}

#[test]
fn hello_world_advances_before_showing() {
    let start = hello_world::initial_light();
    assert_eq!(start, LightState::Red);
    let (l, levels) = hello_world::on_period(start);
    assert_eq!(l, LightState::Green);
    assert_eq!(levels, LedLevels { red: Level::High, green: Level::Low, blue: Level::High });
}

#[test]
fn usb_serial_tick_reports_the_new_light() {
    let step = usb_serial::on_timer_tick(usb_serial::initial_light());
    assert_eq!(step.light, LightState::Green);
    assert_eq!(step.levels, LightState::Green.led_levels());
    assert_eq!(step.report.concat(), b"Switched light to 1\r\n".to_vec());
    let step = usb_serial::on_timer_tick(LightState::Blue);
    assert_eq!(step.report.concat(), b"Switched light to 0\r\n".to_vec());
}

#[test]
fn usb_serial_echo_and_reset_decisions() {
    assert_eq!(usb_serial::bytes_to_echo(Some(5)), Some(5));
    assert_eq!(usb_serial::bytes_to_echo(Some(0)), None);
    assert_eq!(usb_serial::bytes_to_echo(None), None);
    let mut buf = [0u8; 64];
    buf[..4].copy_from_slice(b"abrc");
    assert_eq!(usb_serial::reset_after_echo(&buf, 4), Some(ResetRequest::Write { value: 0x4E }));
    assert_eq!(usb_serial::reset_after_echo(&buf, 2), None);
    buf[10] = b'r';
    assert_eq!(usb_serial::reset_after_echo(&buf, 2), None);
    assert_eq!(usb_serial::reset_after_echo(b"hello", 5), None);
}

#[test]
fn boots_use_the_one_shot_reset() {
    assert_eq!(usb_serial::boot(0), BootStep { gpregret: 0xA5, reset: true });
    assert_eq!(usb_serial::boot(0xA5), BootStep { gpregret: 0, reset: false });
    assert_eq!(rtic_blinky::boot(7), BootStep { gpregret: 0xA5, reset: true });
    assert_eq!(rtic_blinky::boot(0xA5), BootStep { gpregret: 0, reset: false });
}

#[test]
fn rtc_ticks_round_down() {
    assert_eq!(RTC_TICK_HZ, 32_768);
    assert_eq!(rtc_delay_ticks(1000), 32_768);
    assert_eq!(rtc_delay_ticks(100), 3_276);
    assert_eq!(rtc_delay_ticks(2), 65);
    assert_eq!(rtc_delay_ticks(0), 0);
    assert_eq!(rtc_delay_ticks(1), 32);
}

#[test]
fn embassy_ticks_round_up() {
    assert_eq!(embassy_delay_ticks(500), 16_384);
    assert_eq!(embassy_delay_ticks(1), 33);
    assert_eq!(embassy_delay_ticks(2), 66);
    assert_eq!(embassy_delay_ticks(0), 0);
}

#[test]
fn rtic_blink_tasks() {
    let (step, msg) = rtic_blinky::blink_red(false);
    assert!(step.on);
    assert_eq!(step.level, Level::High);
    assert_eq!(step.delay_ticks, 32_768);
    assert_eq!(msg, b"red on\n".to_vec());
    let (step2, msg2) = rtic_blinky::blink_red(step.on);
    assert!(!step2.on);
    assert_eq!(step2.level, Level::Low);
    assert_eq!(msg2, b"red off\n".to_vec());
    let blue = rtic_blinky::blink_blue(false);
    assert!(blue.on);
    assert_eq!(blue.level, Level::High);
    assert_eq!(blue.delay_ticks, 3_276);
    assert_eq!(rtic_blinky::blink_blue(true).level, Level::Low);
    assert_eq!(rtic_blinky::usb_poll_delay_ticks(), 65);
}

#[test]
fn embassy_blink_alternates_every_half_second() {
    let mut high = embassy_softdevice::first_blink_high();
    assert!(high);
    let p = embassy_softdevice::blink_phase(high);
    assert_eq!(p.levels, LedLevels { red: Level::High, green: Level::High, blue: Level::High });
    assert_eq!(p.delay_ticks, 16_384);
    high = p.next_high;
    let p = embassy_softdevice::blink_phase(high);
    assert_eq!(p.levels, LedLevels { red: Level::Low, green: Level::Low, blue: Level::Low });
    assert!(p.next_high);
}

#[test]
fn rtic_blink_rounds_alternate_from_off() {
    let mut red = rtic_blinky::initial_blink_on();
    let mut blue = rtic_blinky::initial_blink_on();
    assert!(!red && !blue);
    for k in 1..=6u32 {
        let (step, msg) = rtic_blinky::blink_red(red);
        red = step.on;
        let odd = k % 2 == 1;
        assert_eq!(step.on, odd);
        assert_eq!(step.level, if odd { Level::High } else { Level::Low });
        assert_eq!(msg, if odd { b"red on\n".to_vec() } else { b"red off\n".to_vec() });
        assert_eq!(step.delay_ticks, 32_768);
        let b = rtic_blinky::blink_blue(blue);
        blue = b.on;
        assert_eq!(b.level, if odd { Level::High } else { Level::Low });
        assert_eq!(b.delay_ticks, 3_276);
    }
}

#[test]
fn embassy_blink_halves_over_several_seconds() {
    let mut high = embassy_softdevice::first_blink_high();
    for k in 0..8u32 {
        let p = embassy_softdevice::blink_phase(high);
        let expected = if k % 2 == 0 { Level::High } else { Level::Low };
        assert_eq!(p.levels, LedLevels { red: expected, green: expected, blue: expected });
        assert_eq!(p.delay_ticks, 16_384);
        high = p.next_high;
    }
}

#[test]
fn embassy_reset_leaves_serial_dfu_for_any_byte() {
    match embassy_softdevice::reset_into_dfu() {
        ResetRequest::ClearThenSet { register, clear_mask, set } => {
            assert_eq!(register, 0);
            for before in 0u32..=0xff {
                assert_eq!((before & !(clear_mask as u32)) | set as u32, 0x4E);
            }
        }
        other => panic!("unexpected {:?}", other),
    }
}
