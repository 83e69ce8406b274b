use xiao_nrf52840::lights::{power_on_levels, switch_report, LedLevels, Level, LightState};

#[test]
fn light_cycle_goes_red_green_blue_and_back() {
    assert_eq!(LightState::Red.next(), LightState::Green);
    assert_eq!(LightState::Green.next(), LightState::Blue);
    assert_eq!(LightState::Blue.next(), LightState::Red);
    for light in [LightState::Red, LightState::Green, LightState::Blue] {
        assert_ne!(light.next(), light);
        assert_ne!(light.next().next(), light);
        assert_eq!(light.next().next().next(), light);
    }
}

#[test]
fn each_light_drives_only_its_own_pin_low() {
    assert_eq!(
        LightState::Red.led_levels(),
        LedLevels { red: Level::Low, green: Level::High, blue: Level::High }
    );
    assert_eq!(
        LightState::Green.led_levels(),
        LedLevels { red: Level::High, green: Level::Low, blue: Level::High }
    );
    assert_eq!(
        LightState::Blue.led_levels(),
        LedLevels { red: Level::High, green: Level::High, blue: Level::Low }
    );
    for light in [LightState::Red, LightState::Green, LightState::Blue] {
        let l = light.led_levels();
        let lit = [l.red, l.green, l.blue].iter().filter(|x| **x == Level::Low).count();
        assert_eq!(lit, 1);
    }
}

#[test]
fn digits_name_the_lights() {
    assert_eq!(LightState::Red.digit(), b'0');
    assert_eq!(LightState::Green.digit(), b'1');
    assert_eq!(LightState::Blue.digit(), b'2');
}

#[test]
fn switch_report_reads_as_the_original_line() {
    let parts = switch_report(LightState::Green);
    assert_eq!(parts.len(), 3);
    assert_eq!(parts[0], b"Switched light to ".to_vec());
    assert_eq!(parts[1], vec![b'1']);
    assert_eq!(parts[2], b"\r\n".to_vec());
    let line: Vec<u8> = parts.concat();
    assert_eq!(line, b"Switched light to 1\r\n".to_vec());
    assert_eq!(switch_report(LightState::Blue).concat(), b"Switched light to 2\r\n".to_vec());
}

#[test]
fn outputs_start_with_every_led_lit() {
    assert_eq!(
        power_on_levels(),
        LedLevels { red: Level::Low, green: Level::Low, blue: Level::Low }
    );
}
