use xiao_nrf52840::ble::{advertising_plan, softdevice_settings, LfClockSource, ValueLocation, HEALTH_THERMOMETER_UUID};
use xiao_nrf52840::usb::{
    decode_usbregstatus, embassy_serial_identity, nrf_hal_serial_identity, vbus_update, PowerEvent,
    VbusStatus, VbusUpdate, USB_CLASS_CDC,
};

#[test]
fn usb_identities() {
    let id = nrf_hal_serial_identity();
    assert_eq!((id.vendor_id, id.product_id), (0x16c0, 0x27dd));
    assert_eq!(id.manufacturer, "Wumpftech");
    assert_eq!(id.product, "Wumpftech nRF52840");
    assert_eq!(id.serial_number, "wumpf1");
    assert_eq!(id.max_packet_size_0, 64);
    assert_eq!(id.device_class, Some(0x02));
    assert_eq!(id.device_class, Some(USB_CLASS_CDC));
    assert_eq!(USB_CLASS_CDC, usbd_serial::USB_CLASS_CDC);
    let id = embassy_serial_identity();
    assert_eq!((id.vendor_id, id.product_id), (0xc0de, 0xcafe));
    assert_eq!(id.manufacturer, "Wumpftech");
    assert_eq!(id.product, "Wumpftech Serial");
    assert_eq!(id.serial_number, "wumpf1");
    assert_eq!(id.max_packet_size_0, 64);
    assert_eq!(id.device_class, None);
}

#[test]
fn usbregstatus_bits() {
    assert_eq!(decode_usbregstatus(0), VbusStatus { detected: false, power_ready: false });
    assert_eq!(decode_usbregstatus(1), VbusStatus { detected: true, power_ready: false });
    assert_eq!(decode_usbregstatus(2), VbusStatus { detected: false, power_ready: true });
    assert_eq!(decode_usbregstatus(3), VbusStatus { detected: true, power_ready: true });
    assert_eq!(decode_usbregstatus(0xfffc), VbusStatus { detected: false, power_ready: false });
}

#[test]
fn power_events_reach_vbus_detector() {
    assert_eq!(vbus_update(PowerEvent::UsbDetected), Some(VbusUpdate::Detected(true)));
    assert_eq!(vbus_update(PowerEvent::UsbRemoved), Some(VbusUpdate::Detected(false)));
    assert_eq!(vbus_update(PowerEvent::UsbPowerReady), Some(VbusUpdate::Ready));
    assert_eq!(vbus_update(PowerEvent::Other), None);
}

#[test]
fn softdevice_configuration() {
    let s = softdevice_settings();
    assert_eq!(s.lf_clock_source, LfClockSource::Rc);
    assert_eq!((s.lf_clock_rc_ctiv, s.lf_clock_rc_temp_ctiv, s.lf_clock_accuracy_ppm), (16, 2, 500));
    assert_eq!((s.conn_count, s.event_length, s.att_mtu), (6, 24, 256));
    assert_eq!(s.attr_tab_size, None);
    assert_eq!(
        (s.adv_set_count, s.periph_role_count, s.central_role_count, s.central_sec_count),
        (1, 3, 3, 0)
    );
    assert_eq!(s.device_name, b"BlueWumpf".to_vec());
    assert_eq!((s.device_name_current_len, s.device_name_max_len), (9, 9));
    assert!(!s.device_name_writable);
    assert_eq!(s.device_name_location, ValueLocation::Stack);
}

#[test]
fn advertising() {
    let plan = advertising_plan();
    assert_eq!(plan.interval, 50);
    assert!(plan.general_discovery && plan.le_only);
    assert_eq!(plan.complete_services_16, vec![HEALTH_THERMOMETER_UUID]);
    assert_eq!(HEALTH_THERMOMETER_UUID, 0x1809);
    assert_eq!(plan.short_name, "hello");
    assert_eq!(plan.scan_full_name, "Wumpf says hi with more words");
}

#[test]
fn power_event_sequence_forwards_usb_events_in_order() {
    let events = [
        PowerEvent::Other,
        PowerEvent::UsbDetected,
        PowerEvent::Other,
        PowerEvent::UsbPowerReady,
        PowerEvent::UsbRemoved,
        PowerEvent::UsbDetected,
    ];
    let updates: Vec<VbusUpdate> = events.iter().filter_map(|e| vbus_update(*e)).collect();
    assert_eq!(
        updates,
        vec![
            VbusUpdate::Detected(true),
            VbusUpdate::Ready,
            VbusUpdate::Detected(false),
            VbusUpdate::Detected(true),
        ]
    );
}
