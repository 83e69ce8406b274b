use vstd::prelude::*;

verus! {

/// Source of the 32.768 kHz low-frequency clock that the SoftDevice runs on.
#[derive(Clone, Copy, Debug, PartialEq, Eq, Structural)]
pub enum LfClockSource {
    /// The internal RC oscillator, calibrated against the high-frequency clock.
    Rc,
    /// An external crystal.
    Xtal,
}

/// Where the SoftDevice keeps an attribute value.
#[derive(Clone, Copy, Debug, PartialEq, Eq, Structural)]
pub enum ValueLocation {
    /// In SoftDevice memory.
    Stack,
    /// In application memory.
    User,
}

/// The SoftDevice configuration, in plain values.
pub struct SoftdeviceSettings {
    pub lf_clock_source: LfClockSource,
    /// RC calibration interval, in units of 0.25 s.
    pub lf_clock_rc_ctiv: u8,
    /// How many calibration intervals may pass without a temperature change before calibrating anyway.
    pub lf_clock_rc_temp_ctiv: u8,
    /// Clock accuracy, in parts per million.
    pub lf_clock_accuracy_ppm: u16,
    /// GAP connections the SoftDevice reserves resources for.
    pub conn_count: u8,
    /// Connection event length, in 1.25 ms units.
    pub event_length: u16,
    /// The ATT maximum transmission unit.
    pub att_mtu: u16,
    /// `None` keeps the SoftDevice's default attribute table size.
    pub attr_tab_size: Option<u32>,
    pub adv_set_count: u8,
    pub periph_role_count: u8,
    pub central_role_count: u8,
    pub central_sec_count: u8,
    /// The GAP device name, in bytes.
    pub device_name: Vec<u8>,
    pub device_name_current_len: u16,
    pub device_name_max_len: u16,
    /// Whether a peer may write the device name.
    pub device_name_writable: bool,
    pub device_name_location: ValueLocation,
}

/// `"BlueWumpf"` in ASCII.
pub open spec fn device_name_bytes() -> Seq<u8> {
    seq![66u8, 108, 117, 101, 87, 117, 109, 112, 102]
}

/// The SoftDevice configuration of the Bluetooth firmware.
pub fn softdevice_settings() -> (s: SoftdeviceSettings)
    ensures
        s.lf_clock_source == LfClockSource::Rc,
        s.lf_clock_rc_ctiv == 16,
        s.lf_clock_rc_temp_ctiv == 2,
        s.lf_clock_accuracy_ppm == 500,
        s.conn_count == 6,
        s.event_length == 24,
        s.att_mtu == 256,
        s.attr_tab_size == None::<u32>,
        s.adv_set_count == 1,
        s.periph_role_count == 3,
        s.central_role_count == 3,
        s.central_sec_count == 0,
        s.device_name@ == device_name_bytes(),
        s.device_name_current_len == device_name_bytes().len(),
        s.device_name_max_len == device_name_bytes().len(),
        !s.device_name_writable,
        s.device_name_location == ValueLocation::Stack,
{
    let name: Vec<u8> = vec![66, 108, 117, 101, 87, 117, 109, 112, 102];
    let len: u16 = name.len() as u16;
    SoftdeviceSettings {
        lf_clock_source: LfClockSource::Rc,
        lf_clock_rc_ctiv: 16,
        lf_clock_rc_temp_ctiv: 2,
        lf_clock_accuracy_ppm: 500,
        conn_count: 6,
        event_length: 24,
        att_mtu: 256,
        attr_tab_size: None,
        adv_set_count: 1,
        periph_role_count: 3,
        central_role_count: 3,
        central_sec_count: 0,
        device_name: name,
        device_name_current_len: len,
        device_name_max_len: len,
        device_name_writable: false,
        device_name_location: ValueLocation::Stack,
    }
}

/// What the Bluetooth firmware advertises: non-connectable, scannable, undirected.
pub struct AdvertisingPlan {
    /// Advertising interval, in 0.625 ms units.
    pub interval: u32,
    /// The "LE General Discoverable" flag.
    pub general_discovery: bool,
    /// The "BR/EDR not supported" (LE only) flag.
    pub le_only: bool,
    /// 16-bit service UUIDs, listed as the complete list.
    pub complete_services_16: Vec<u16>,
    /// The shortened name in the advertising data.
    pub short_name: &'static str,
    /// The full name in the scan response.
    pub scan_full_name: &'static str,
}

/// The Health Thermometer service's 16-bit UUID.
pub const HEALTH_THERMOMETER_UUID: u16 = 0x1809;

/// The advertising of the Bluetooth firmware.
pub fn advertising_plan() -> (plan: AdvertisingPlan)
    ensures
        plan.interval == 50,
        plan.general_discovery,
        plan.le_only,
        plan.complete_services_16@ == seq![HEALTH_THERMOMETER_UUID],
        plan.short_name@ == "hello"@,
        plan.scan_full_name@ == "Wumpf says hi with more words"@,
{
    AdvertisingPlan {
        interval: 50,
        general_discovery: true,
        le_only: true,
        complete_services_16: vec![HEALTH_THERMOMETER_UUID],
        short_name: "hello",
        scan_full_name: "Wumpf says hi with more words",
    }
}

} // verus!
