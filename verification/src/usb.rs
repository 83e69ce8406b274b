use vstd::prelude::*;

verus! {

/// How a firmware presents itself as a USB CDC serial device.
pub struct UsbIdentity {
    pub vendor_id: u16,
    pub product_id: u16,
    pub manufacturer: &'static str,
    pub product: &'static str,
    pub serial_number: &'static str,
    /// Maximum packet size of the control endpoint 0.
    pub max_packet_size_0: u8,
    /// The device class in the device descriptor; `None` keeps the USB stack's default.
    pub device_class: Option<u8>,
}

/// The USB communications device class (CDC) code.
pub const USB_CLASS_CDC: u8 = 0x02;

/// The identity of the serial device built with `usb-device` and `usbd-serial`
/// (the interrupt-driven and the RTIC firmwares share it).
pub fn nrf_hal_serial_identity() -> (id: UsbIdentity)
    ensures
        id.vendor_id == 0x16c0,
        id.product_id == 0x27dd,
        id.manufacturer@ == "Wumpftech"@,
        id.product@ == "Wumpftech nRF52840"@,
        id.serial_number@ == "wumpf1"@,
        id.max_packet_size_0 == 64,
        id.device_class == Some(USB_CLASS_CDC),
{
    UsbIdentity {
        vendor_id: 0x16c0,
        product_id: 0x27dd,
        manufacturer: "Wumpftech",
        product: "Wumpftech nRF52840",
        serial_number: "wumpf1",
        max_packet_size_0: 64,
        device_class: Some(USB_CLASS_CDC),
    }
}

/// The identity of the serial device built with `embassy-usb`. Its device class
/// is left to embassy-usb, whose CDC-ACM class describes itself in its interfaces.
pub fn embassy_serial_identity() -> (id: UsbIdentity)
    ensures
        id.vendor_id == 0xc0de,
        id.product_id == 0xcafe,
        id.manufacturer@ == "Wumpftech"@,
        id.product@ == "Wumpftech Serial"@,
        id.serial_number@ == "wumpf1"@,
        id.max_packet_size_0 == 64,
        id.device_class == None::<u8>,
{
    UsbIdentity {
        vendor_id: 0xc0de,
        product_id: 0xcafe,
        manufacturer: "Wumpftech",
        product: "Wumpftech Serial",
        serial_number: "wumpf1",
        max_packet_size_0: 64,
        device_class: None,
    }
}

/// VBUS state as the POWER peripheral's USBREGSTATUS register reports it.
#[derive(Clone, Copy, Debug, PartialEq, Eq, Structural)]
pub struct VbusStatus {
    /// Bit 0, VBUSDETECT: a USB supply is present.
    pub detected: bool,
    /// Bit 1, OUTPUTRDY: the USB supply regulator is ready.
    pub power_ready: bool,
}

/// Decodes a USBREGSTATUS value.
pub fn decode_usbregstatus(status: u32) -> (vbus: VbusStatus)
    ensures
        vbus.detected == (status & 1 != 0),
        vbus.power_ready == (status & 2 != 0),
{
    assert(1u32 << 1u32 == 2u32) by (bit_vector);
    VbusStatus { detected: (status & 1) != 0, power_ready: (status & (1 << 1)) != 0 }
}

/// The SoftDevice SoC events that concern USB power.
#[derive(Clone, Copy, Debug, PartialEq, Eq, Structural)]
pub enum PowerEvent {
    UsbDetected,
    UsbRemoved,
    UsbPowerReady,
    /// Any other SoC event.
    Other,
}

/// What the USB driver's software VBUS detector is told.
#[derive(Clone, Copy, Debug, PartialEq, Eq, Structural)]
pub enum VbusUpdate {
    /// VBUS was detected (`true`) or removed (`false`).
    Detected(bool),
    /// The USB supply is ready.
    Ready,
}

/// The VBUS update that a SoC event calls for, if any.
pub open spec fn spec_vbus_update(event: PowerEvent) -> Option<VbusUpdate> {
    match event {
        PowerEvent::UsbDetected => Some(VbusUpdate::Detected(true)),
        PowerEvent::UsbRemoved => Some(VbusUpdate::Detected(false)),
        PowerEvent::UsbPowerReady => Some(VbusUpdate::Ready),
        PowerEvent::Other => None,
    }
}

/// Forwards the USB power events of the SoftDevice to the VBUS detector.
pub fn vbus_update(event: PowerEvent) -> (update: Option<VbusUpdate>)
    ensures
        update == spec_vbus_update(event),
{
    match event {
        PowerEvent::UsbDetected => Some(VbusUpdate::Detected(true)),
        PowerEvent::UsbRemoved => Some(VbusUpdate::Detected(false)),
        PowerEvent::UsbPowerReady => Some(VbusUpdate::Ready),
        PowerEvent::Other => None,
    }
}

/// The updates made while handling one event: its own update, if it has one.
pub open spec fn updates_of(event: PowerEvent) -> Seq<VbusUpdate> {
    match spec_vbus_update(event) {
        Some(u) => seq![u],
        None => Seq::empty(),
    }
}

/// The updates the VBUS detector receives when the SoftDevice delivers `events`
/// one after the other and each is forwarded while it is handled.
pub open spec fn forwarded(events: Seq<PowerEvent>) -> Seq<VbusUpdate>
    decreases events.len(),
{
    if events.len() == 0 {
        Seq::empty()
    } else {
        updates_of(events.first()) + forwarded(events.drop_first())
    }
}

proof fn lemma_forwarded_push(events: Seq<PowerEvent>, e: PowerEvent)
    ensures
        forwarded(events.push(e)) == forwarded(events) + updates_of(e),
    decreases events.len(),
{
    if events.len() == 0 {
        assert(events.push(e).drop_first() =~= Seq::<PowerEvent>::empty());
        assert(forwarded(Seq::<PowerEvent>::empty()) =~= Seq::<VbusUpdate>::empty());
        assert(forwarded(events.push(e)) =~= updates_of(e));
    } else {
        assert(events.push(e).drop_first() =~= events.drop_first().push(e));
        lemma_forwarded_push(events.drop_first(), e);
        assert(forwarded(events.push(e)) =~= forwarded(events) + updates_of(e));
    }
}

/// Over any sequence of SoC events, the VBUS detector receives exactly the
/// updates of the USB power events, in event order: `detected(true)` for each
/// USB-detected event, `detected(false)` for each USB-removed event, `ready()`
/// for each power-ready event, and nothing for any other event.
pub proof fn lemma_forwarding_is_filter_map(events: Seq<PowerEvent>)
    ensures
        forwarded(events) == events.filter_map(|e: PowerEvent| spec_vbus_update(e)),
    decreases events.len(),
{
    if events.len() > 0 {
        let init: Seq<PowerEvent> = events.drop_last();
        lemma_forwarding_is_filter_map(init);
        lemma_forwarded_push(init, events.last());
        assert(init.push(events.last()) =~= events);
        assert(forwarded(events) =~= events.filter_map(|e: PowerEvent| spec_vbus_update(e)));
    } else {
        assert(forwarded(events) =~= events.filter_map(|e: PowerEvent| spec_vbus_update(e)));
    }
}

} // verus!
