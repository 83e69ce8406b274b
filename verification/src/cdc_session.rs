use vstd::prelude::*;
use crate::echo::RESET_COMMAND;
use crate::reset::{GPREGRET_ENTER_SERIAL_DFU, ResetRequest, softdevice_serial_dfu_reset};

verus! {

/// Errors that a USB endpoint reports on a read or a write.
#[derive(Clone, Copy, Debug, PartialEq, Eq, Structural)]
pub enum EndpointFault {
    /// The packet did not fit the buffer.
    BufferOverflow,
    /// The endpoint is disabled: the host went away.
    Disabled,
}

/// The host disconnected during an echo session.
#[derive(Clone, Copy, Debug, PartialEq, Eq, Structural)]
pub struct Disconnected {}

impl Disconnected {
    /// A disabled endpoint means the host disconnected. (The firmware panics on a
    /// buffer overflow, which therefore is no input here.)
    pub fn from(val: EndpointFault) -> (d: Disconnected)
        requires
            val == EndpointFault::Disabled,
        ensures
            d == (Disconnected {}),
    {
        match val {
            EndpointFault::Disabled => Disconnected {},
            EndpointFault::BufferOverflow => Disconnected {},
        }
    }
}

/// Busy-wait, in CPU cycles, between the reset notice and the reset (about 100 ms at 64 MHz),
/// so that the notice has a chance to reach the host.
pub const RESET_SETTLE_CYCLES: u32 = 6_400_000;

/// The notice sent to the host before resetting: `"\nresetting..."` in ASCII.
pub open spec fn reset_notice() -> Seq<u8> {
    seq![10u8, 114, 101, 115, 101, 116, 116, 105, 110, 103, 46, 46, 46]
}

/// Where an echo session stands.
#[derive(Clone, Copy, Debug, PartialEq, Eq, Structural)]
pub enum SessionState {
    /// Waiting for the next packet from the host.
    AwaitingPacket,
    /// Writing a received packet back; `reset_requested` when it held the reset command.
    EchoingPacket { reset_requested: bool },
    /// Writing the reset notice.
    SendingNotice,
    /// The session is over.
    Finished,
}

/// What the USB class reported back.
#[derive(Debug)]
pub enum SessionEvent {
    /// A packet with these bytes arrived.
    PacketRead(Vec<u8>),
    /// The last packet handed over was written.
    PacketWritten,
    /// The last read or write failed.
    Failed(EndpointFault),
}

/// What the firmware does next.
#[derive(Debug)]
pub enum SessionAction {
    /// Read the next packet.
    ReadPacket,
    /// Write these bytes as one packet.
    WritePacket(Vec<u8>),
    /// Busy-wait `cycles` CPU cycles, then reset as `request` says.
    SettleThenReset { cycles: u32, request: ResetRequest },
    /// Panic (the panic handler resets into the bootloader).
    Panic,
    /// End the session: the host disconnected.
    Disconnect(Disconnected),
}

/// An event, as the session logic sees it.
pub enum EventView {
    PacketRead(Seq<u8>),
    PacketWritten,
    Failed(EndpointFault),
}

/// An action, as the session logic sees it.
pub enum ActionView {
    ReadPacket,
    WritePacket(Seq<u8>),
    SettleThenReset { cycles: u32, request: ResetRequest },
    Panic,
    Disconnect,
}

impl SessionEvent {
    pub open spec fn view(&self) -> EventView {
        match self {
            SessionEvent::PacketRead(data) => EventView::PacketRead(data@),
            SessionEvent::PacketWritten => EventView::PacketWritten,
            SessionEvent::Failed(e) => EventView::Failed(*e),
        }
    }
}

impl SessionAction {
    pub open spec fn view(&self) -> ActionView {
        match self {
            SessionAction::ReadPacket => ActionView::ReadPacket,
            SessionAction::WritePacket(data) => ActionView::WritePacket(data@),
            SessionAction::SettleThenReset { cycles, request } => ActionView::SettleThenReset {
                cycles: *cycles,
                request: *request,
            },
            SessionAction::Panic => ActionView::Panic,
            SessionAction::Disconnect(_) => ActionView::Disconnect,
        }
    }
}

/// Whether `event` can answer the action that led to `state`: a read answers
/// with a packet or a failure, a write with success or a failure.
pub open spec fn event_fits(state: SessionState, event: EventView) -> bool {
    match state {
        SessionState::AwaitingPacket => !(event is PacketWritten),
        SessionState::EchoingPacket { .. } => !(event is PacketRead),
        SessionState::SendingNotice => !(event is PacketRead),
        SessionState::Finished => false,
    }
}

/// One step of the echo session: read a packet, write it back, and when it
/// held the reset command, send the notice, wait, and reset into the bootloader.
/// A disabled endpoint ends the session; a buffer overflow is a panic.
pub open spec fn spec_step(state: SessionState, event: EventView) -> (SessionState, ActionView) {
    match event {
        EventView::Failed(EndpointFault::Disabled) => (SessionState::Finished, ActionView::Disconnect),
        EventView::Failed(EndpointFault::BufferOverflow) => (SessionState::Finished, ActionView::Panic),
        EventView::PacketRead(data) => (
            SessionState::EchoingPacket { reset_requested: data.contains(RESET_COMMAND) },
            ActionView::WritePacket(data),
        ),
        EventView::PacketWritten => match state {
            SessionState::EchoingPacket { reset_requested } => if reset_requested {
                (SessionState::SendingNotice, ActionView::WritePacket(reset_notice()))
            } else {
                (SessionState::AwaitingPacket, ActionView::ReadPacket)
            },
            _ => (
                SessionState::Finished,
                ActionView::SettleThenReset {
                    cycles: RESET_SETTLE_CYCLES,
                    request: ResetRequest::ClearThenSet { register: 0, clear_mask: 0xff, set: GPREGRET_ENTER_SERIAL_DFU },
                },
            ),
        },
    }
}

/// Opens an echo session: the first thing to do is to read a packet.
pub fn start_session() -> (first: (SessionState, SessionAction))
    ensures
        first.0 == SessionState::AwaitingPacket,
        first.1.view() == ActionView::ReadPacket,
{
    (SessionState::AwaitingPacket, SessionAction::ReadPacket)
}

/// Advances the echo session by one event.
pub fn session_step(state: SessionState, event: SessionEvent) -> (next: (SessionState, SessionAction))
    requires
        event_fits(state, event.view()),
    ensures
        (next.0, next.1.view()) == spec_step(state, event.view()),
{
    match event {
        SessionEvent::Failed(fault) => match fault {
            EndpointFault::Disabled => (
                SessionState::Finished,
                SessionAction::Disconnect(Disconnected::from(fault)),
            ),
            EndpointFault::BufferOverflow => (SessionState::Finished, SessionAction::Panic),
        },
        SessionEvent::PacketRead(data) => {
            let reset_requested: bool = crate::echo::contains_reset_command(data.as_slice());
            (SessionState::EchoingPacket { reset_requested }, SessionAction::WritePacket(data))
        },
        SessionEvent::PacketWritten => match state {
            SessionState::EchoingPacket { reset_requested } => {
                if reset_requested {
                    let notice: Vec<u8> = vec![10, 114, 101, 115, 101, 116, 116, 105, 110, 103, 46, 46, 46];
                    (SessionState::SendingNotice, SessionAction::WritePacket(notice))
                } else {
                    (SessionState::AwaitingPacket, SessionAction::ReadPacket)
                }
            },
            _ => (
                SessionState::Finished,
                SessionAction::SettleThenReset {
                    cycles: RESET_SETTLE_CYCLES,
                    request: softdevice_serial_dfu_reset(),
                },
            ),
        },
    }
}

/// The session's promises: every packet read is written back unchanged; the device
/// resets only right after the reset notice was written, the notice is sent only
/// after a packet holding the reset command was echoed, and such a packet always
/// leads to the notice; a disabled endpoint ends the session as a disconnection,
/// a buffer overflow as a panic.
pub proof fn lemma_session_promises(state: SessionState, event: EventView)
    requires
        event_fits(state, event),
    ensures
        event matches EventView::PacketRead(data) ==> spec_step(state, event).1 == ActionView::WritePacket(data),
        spec_step(state, event).1 is SettleThenReset ==> state == SessionState::SendingNotice
            && event is PacketWritten,
        spec_step(state, event).0 == SessionState::SendingNotice ==> state == (SessionState::EchoingPacket {
            reset_requested: true,
        }) && event is PacketWritten,
        spec_step(state, event).0 == (SessionState::EchoingPacket { reset_requested: true }) <==> (
        event matches EventView::PacketRead(data) && data.contains(RESET_COMMAND)),
        state == (SessionState::EchoingPacket { reset_requested: true }) && event is PacketWritten
            ==> spec_step(state, event).1 == ActionView::WritePacket(reset_notice()),
        event == EventView::Failed(EndpointFault::Disabled) ==> spec_step(state, event)
            == (SessionState::Finished, ActionView::Disconnect),
        event == EventView::Failed(EndpointFault::BufferOverflow) ==> spec_step(state, event)
            == (SessionState::Finished, ActionView::Panic),
{
}

/// The actions that follow the first read of a session in which the host sends
/// `packets` in order and every write succeeds, as `spec_step` drives it.
pub open spec fn serve(packets: Seq<Seq<u8>>) -> Seq<ActionView>
    decreases packets.len(),
{
    if packets.len() == 0 {
        Seq::empty()
    } else {
        let (s1, a1) = spec_step(SessionState::AwaitingPacket, EventView::PacketRead(packets[0]));
        let (s2, a2) = spec_step(s1, EventView::PacketWritten);
        if s2 == SessionState::AwaitingPacket {
            seq![a1, a2] + serve(packets.drop_first())
        } else {
            let (s3, a3) = spec_step(s2, EventView::PacketWritten);
            seq![a1, a2, a3]
        }
    }
}

/// Each packet written back, each followed by the read of the next one.
pub open spec fn plain_echoes(packets: Seq<Seq<u8>>) -> Seq<ActionView>
    decreases packets.len(),
{
    if packets.len() == 0 {
        Seq::empty()
    } else {
        seq![ActionView::WritePacket(packets[0]), ActionView::ReadPacket] + plain_echoes(
            packets.drop_first(),
        )
    }
}

/// The index of the first packet holding the reset command; the number of
/// packets when none does.
pub open spec fn first_reset_packet(packets: Seq<Seq<u8>>) -> nat
    decreases packets.len(),
{
    if packets.len() == 0 {
        0
    } else if packets[0].contains(RESET_COMMAND) {
        0
    } else {
        1 + first_reset_packet(packets.drop_first())
    }
}

/// What ends a session once the packet holding the reset command was read:
/// its echo, the notice, then the settling delay and the reset into serial DFU.
pub open spec fn reset_tail(packet: Seq<u8>) -> Seq<ActionView> {
    seq![
        ActionView::WritePacket(packet),
        ActionView::WritePacket(reset_notice()),
        ActionView::SettleThenReset {
            cycles: RESET_SETTLE_CYCLES,
            request: ResetRequest::ClearThenSet { register: 0, clear_mask: 0xff, set: GPREGRET_ENTER_SERIAL_DFU },
        },
    ]
}

/// Over a whole session in which every write succeeds: packets without the reset
/// command are only echoed; the device resets exactly when some packet holds the
/// reset command, and it does so right after the first such packet, once that
/// packet is echoed, the notice is written and the 6 400 000-cycle delay has
/// passed, asking the bootloader for serial DFU (GPREGRET 0x4E).
pub proof fn lemma_session_over_packets(packets: Seq<Seq<u8>>)
    ensures
        first_reset_packet(packets) <= packets.len(),
        (first_reset_packet(packets) < packets.len()) <==> (exists|i: int|
            0 <= i < packets.len() && #[trigger] packets[i].contains(RESET_COMMAND)),
        first_reset_packet(packets) < packets.len() ==> packets[first_reset_packet(
            packets,
        ) as int].contains(RESET_COMMAND),
        forall|i: int|
            0 <= i < first_reset_packet(packets) ==> !(#[trigger] packets[i]).contains(RESET_COMMAND),
        first_reset_packet(packets) == packets.len() ==> serve(packets) == plain_echoes(packets),
        first_reset_packet(packets) < packets.len() ==> serve(packets) == plain_echoes(
            packets.take(first_reset_packet(packets) as int),
        ) + reset_tail(packets[first_reset_packet(packets) as int]),
        (exists|k: int| 0 <= k < serve(packets).len() && #[trigger] serve(packets)[k] is SettleThenReset)
            <==> (exists|i: int| 0 <= i < packets.len() && #[trigger] packets[i].contains(RESET_COMMAND)),
    decreases packets.len(),
{
    if packets.len() == 0 {
        return;
    }
    let rest: Seq<Seq<u8>> = packets.drop_first();
    lemma_session_over_packets(rest);
    let j = first_reset_packet(packets);
    if packets[0].contains(RESET_COMMAND) {
        assert(packets.take(0) =~= Seq::<Seq<u8>>::empty());
        assert(plain_echoes(packets.take(0)) =~= Seq::<ActionView>::empty());
        assert(serve(packets) =~= reset_tail(packets[0]));
        assert(serve(packets)[2] is SettleThenReset);
    } else {
        assert forall|i: int| 0 <= i < j implies !(#[trigger] packets[i]).contains(RESET_COMMAND) by {
            if i > 0 {
                assert(packets[i] == rest[i - 1]);
            }
        }
        assert((exists|i: int| 0 <= i < packets.len() && #[trigger] packets[i].contains(RESET_COMMAND))
            <==> (exists|i: int| 0 <= i < rest.len() && #[trigger] rest[i].contains(RESET_COMMAND))) by {
            if exists|i: int| 0 <= i < packets.len() && #[trigger] packets[i].contains(RESET_COMMAND) {
                let i = choose|i: int| 0 <= i < packets.len() && #[trigger] packets[i].contains(RESET_COMMAND);
                assert(i > 0);
                assert(rest[i - 1] == packets[i]);
            }
            if exists|i: int| 0 <= i < rest.len() && #[trigger] rest[i].contains(RESET_COMMAND) {
                let i = choose|i: int| 0 <= i < rest.len() && #[trigger] rest[i].contains(RESET_COMMAND);
                assert(packets[i + 1] == rest[i]);
            }
        }
        let head: Seq<ActionView> = seq![ActionView::WritePacket(packets[0]), ActionView::ReadPacket];
        assert(serve(packets) == head + serve(rest));
        if j < packets.len() {
            assert(packets[j as int] == rest[j - 1]);
            assert(packets.take(j as int).drop_first() =~= rest.take(j - 1));
            assert(plain_echoes(packets.take(j as int)) == head + plain_echoes(rest.take(j - 1)));
            assert(serve(packets) =~= plain_echoes(packets.take(j as int)) + reset_tail(packets[j as int]));
        } else {
            assert(serve(packets) =~= plain_echoes(packets));
        }
        assert((exists|k: int| 0 <= k < serve(packets).len() && #[trigger] serve(packets)[k] is SettleThenReset)
            <==> (exists|k: int| 0 <= k < serve(rest).len() && #[trigger] serve(rest)[k] is SettleThenReset)) by {
            if exists|k: int| 0 <= k < serve(packets).len() && #[trigger] serve(packets)[k] is SettleThenReset {
                let k = choose|k: int| 0 <= k < serve(packets).len() && #[trigger] serve(packets)[k] is SettleThenReset;
                assert(k >= 2);
                assert(serve(rest)[k - 2] == serve(packets)[k]);
            }
            if exists|k: int| 0 <= k < serve(rest).len() && #[trigger] serve(rest)[k] is SettleThenReset {
                let k = choose|k: int| 0 <= k < serve(rest).len() && #[trigger] serve(rest)[k] is SettleThenReset;
                assert(serve(packets)[k + 2] == serve(rest)[k]);
            }
        }
    }
}

} // verus!
