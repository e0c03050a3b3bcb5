//! The command listener: what one inbound datagram does to the output
//! lines. The caller receives the datagrams and performs the hardware
//! write that a step asks for.

use vstd::prelude::*;
use crate::codec::{
    datagram_packet, decode_datagram, is_bundle_frame, DecodeError, MessageView, Packet, PacketView,
};
use crate::pins::{distinct_pins, find_pin, owns, store_level, DirectoryView, PinState};
use crate::router::{
    control_path, level_of, route, route_message, route_packet, Command, RoutingError,
};

verus! {

/// A request to drive one output line to a level.
#[derive(Clone, Copy, Debug, PartialEq, Eq, Structural)]
pub struct HardwareWrite {
    pub pin: u8,
    pub level: bool,
}

/// What became of one datagram.
#[derive(Clone, Copy, Debug, PartialEq, Eq, Structural)]
pub enum ListenerOutcome {
    /// A command for an owned line: the caller performs this write.
    Write(HardwareWrite),
    /// A valid command for a line that is not an output here. Ignored.
    NotOwned(Command),
    /// The router refused the packet.
    Rejected(RoutingError),
    /// The datagram gave no packet.
    Undecoded(DecodeError),
}

/// `pins` with every entry of the identifier `pin` set to `level`.
pub open spec fn with_level(pins: Seq<PinState>, pin: u8, level: bool) -> Seq<PinState> {
    Seq::new(
        pins.len(),
        |i: int|
            if pins[i].pin == pin {
                PinState { pin: pin, state: level }
            } else {
                pins[i]
            },
    )
}

/// What a command does to the output lines, and the write it asks for.
pub open spec fn command_effect(pins: Seq<PinState>, command: Command) -> (
    Seq<PinState>,
    Option<HardwareWrite>,
) {
    if owns(pins, command.target_pin) {
        (
            with_level(pins, command.target_pin, command.requested_level),
            Some(HardwareWrite { pin: command.target_pin, level: command.requested_level }),
        )
    } else {
        (pins, None)
    }
}

/// The output lines after a run of commands.
pub open spec fn levels_after_commands(pins: Seq<PinState>, commands: Seq<Command>) -> Seq<PinState>
    decreases commands.len(),
{
    if commands.len() == 0 {
        pins
    } else {
        command_effect(levels_after_commands(pins, commands.drop_last()), commands.last()).0
    }
}

/// What a decoded packet does to the output lines, and its outcome.
pub open spec fn packet_effect(pins: Seq<PinState>, packet: PacketView) -> (
    Seq<PinState>,
    ListenerOutcome,
) {
    match route_packet(packet) {
        Ok(command) => match command_effect(pins, command).1 {
            Some(write) => (command_effect(pins, command).0, ListenerOutcome::Write(write)),
            None => (pins, ListenerOutcome::NotOwned(command)),
        },
        Err(e) => (pins, ListenerOutcome::Rejected(e)),
    }
}

/// What a datagram does to the output lines, and its outcome.
pub open spec fn datagram_effect(pins: Seq<PinState>, bytes: Seq<u8>) -> (
    Seq<PinState>,
    ListenerOutcome,
) {
    match datagram_packet(bytes) {
        Ok(packet) => packet_effect(pins, packet),
        Err(e) => (pins, ListenerOutcome::Undecoded(e)),
    }
}

/// The owner of the output lines.
#[derive(Debug)]
pub struct Listener {
    pins: Vec<PinState>,
}

impl View for Listener {
    type V = Seq<PinState>;

    closed spec fn view(&self) -> Seq<PinState> {
        self.pins@
    }
}

impl Listener {
    #[verifier::type_invariant]
    closed spec fn inv(self) -> bool {
        distinct_pins(self.pins@)
    }

    /// Takes ownership of the output lines.
    pub(crate) fn over(pins: Vec<PinState>) -> (l: Listener)
        requires
            distinct_pins(pins@),
        ensures
            l@ == pins@,
    {
        Listener { pins }
    }

    /// The output lines with the levels last commanded.
    pub fn pins(&self) -> (r: &Vec<PinState>)
        ensures
            r@ == self@,
            distinct_pins(self@),
    {
        proof {
            use_type_invariant(self);
        }
        &self.pins
    }

    /// Applies a command. For an owned line the stored level becomes the
    /// requested one, whatever it was and whatever the hardware will
    /// answer, and the write to perform is returned. For any other line
    /// nothing changes and nothing is returned.
    pub fn apply_command(&mut self, command: Command) -> (r: Option<HardwareWrite>)
        ensures
            (final(self)@, r) == command_effect(old(self)@, command),
    {
        proof {
            use_type_invariant(&*self);
        }
        match find_pin(&self.pins, command.target_pin) {
            Some(i) => {
                store_level(&mut self.pins, i, command.requested_level);
                Some(HardwareWrite { pin: command.target_pin, level: command.requested_level })
            },
            None => None,
        }
    }

    /// Routes a decoded packet and applies the command it carries.
    pub fn handle_packet(&mut self, packet: Packet) -> (r: ListenerOutcome)
        ensures
            (final(self)@, r) == packet_effect(old(self)@, packet@),
    {
        match route(packet) {
            Ok(command) => match self.apply_command(command) {
                Some(write) => ListenerOutcome::Write(write),
                None => ListenerOutcome::NotOwned(command),
            },
            Err(e) => ListenerOutcome::Rejected(e),
        }
    }

    /// Decodes one datagram, routes the packet and applies the command.
    pub fn handle_datagram(&mut self, bytes: &[u8]) -> (r: ListenerOutcome)
        ensures
            (final(self)@, r) == datagram_effect(old(self)@, bytes@),
    {
        match decode_datagram(bytes) {
            Ok(packet) => self.handle_packet(packet),
            Err(e) => ListenerOutcome::Undecoded(e),
        }
    }
}

/// A command for a line that the listener owns asks for exactly one
/// write, of the requested level, and leaves that line at the requested
/// level whatever it was at before. No other line changes.
pub proof fn law_owned_command_writes_once(pins: Seq<PinState>, command: Command)
    requires
        distinct_pins(pins),
        owns(pins, command.target_pin),
    ensures
        command_effect(pins, command).1 == Some(
            HardwareWrite { pin: command.target_pin, level: command.requested_level },
        ),
        command_effect(pins, command).0.len() == pins.len(),
        distinct_pins(command_effect(pins, command).0),
        forall|i: int|
            0 <= i < pins.len() ==> #[trigger] command_effect(pins, command).0[i] == (if pins[i].pin
                == command.target_pin {
                PinState { pin: command.target_pin, state: command.requested_level }
            } else {
                pins[i]
            }),
{
}

/// A command for a line that the listener does not own asks for no write
/// and changes no line.
pub proof fn law_foreign_command_changes_nothing(pins: Seq<PinState>, command: Command)
    requires
        !owns(pins, command.target_pin),
    ensures
        command_effect(pins, command) == (pins, None::<HardwareWrite>),
{
}

/// Commands change levels only: after any run of them the listener owns
/// the lines it owned, in the same order.
pub proof fn law_commands_keep_the_lines(pins: Seq<PinState>, commands: Seq<Command>)
    ensures
        levels_after_commands(pins, commands).len() == pins.len(),
        forall|i: int|
            0 <= i < pins.len() ==> (#[trigger] levels_after_commands(pins, commands)[i]).pin == pins[i].pin,
    decreases commands.len(),
{
    if commands.len() > 0 {
        law_commands_keep_the_lines(pins, commands.drop_last());
    }
}

/// An output line is at the level of the last command that named it,
/// however many commands came before.
pub proof fn law_last_command_wins(pins: Seq<PinState>, commands: Seq<Command>, index: int)
    requires
        0 <= index < pins.len(),
        commands.len() > 0,
        commands.last().target_pin == pins[index].pin,
    ensures
        levels_after_commands(pins, commands)[index] == (PinState {
            pin: pins[index].pin,
            state: commands.last().requested_level,
        }),
{
    law_commands_keep_the_lines(pins, commands.drop_last());
    assert(levels_after_commands(pins, commands.drop_last())[index].pin == pins[index].pin);
}

/// A command that names an input line asks for no write and changes no
/// line: the listener owns the outputs, and the two partitions share no
/// identifier.
pub proof fn law_input_line_is_never_written(directory: DirectoryView, command: Command)
    requires
        directory.wf(),
        owns(directory.readable, command.target_pin),
    ensures
        command_effect(directory.writeable, command) == (
            directory.writeable,
            None::<HardwareWrite>,
        ),
{
    if owns(directory.writeable, command.target_pin) {
        let i = choose|i: int|
            0 <= i < directory.readable.len() && #[trigger] directory.readable[i].pin
                == command.target_pin;
        let j = choose|j: int|
            0 <= j < directory.writeable.len() && #[trigger] directory.writeable[j].pin
                == command.target_pin;
        assert(directory.readable[i].pin != directory.writeable[j].pin);
    }
}

/// A message to the control path whose second argument is missing or is
/// no boolean is refused for the shape of its arguments: no write is
/// asked for and no line changes.
pub proof fn law_bad_level_argument_is_refused(pins: Seq<PinState>, message: MessageView)
    requires
        message.addr == control_path(),
        match message.args {
            Some(args) => args.len() < 2 || level_of(args[1]).is_none(),
            None => true,
        },
    ensures
        route_message(message) == Err::<Command, RoutingError>(
            RoutingError::ArgumentShapeMismatch,
        ),
        packet_effect(pins, PacketView::Message(message)) == (
            pins,
            ListenerOutcome::Rejected(RoutingError::ArgumentShapeMismatch),
        ),
{
}

/// A message to any other path than the control path is refused for its
/// address, whatever its arguments: no write is asked for and no line
/// changes.
pub proof fn law_foreign_address_is_refused(pins: Seq<PinState>, message: MessageView)
    requires
        message.addr != control_path(),
    ensures
        packet_effect(pins, PacketView::Message(message)) == (
            pins,
            ListenerOutcome::Rejected(RoutingError::AddressMismatch),
        ),
{
}

/// A bundle is refused before the router looks at any message: no write
/// is asked for and no line changes.
pub proof fn law_bundle_is_refused(pins: Seq<PinState>)
    ensures
        route_packet(PacketView::Bundle) == Err::<Command, RoutingError>(
            RoutingError::UnsupportedBundle,
        ),
        packet_effect(pins, PacketView::Bundle) == (
            pins,
            ListenerOutcome::Rejected(RoutingError::UnsupportedBundle),
        ),
{
}

/// A datagram framed as a bundle is refused as a bundle, whatever follows
/// its first byte: no write is asked for and no line changes.
pub proof fn law_bundle_frame_is_refused(pins: Seq<PinState>, bytes: Seq<u8>)
    requires
        is_bundle_frame(bytes),
    ensures
        datagram_effect(pins, bytes) == (
            pins,
            ListenerOutcome::Rejected(RoutingError::UnsupportedBundle),
        ),
{
}

/// A datagram that gives no packet asks for no write and changes no line.
pub proof fn law_undecoded_datagram_changes_nothing(pins: Seq<PinState>, bytes: Seq<u8>)
    requires
        datagram_packet(bytes) is Err,
    ensures
        datagram_effect(pins, bytes).0 == pins,
        datagram_effect(pins, bytes).1 is Undecoded,
{
}

} // verus!
