//! The command router: from a decoded packet to a pin-write command or a
//! rejection. The router only computes; nothing here touches a pin.

use vstd::prelude::*;
use crate::codec::{Argument, Message, MessageView, Packet, PacketView};

verus! {

/// An instruction to set one output line.
#[derive(Clone, Copy, Debug, PartialEq, Eq, Structural)]
pub struct Command {
    pub target_pin: u8,
    pub requested_level: bool,
}

/// Why a packet gave no command.
#[derive(Clone, Copy, Debug, PartialEq, Eq, Structural)]
pub enum RoutingError {
    /// The message is addressed to another path than the control path.
    AddressMismatch,
    /// The packet is a bundle, not a single message.
    UnsupportedBundle,
    /// The arguments are not exactly a pin identifier and a level.
    ArgumentShapeMismatch,
}

/// The one address that commands are sent to.
pub open spec fn control_path() -> Seq<char> {
    "/gpio/write"@
}

/// The low eight bits of `v`, as an unsigned byte.
pub open spec fn low_byte(v: int) -> u8 {
    (v % 256) as u8
}

/// The pin identifier that an argument stands for: an integer or a
/// character code, cut down to its low eight bits without a range check.
pub open spec fn pin_of(arg: Argument) -> Option<u8> {
    match arg {
        Argument::Int(v) => Some(low_byte(v as int)),
        Argument::Char(c) => Some(low_byte(c as int)),
        _ => None,
    }
}

/// The level that an argument stands for: only a boolean does.
pub open spec fn level_of(arg: Argument) -> Option<bool> {
    match arg {
        Argument::Bool(b) => Some(b),
        _ => None,
    }
}

/// The command that an argument list spells: exactly two arguments, a pin
/// identifier and then a level.
pub open spec fn command_of(args: Option<Seq<Argument>>) -> Result<Command, RoutingError> {
    match args {
        Some(a) => if a.len() == 2 && pin_of(a[0]).is_some() && level_of(a[1]).is_some() {
            Ok(Command { target_pin: pin_of(a[0]).unwrap(), requested_level: level_of(a[1]).unwrap() })
        } else {
            Err(RoutingError::ArgumentShapeMismatch)
        },
        None => Err(RoutingError::ArgumentShapeMismatch),
    }
}

/// What the router answers to a single message: the address is checked
/// first, then the arguments.
pub open spec fn route_message(m: MessageView) -> Result<Command, RoutingError> {
    if m.addr == control_path() {
        command_of(m.args)
    } else {
        Err(RoutingError::AddressMismatch)
    }
}

/// What the router answers to a packet: a bundle is refused whole.
pub open spec fn route_packet(p: PacketView) -> Result<Command, RoutingError> {
    match p {
        PacketView::Message(m) => route_message(m),
        PacketView::Bundle => Err(RoutingError::UnsupportedBundle),
    }
}

/// The low eight bits of a signed 32-bit integer are its residue modulo 256.
proof fn lemma_low_byte_of_int(v: i32)
    ensures
        v as u8 == low_byte(v as int),
{
    assert(v as u8 == ((v as int) % 256) as u8) by (bit_vector);
}

/// The low eight bits of a character code are its residue modulo 256.
proof fn lemma_low_byte_of_char(c: char)
    ensures
        c as u8 == low_byte(c as int),
{
    let u: u32 = c as u32;
    assert(u as u8 == ((u as int) % 256) as u8) by (bit_vector);
}

/// Reads a pin identifier out of an argument: an integer or a character
/// code, cut down to eight bits. Values outside 0..=255 wrap.
pub fn u8_from_osc(osc_arg: &Argument) -> (r: Option<u8>)
    ensures
        r == pin_of(*osc_arg),
{
    match osc_arg {
        Argument::Int(int32) => {
            proof {
                lemma_low_byte_of_int(*int32);
            }
            Some(#[verifier::truncate] (*int32 as u8))
        },
        Argument::Char(int8) => {
            proof {
                lemma_low_byte_of_char(*int8);
            }
            Some(#[verifier::truncate] (*int8 as u8))
        },
        _ => None,
    }
}

/// Reads a level out of an argument: only a boolean is one.
pub fn bool_from_osc(osc_arg: &Argument) -> (r: Option<bool>)
    ensures
        r == level_of(*osc_arg),
{
    match osc_arg {
        Argument::Bool(boolean) => Some(*boolean),
        _ => None,
    }
}

/// Takes the single message out of a packet; a bundle is refused.
pub fn packet_to_message(packet: Packet) -> (r: Result<Message, RoutingError>)
    ensures
        match packet {
            Packet::Message(msg) => r == Ok::<Message, RoutingError>(msg),
            Packet::Bundle => r == Err::<Message, RoutingError>(RoutingError::UnsupportedBundle),
        },
{
    match packet {
        Packet::Message(msg) => Ok(msg),
        Packet::Bundle => Err(RoutingError::UnsupportedBundle),
    }
}

/// Accepts a message only if it is addressed to the control path.
pub fn assert_gpio_message_path(message: &Message) -> (r: Result<&Message, RoutingError>)
    ensures
        message.addr@ == control_path() ==> r == Ok::<&Message, RoutingError>(message),
        message.addr@ != control_path() ==> r == Err::<&Message, RoutingError>(
            RoutingError::AddressMismatch,
        ),
{
    let expected = String::from_str("/gpio/write");
    if message.addr == expected {
        Ok(message)
    } else {
        Err(RoutingError::AddressMismatch)
    }
}

/// Reads the command out of a message's arguments: exactly two, a pin
/// identifier and then a level. The address is not looked at.
pub fn gpio_message_to_state(message: &Message) -> (r: Result<Command, RoutingError>)
    ensures
        r == command_of(message@.args),
{
    match &message.args {
        Some(params) => {
            if params.len() != 2 {
                return Err(RoutingError::ArgumentShapeMismatch);
            }
            let maybe_pin = u8_from_osc(&params[0]);
            let maybe_level = bool_from_osc(&params[1]);
            match (maybe_pin, maybe_level) {
                (Some(pin), Some(level)) => Ok(Command { target_pin: pin, requested_level: level }),
                _ => Err(RoutingError::ArgumentShapeMismatch),
            }
        },
        None => Err(RoutingError::ArgumentShapeMismatch),
    }
}

/// Routes a single message: the address first, then the arguments.
pub fn gpio_message(message: Message) -> (r: Result<Command, RoutingError>)
    ensures
        r == route_message(message@),
{
    match assert_gpio_message_path(&message) {
        Ok(checked) => gpio_message_to_state(checked),
        Err(e) => Err(e),
    }
}

/// Routes a decoded packet: a bundle is refused before the router looks
/// at anything else, a message is routed by address and arguments.
pub fn route(packet: Packet) -> (r: Result<Command, RoutingError>)
    ensures
        r == route_packet(packet@),
{
    match packet_to_message(packet) {
        Ok(message) => gpio_message(message),
        Err(e) => Err(e),
    }
}

} // verus!
