//! Packets as the bridge reads them.

use vstd::prelude::*;
use vstd::string::StringSliceAdditionalSpecFns;

verus! {

/// One typed argument of a message. Only the kinds that a command may
/// carry keep their value; every other kind is `Other`.
#[derive(Clone, Copy, Debug, PartialEq, Eq, Structural)]
pub enum Argument {
    Int(i32),
    Char(char),
    Bool(bool),
    Other,
}

/// A single message: an address and its arguments, in order. `args` is
/// `None` for a message without a type tag list.
#[derive(Clone, Debug, PartialEq, Eq)]
pub struct Message {
    pub addr: String,
    pub args: Option<Vec<Argument>>,
}

/// The mathematical content of a [`Message`].
pub struct MessageView {
    pub addr: Seq<char>,
    pub args: Option<Seq<Argument>>,
}

impl View for Message {
    type V = MessageView;

    open spec fn view(&self) -> MessageView {
        MessageView {
            addr: self.addr@,
            args: match self.args {
                Some(a) => Some(a@),
                None => None,
            },
        }
    }
}

/// A decoded packet: one message, or a bundle of packets. The content of
/// a bundle is never read, so it is not kept.
#[derive(Clone, Debug, PartialEq, Eq)]
pub enum Packet {
    Message(Message),
    Bundle,
}

/// The mathematical content of a [`Packet`].
pub enum PacketView {
    Message(MessageView),
    Bundle,
}

impl View for Packet {
    type V = PacketView;

    open spec fn view(&self) -> PacketView {
        match self {
            Packet::Message(m) => PacketView::Message(m@),
            Packet::Bundle => PacketView::Bundle,
        }
    }
}

/// Why a datagram gave no packet.
#[derive(Clone, Copy, Debug, PartialEq, Eq, Structural)]
pub enum DecodeError {
    /// The codec found no valid packet in the bytes.
    Malformed,
    /// The type tag list of the message names a blob, a colour or a MIDI
    /// argument. Such a datagram is never handed to the codec.
    UnsupportedArgument,
}

/// A datagram that begins with `#` is framed as a bundle.
pub open spec fn is_bundle_frame(bytes: Seq<u8>) -> bool {
    bytes.len() > 0 && bytes[0] == 0x23
}

/// A datagram that begins with `/` is framed as a single message.
pub open spec fn is_message_frame(bytes: Seq<u8>) -> bool {
    bytes.len() > 0 && bytes[0] == 0x2f
}

/// The index of the first zero byte at or after `from`, or the length of
/// `bytes` where there is none.
pub open spec fn nul_from(bytes: Seq<u8>, from: int) -> int
    decreases bytes.len() - from,
{
    if from < 0 || from >= bytes.len() {
        bytes.len() as int
    } else if bytes[from] == 0 {
        from
    } else {
        nul_from(bytes, from + 1)
    }
}

/// `pos` rounded up to a multiple of four.
pub open spec fn round_up4(pos: int) -> int {
    if pos % 4 == 0 {
        pos
    } else {
        pos + (4 - pos % 4)
    }
}

/// Where the type tag list of a message begins: behind the address, its
/// terminating zero and the padding to a multiple of four.
pub open spec fn tags_start(bytes: Seq<u8>) -> int {
    let nul = nul_from(bytes, 0);
    round_up4(if nul < bytes.len() { nul + 1 } else { nul })
}

/// Where the type tag list ends: at its terminating zero, or with the
/// datagram.
pub open spec fn tags_end(bytes: Seq<u8>) -> int {
    nul_from(bytes, tags_start(bytes))
}

/// The tags `b` (blob), `m` (MIDI) and `r` (colour).
pub open spec fn is_fragile_tag(tag: u8) -> bool {
    tag == 0x62 || tag == 0x6d || tag == 0x72
}

/// Whether the type tag list of the datagram holds a fragile tag.
pub open spec fn has_fragile_tag(bytes: Seq<u8>) -> bool {
    exists|i: int| tags_start(bytes) <= i < tags_end(bytes) && is_fragile_tag(#[trigger] bytes[i])
}

/// Skipping bytes that are not zero does not move the next zero.
proof fn lemma_nul_from_skips(bytes: Seq<u8>, from: int, to: int)
    requires
        0 <= from <= to <= bytes.len(),
        forall|j: int| from <= j < to ==> bytes[j] != 0,
    ensures
        nul_from(bytes, from) == nul_from(bytes, to),
    decreases to - from,
{
    if from < to {
        lemma_nul_from_skips(bytes, from + 1, to);
    }
}

/// The next zero is not before the place the search starts from.
proof fn lemma_nul_from_bounds(bytes: Seq<u8>, from: int)
    requires
        0 <= from <= bytes.len(),
    ensures
        from <= nul_from(bytes, from) <= bytes.len(),
    decreases bytes.len() - from,
{
    if from < bytes.len() && bytes[from] != 0 {
        lemma_nul_from_bounds(bytes, from + 1);
    }
}

/// Finds the first zero byte at or after `from`.
fn find_nul(bytes: &[u8], from: usize) -> (end: usize)
    requires
        from <= bytes@.len(),
    ensures
        end == nul_from(bytes@, from as int),
        from <= end <= bytes@.len(),
{
    let mut i: usize = from;
    while i < bytes.len() && bytes[i] != 0
        invariant
            from <= i <= bytes@.len(),
            forall|j: int| from <= j < i ==> bytes@[j] != 0,
        decreases bytes@.len() - i,
    {
        i += 1;
    }
    proof {
        lemma_nul_from_skips(bytes@, from as int, i as int);
    }
    i
}

/// Tells whether the type tag list of a datagram names a blob, a colour or
/// a MIDI argument.
pub fn carries_fragile_tag(bytes: &[u8]) -> (r: bool)
    ensures
        r == has_fragile_tag(bytes@),
{
    let len: usize = bytes.len();
    let nul: usize = find_nul(bytes, 0);
    let pos: usize = if nul < len { nul + 1 } else { nul };
    let rem: usize = pos % 4;
    if rem != 0 && len - pos <= 4 - rem {
        return false;
    }
    let start: usize = if rem == 0 { pos } else { pos + (4 - rem) };
    if start >= len {
        return false;
    }
    let mut i: usize = start;
    while i < len && bytes[i] != 0
        invariant
            len == bytes@.len(),
            start <= i <= len,
            start == tags_start(bytes@),
            forall|j: int| start <= j < i ==> bytes@[j] != 0 && !is_fragile_tag(bytes@[j]),
        decreases len - i,
    {
        if bytes[i] == 0x62 || bytes[i] == 0x6d || bytes[i] == 0x72 {
            proof {
                lemma_nul_from_skips(bytes@, start as int, i as int + 1);
                lemma_nul_from_bounds(bytes@, i as int + 1);
            }
            return true;
        }
        i += 1;
    }
    proof {
        lemma_nul_from_skips(bytes@, start as int, i as int);
    }
    false
}

/// The datagrams that the codec is trusted with: no bundle frame, and
/// no message frame whose type tag list holds a fragile tag.
pub open spec fn safe_to_decode(bytes: Seq<u8>) -> bool {
    &&& !is_bundle_frame(bytes)
    &&& is_message_frame(bytes) ==> !has_fragile_tag(bytes)
}

/// The error of the `rosc` codec. Nothing is read out of it.
#[verifier::external_type_specification]
#[verifier::external_body]
pub struct ExOscError(rosc::OscError);

/// What `rosc::decoder::decode` makes of a datagram: the packet, or
/// `None` where it reports an error.
pub uninterp spec fn osc_decoding(bytes: Seq<u8>) -> Option<PacketView>;

/// Calls `rosc::decoder::decode` and copies the packet it returns: the
/// address, and of each argument its kind and, for an integer, a character
/// or a boolean, its value. The contract gives the result the name
/// [`osc_decoding`] and says nothing more of it.
///
/// The precondition keeps the datagram away from the parts of that
/// decoder that index or allocate before they know how many bytes are
/// left: the readers of bundle elements and blobs (a buffer of the size
/// the datagram claims) and of colours and MIDI messages (four bytes read
/// by index). That decoder goes by the first byte: `#` for a bundle, `/`
/// for a message, whose type tag list it finds where [`tags_start`] says;
/// anything else it refuses at once.
#[verifier::external_body]
fn decode_single(bytes: &[u8]) -> (r: Result<Packet, rosc::OscError>)
    requires
        safe_to_decode(bytes@),
    ensures
        match r {
            Ok(p) => osc_decoding(bytes@) == Some(p@),
            Err(_) => osc_decoding(bytes@).is_none(),
        },
{
    match rosc::decoder::decode(bytes)? {
        rosc::OscPacket::Message(m) => Ok(Packet::Message(Message {
            addr: m.addr,
            args: m.args.map(|a| a.iter().map(|t| match t {
                rosc::OscType::Int(v) => Argument::Int(*v),
                rosc::OscType::Char(c) => Argument::Char(*c),
                rosc::OscType::Bool(b) => Argument::Bool(*b),
                _ => Argument::Other,
            }).collect()),
        })),
        rosc::OscPacket::Bundle(_) => Ok(Packet::Bundle),
    }
}

/// What a datagram is read as. A bundle frame is a bundle whatever it
/// holds; a message frame that names a fragile argument is refused
/// unread; the rest is what the codec makes of it.
pub open spec fn datagram_packet(bytes: Seq<u8>) -> Result<PacketView, DecodeError> {
    if is_bundle_frame(bytes) {
        Ok(PacketView::Bundle)
    } else if is_message_frame(bytes) && has_fragile_tag(bytes) {
        Err(DecodeError::UnsupportedArgument)
    } else {
        match osc_decoding(bytes) {
            Some(p) => Ok(p),
            None => Err(DecodeError::Malformed),
        }
    }
}

/// Decodes one datagram. A bundle frame is taken as a bundle without a
/// look at its elements, since a bundle is refused whatever it holds. A
/// message frame goes to the codec unless its type tag list names a blob,
/// a colour or a MIDI argument.
pub fn decode_datagram(bytes: &[u8]) -> (r: Result<Packet, DecodeError>)
    ensures
        match r {
            Ok(p) => datagram_packet(bytes@) == Ok::<PacketView, DecodeError>(p@),
            Err(e) => datagram_packet(bytes@) == Err::<PacketView, DecodeError>(e),
        },
{
    if bytes.len() > 0 && bytes[0] == 0x23 {
        return Ok(Packet::Bundle);
    }
    if bytes.len() > 0 && bytes[0] == 0x2f && carries_fragile_tag(bytes) {
        return Err(DecodeError::UnsupportedArgument);
    }
    match decode_single(bytes) {
        Ok(packet) => Ok(packet),
        Err(_) => Err(DecodeError::Malformed),
    }
}

/// A string as the protocol writes it: its bytes, a zero, and zeros up to
/// the next multiple of four.
pub open spec fn osc_string(s: Seq<u8>) -> Seq<u8> {
    s + Seq::new((4 - s.len() % 4) as nat, |i: int| 0u8)
}

/// The type tag of a boolean: `T` or `F`.
pub open spec fn bool_tag(level: bool) -> u8 {
    if level {
        0x54
    } else {
        0x46
    }
}

/// The bytes of a message with one boolean argument: the address, then
/// the type tag list `,T` or `,F`. A boolean has no argument bytes.
pub open spec fn bool_message_bytes(addr: Seq<u8>, level: bool) -> Seq<u8> {
    osc_string(addr) + osc_string(seq![0x2cu8, bool_tag(level)])
}

/// Calls `rosc::encoder::encode` on a message with the given address and
/// one boolean argument. The encoder writes the address and the type tag
/// list as padded strings and nothing for the boolean itself; it reports
/// no error for a message.
#[verifier::external_body]
pub(crate) fn encode_bool_message(addr: &str, level: bool) -> (r: Result<Vec<u8>, rosc::OscError>)
    ensures
        r is Ok,
        r->Ok_0@ == bool_message_bytes(addr.spec_bytes(), level),
{
    rosc::encoder::encode(&rosc::OscPacket::Message(rosc::OscMessage {
        addr: addr.to_string(),
        args: Some(vec![rosc::OscType::Bool(level)]),
    }))
}

} // verus!
