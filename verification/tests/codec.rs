use osc_to_gpio::codec::{
    carries_fragile_tag, decode_datagram, Argument, DecodeError, Message, Packet,
};
use rosc::{OscBundle, OscColor, OscMessage, OscMidiMessage, OscPacket, OscType};

fn datagram(addr: &str, args: Option<Vec<OscType>>) -> Vec<u8> {
    rosc::encoder::encode(&OscPacket::Message(OscMessage { addr: addr.to_string(), args }))
        .unwrap()
}

fn message(addr: &str, args: Option<Vec<Argument>>) -> Packet {
    Packet::Message(Message { addr: addr.to_string(), args })
}

#[test]
fn decode_reads_address_and_arguments() {
    let bytes = datagram("/gpio/write", Some(vec![OscType::Int(3), OscType::Bool(true)]));
    assert_eq!(
        decode_datagram(&bytes),
        Ok(message("/gpio/write", Some(vec![Argument::Int(3), Argument::Bool(true)])))
    );
}

#[test]
fn decode_reads_hand_written_bytes() {
    let bytes = b"/gpio/write\0,iF\0\0\0\x01\x07";
    assert_eq!(
        decode_datagram(bytes),
        Ok(message("/gpio/write", Some(vec![Argument::Int(263), Argument::Bool(false)])))
    );
}

#[test]
fn decode_keeps_integer_character_and_boolean_values() {
    let bytes = datagram(
        "/a",
        Some(vec![
            OscType::Int(-5),
            OscType::Char('x'),
            OscType::Bool(false),
            OscType::Bool(true),
        ]),
    );
    assert_eq!(
        decode_datagram(&bytes),
        Ok(message(
            "/a",
            Some(vec![
                Argument::Int(-5),
                Argument::Char('x'),
                Argument::Bool(false),
                Argument::Bool(true),
            ])
        ))
    );
}

#[test]
fn decode_marks_every_other_kind() {
    let bytes = datagram(
        "/a",
        Some(vec![
            OscType::Float(1.5),
            OscType::Double(2.5),
            OscType::Long(7),
            OscType::String("hi".to_string()),
            OscType::Time(1, 2),
            OscType::Nil,
            OscType::Inf,
        ]),
    );
    assert_eq!(decode_datagram(&bytes), Ok(message("/a", Some(vec![Argument::Other; 7]))));
}

#[test]
fn decode_of_a_message_without_tags_has_no_argument_list() {
    assert_eq!(decode_datagram(&datagram("/gpio/write", None)), Ok(message("/gpio/write", None)));
    assert_eq!(decode_datagram(b"/a\0\0"), Ok(message("/a", None)));
}

#[test]
fn decode_takes_a_bundle_frame_as_a_bundle() {
    let inner = OscPacket::Message(OscMessage {
        addr: "/gpio/write".to_string(),
        args: Some(vec![OscType::Int(3), OscType::Bool(true)]),
    });
    let bundle = OscPacket::Bundle(OscBundle { timetag: OscType::Time(0, 1), content: vec![inner] });
    let bytes = rosc::encoder::encode(&bundle).unwrap();
    assert_eq!(decode_datagram(&bytes), Ok(Packet::Bundle));
    assert_eq!(decode_datagram(b"#"), Ok(Packet::Bundle));
    assert_eq!(decode_datagram(b"#bundle\0\0\0\0\0\0\0\0\x01\xff\xff\xff\xff"), Ok(Packet::Bundle));
}

#[test]
fn decode_refuses_bytes_that_are_no_packet() {
    assert_eq!(decode_datagram(b""), Err(DecodeError::Malformed));
    assert_eq!(decode_datagram(b"hello"), Err(DecodeError::Malformed));
    assert_eq!(decode_datagram(b"\0\0\0\0"), Err(DecodeError::Malformed));
}

#[test]
fn decode_looks_for_fragile_tags_in_message_frames_only() {
    assert!(carries_fragile_tag(b"xyz\0,m\0\0"));
    assert_eq!(decode_datagram(b"xyz\0,m\0\0"), Err(DecodeError::Malformed));
    assert_eq!(decode_datagram(b"\0\0\0\0,b\0\0"), Err(DecodeError::Malformed));
}

#[test]
fn decode_refuses_a_truncated_argument() {
    assert_eq!(decode_datagram(b"/gpio/write\0,iT\0\0\0"), Err(DecodeError::Malformed));
}

#[test]
fn decode_refuses_an_unknown_tag() {
    assert_eq!(decode_datagram(b"/a\0\0,z\0\0"), Err(DecodeError::Malformed));
}

#[test]
fn decode_refuses_fragile_arguments_unread() {
    let blob = datagram("/a", Some(vec![OscType::Blob(vec![1, 2, 3])]));
    assert_eq!(decode_datagram(&blob), Err(DecodeError::UnsupportedArgument));
    let midi = datagram(
        "/a",
        Some(vec![OscType::Midi(OscMidiMessage { port: 1, status: 2, data1: 3, data2: 4 })]),
    );
    assert_eq!(decode_datagram(&midi), Err(DecodeError::UnsupportedArgument));
    let colour = datagram(
        "/a",
        Some(vec![
            OscType::Int(3),
            OscType::Color(OscColor { red: 1, green: 2, blue: 3, alpha: 4 }),
        ]),
    );
    assert_eq!(decode_datagram(&colour), Err(DecodeError::UnsupportedArgument));
}

#[test]
fn decode_refuses_fragile_tags_without_their_bytes() {
    assert_eq!(decode_datagram(b"/a\0\0,m\0\0"), Err(DecodeError::UnsupportedArgument));
    assert_eq!(decode_datagram(b"/a\0\0,r\0\0"), Err(DecodeError::UnsupportedArgument));
    assert_eq!(decode_datagram(b"/a\0\0,b\0\0"), Err(DecodeError::UnsupportedArgument));
    assert_eq!(decode_datagram(b"/a\0\0,iTm"), Err(DecodeError::UnsupportedArgument));
}

#[test]
fn fragile_tags_are_looked_for_in_the_tag_list_only() {
    // The address holds `r`, an argument holds the bytes of `b`, `m` and `r`.
    let bytes = datagram("/gpio/write", Some(vec![OscType::Int(0x62_6d_72), OscType::Bool(true)]));
    assert!(!carries_fragile_tag(&bytes));
    let bytes = datagram("/brm", Some(vec![OscType::String("brm".to_string())]));
    assert!(!carries_fragile_tag(&bytes));
    assert_eq!(decode_datagram(&bytes), Ok(message("/brm", Some(vec![Argument::Other]))));
}

#[test]
fn fragile_tag_scan_edge_cases() {
    assert!(!carries_fragile_tag(b""));
    assert!(!carries_fragile_tag(b"/"));
    assert!(!carries_fragile_tag(b"/abc"));
    assert!(!carries_fragile_tag(b"/abc\0"));
    assert!(!carries_fragile_tag(b"/abc\0\0\0"));
    assert!(!carries_fragile_tag(b"/abc\0\0\0\0"));
    assert!(!carries_fragile_tag(b"/abc\0\0\0\0,"));
    assert!(carries_fragile_tag(b"/abc\0\0\0\0,b"));
    assert!(carries_fragile_tag(b"/abc\0\0\0\0m"));
    // Behind the zero that ends the tag list nothing is a tag.
    assert!(!carries_fragile_tag(b"/abc\0\0\0\0,i\0b"));
    // The padding behind the address is skipped, whatever it holds.
    assert!(!carries_fragile_tag(b"/a\0b,i\0\0"));
    assert!(carries_fragile_tag(b"/a\0\0r"));
}

#[test]
fn pin_ninety_eight_is_not_mistaken_for_a_blob() {
    let bytes = datagram("/gpio/write", Some(vec![OscType::Int(98), OscType::Bool(true)]));
    assert_eq!(
        decode_datagram(&bytes),
        Ok(message("/gpio/write", Some(vec![Argument::Int(98), Argument::Bool(true)])))
    );
}

/// What the codec itself makes of a datagram, in the bridge's terms.
fn reference_decoding(bytes: &[u8]) -> Result<Packet, DecodeError> {
    match rosc::decoder::decode(bytes) {
        Ok(OscPacket::Message(m)) => Ok(Packet::Message(Message {
            addr: m.addr,
            args: m.args.map(|args| {
                args.iter()
                    .map(|arg| match arg {
                        OscType::Int(v) => Argument::Int(*v),
                        OscType::Char(c) => Argument::Char(*c),
                        OscType::Bool(b) => Argument::Bool(*b),
                        _ => Argument::Other,
                    })
                    .collect()
            }),
        })),
        Ok(OscPacket::Bundle(_)) => Ok(Packet::Bundle),
        Err(_) => Err(DecodeError::Malformed),
    }
}

#[test]
fn every_short_datagram_is_decoded_or_refused() {
    // All datagrams of up to five bytes over an alphabet of frame marks,
    // tags, zero and a byte that is no ASCII.
    let alphabet: [u8; 12] =
        [0, b'/', b'#', b',', b'b', b'm', b'r', b'i', b'T', b's', b'c', 0xff];
    let mut count: u32 = 0;
    for len in 0..=5usize {
        let mut index = vec![0usize; len];
        loop {
            let bytes: Vec<u8> = index.iter().map(|&i| alphabet[i]).collect();
            let got = decode_datagram(&bytes);
            if bytes.first() == Some(&b'#') {
                assert_eq!(got, Ok(Packet::Bundle));
            } else if bytes.first() == Some(&b'/') && carries_fragile_tag(&bytes) {
                assert_eq!(got, Err(DecodeError::UnsupportedArgument));
            } else {
                assert_eq!(got, reference_decoding(&bytes));
            }
            count += 1;
            let mut k = 0;
            while k < len {
                index[k] += 1;
                if index[k] < alphabet.len() {
                    break;
                }
                index[k] = 0;
                k += 1;
            }
            if k == len {
                break;
            }
        }
    }
    assert_eq!(count, 1 + 12 + 144 + 1728 + 20736 + 248832);
}

#[test]
fn scrambled_messages_are_decoded_or_refused() {
    // Message frames with every mix of tags behind a short address, cut
    // off at every length, with a few argument bytes behind them.
    let tags: [u8; 16] = [
        b'i', b'f', b'd', b'h', b's', b't', b'b', b'r', b'm', b'c', b'T', b'F', b'N', b'I', b'z',
        0,
    ];
    let tail: [u8; 12] = [0, 0, 0, 1, b'a', 0, 0, 0, 0xff, 0xff, 0xff, 0xff];
    let mut state: u32 = 0x2545_f491;
    for _ in 0..20000 {
        let mut bytes: Vec<u8> = b"/p\0\0,".to_vec();
        for _ in 0..3 {
            state = state.wrapping_mul(1_664_525).wrapping_add(1_013_904_223);
            bytes.push(tags[(state >> 24) as usize % tags.len()]);
        }
        bytes.extend_from_slice(&tail);
        state = state.wrapping_mul(1_664_525).wrapping_add(1_013_904_223);
        let keep = (state >> 24) as usize % (bytes.len() + 1);
        bytes.truncate(keep);
        let got = decode_datagram(&bytes);
        if bytes.first() == Some(&b'/') && carries_fragile_tag(&bytes) {
            assert_eq!(got, Err(DecodeError::UnsupportedArgument));
        } else {
            assert_eq!(got, reference_decoding(&bytes));
        }
    }
}
