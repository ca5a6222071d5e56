use rusmpp::codec::command_codec::CommandCodec;
use rusmpp::commands::types::{InterfaceVersion, Npi, Ton};
use rusmpp::pdu::Pdu;
use smscli::codec::{decode, encode, frame_end, Frame, Framing, StreamItem};
use smscli::command::{Bind, Command, CommandStatus, Field, Pdu as Body, SubmitSm};
use smscli::command::{Npi as Plan, Ton as Kind};
use tokio_util::bytes::BytesMut;
use tokio_util::codec::Decoder;

fn read_back(frame: &[u8]) -> rusmpp::Command {
    let mut bytes = BytesMut::from(frame);
    let command = CommandCodec.decode(&mut bytes).unwrap().unwrap();
    assert!(bytes.is_empty());
    command
}

#[test]
fn bind_round_trip() {
    let command = Command::bind_transceiver("testuser", "testpass");
    let frame = encode(&command).unwrap();
    let read = read_back(&frame);
    assert_eq!(read.sequence_number, 1);
    assert_eq!(read.command_status, rusmpp::CommandStatus::EsmeRok);
    match read.pdu() {
        Some(Pdu::BindTransceiver(bind)) => {
            assert_eq!(bind.system_id.to_str().unwrap(), "testuser");
            assert_eq!(bind.password.to_str().unwrap(), "testpass");
            assert!(bind.system_type.is_empty());
            assert_eq!(bind.interface_version, InterfaceVersion::Smpp3_4);
            assert_eq!(bind.addr_ton, Ton::Unknown);
            assert_eq!(bind.addr_npi, Npi::Unknown);
            assert!(bind.address_range.is_empty());
        }
        other => panic!("not a bind: {:?}", other),
    }
    assert_eq!(
        decode(&frame),
        StreamItem::Frame(
            Frame { command_id: 9, command_status: CommandStatus { code: 0 }, sequence_number: 1 },
            frame.len()
        )
    );
}

#[test]
fn submit_round_trip() {
    let command = Command::submit_sm("15551234567", "Hello", "MYCOMPANY");
    let frame = encode(&command).unwrap();
    let read = read_back(&frame);
    assert_eq!(read.sequence_number, 2);
    assert_eq!(read.command_status, rusmpp::CommandStatus::EsmeRok);
    match read.pdu() {
        Some(Pdu::SubmitSm(submit)) => {
            assert_eq!(submit.source_addr_ton, Ton::Alphanumeric);
            assert_eq!(submit.source_addr_npi, Npi::Unknown);
            assert_eq!(submit.source_addr.to_str().unwrap(), "MYCOMPANY");
            assert_eq!(submit.dest_addr_ton, Ton::International);
            assert_eq!(submit.dest_addr_npi, Npi::Isdn);
            assert_eq!(submit.destination_addr.to_str().unwrap(), "15551234567");
            assert_eq!(submit.short_message().to_str().unwrap(), "Hello");
            assert_eq!(submit.sm_length(), 5);
            assert_eq!(submit.serivce_type, Default::default());
            assert_eq!(submit.esm_class, Default::default());
            assert_eq!(submit.registered_delivery, Default::default());
            assert!(submit.tlvs().is_empty());
        }
        other => panic!("not a submit: {:?}", other),
    }
    assert_eq!(
        decode(&frame),
        StreamItem::Frame(
            Frame { command_id: 4, command_status: CommandStatus { code: 0 }, sequence_number: 2 },
            frame.len()
        )
    );
}

#[test]
fn unbind_round_trip() {
    let frame = encode(&Command::unbind()).unwrap();
    let read = read_back(&frame);
    assert_eq!(read.sequence_number, 3);
    assert_eq!(read.pdu(), Some(&Pdu::Unbind));
    assert_eq!(
        decode(&frame),
        StreamItem::Frame(
            Frame { command_id: 6, command_status: CommandStatus { code: 0 }, sequence_number: 3 },
            16
        )
    );
}

#[test]
fn command_is_encoded_as_given() {
    let command = Command {
        sequence_number: 0x0102_0304,
        status: CommandStatus { code: 0x0000_0058 },
        body: Body::BindTransceiver(Bind {
            system_id: "id".to_string(),
            password: "pw".to_string(),
            system_type: "type".to_string(),
            interface_version: 0x50,
            addr_ton: Kind::International,
            addr_npi: Plan::Isdn,
            address_range: "^1".to_string(),
        }),
    };
    let mut expected = vec![0, 0, 0, 33, 0, 0, 0, 9, 0, 0, 0, 0x58, 1, 2, 3, 4];
    expected.extend_from_slice(b"id\0pw\0type\0");
    expected.extend_from_slice(&[0x50, 1, 1]);
    expected.extend_from_slice(b"^1\0");
    assert_eq!(encode(&command), Ok(expected));
}

#[test]
fn encode_names_the_first_field_that_does_not_fit() {
    let mut bind = Bind {
        system_id: "id".to_string(),
        password: "pw".to_string(),
        system_type: "thirteen_char".to_string(),
        interface_version: 0x34,
        addr_ton: Kind::Unknown,
        addr_npi: Plan::Unknown,
        address_range: "x".repeat(41),
    };
    let command = |bind: &Bind| Command {
        sequence_number: 1,
        status: CommandStatus { code: 0 },
        body: Body::BindTransceiver(bind.clone()),
    };
    assert_eq!(encode(&command(&bind)), Err(Field::SystemType));
    bind.system_type = "twelve_chars".to_string();
    assert_eq!(encode(&command(&bind)), Err(Field::AddressRange));
    bind.address_range = "x".repeat(40);
    assert!(encode(&command(&bind)).is_ok());
    bind.password = "ninechars".to_string();
    bind.system_id = String::new();
    assert_eq!(encode(&command(&bind)), Err(Field::Password));
    let submit = Command {
        sequence_number: 2,
        status: CommandStatus { code: 0 },
        body: Body::SubmitSm(SubmitSm {
            source_addr_ton: Kind::Unknown,
            source_addr_npi: Plan::Unknown,
            source_addr: "\0".to_string(),
            dest_addr_ton: Kind::International,
            dest_addr_npi: Plan::Isdn,
            destination_addr: "x".repeat(30),
            short_message: "Hello".to_string(),
        }),
    };
    assert_eq!(encode(&submit), Err(Field::SourceAddr));
}

#[test]
fn frame_end_by_length_field() {
    assert_eq!(frame_end(&[]), Framing::Incomplete);
    assert_eq!(frame_end(&[0, 0, 0]), Framing::Incomplete);
    assert_eq!(frame_end(&[0, 0, 0, 0]), Framing::Malformed);
    assert_eq!(frame_end(&[0, 0, 0, 3, 9, 9]), Framing::Malformed);
    assert_eq!(frame_end(&[0, 0, 0, 4]), Framing::Complete(4));
    assert_eq!(frame_end(&[0, 0, 0, 5]), Framing::Incomplete);
    assert_eq!(frame_end(&[0, 0, 0, 5, 1, 2]), Framing::Complete(5));
    assert_eq!(frame_end(&[0, 0, 1, 2, 1, 2]), Framing::Incomplete);
    assert_eq!(frame_end(&[1, 2, 3, 4]), Framing::Incomplete);
    let mut long = vec![0, 0, 1, 2];
    long.resize(300, 0);
    assert_eq!(frame_end(&long), Framing::Complete(258));
}

#[test]
fn decode_takes_the_first_frame() {
    let mut bytes = vec![0, 0, 0, 16, 0x80, 0, 0, 6, 0, 0, 0, 7, 0, 0, 0, 3];
    bytes.extend_from_slice(&[0, 0, 0, 16, 0x80, 0, 0]);
    assert_eq!(
        decode(&bytes),
        StreamItem::Frame(
            Frame {
                command_id: 0x8000_0006,
                command_status: CommandStatus { code: 7 },
                sequence_number: 3
            },
            16
        )
    );
    assert_eq!(decode(&bytes[16..]), StreamItem::Incomplete);
    assert_eq!(decode(&bytes[..15]), StreamItem::Incomplete);
}

#[test]
fn decode_reads_frames_of_unknown_kind() {
    let bytes = [0, 0, 0, 18, 0, 0, 0x77, 0x77, 0, 0, 0, 0, 0, 0, 0, 5, 1, 2];
    assert_eq!(
        decode(&bytes),
        StreamItem::Frame(
            Frame {
                command_id: 0x7777,
                command_status: CommandStatus { code: 0 },
                sequence_number: 5
            },
            18
        )
    );
}

#[test]
fn decode_rejects_what_does_not_decode() {
    assert_eq!(decode(&[0, 0, 0, 2, 0, 0]), StreamItem::Broken);
    assert_eq!(decode(&[0, 0, 0, 4]), StreamItem::Broken);
    assert_eq!(decode(&[0, 0, 0, 12, 0x80, 0, 0, 6, 0, 0, 0, 0]), StreamItem::Broken);
    let mut bytes = vec![0, 0, 0, 22, 0x80, 0, 0, 4, 0, 0, 0, 0, 0, 0, 0, 2];
    bytes.extend_from_slice(b"abcdef");
    assert_eq!(decode(&bytes), StreamItem::Broken);
}

#[test]
fn header_alone_is_always_read() {
    for command_id in [0u32, 4, 9, 0x8000_0004, 0x8000_0009, 0x8000_0006, 0x0000_0103, 0xFFFF_FFFF] {
        let mut bytes = vec![0, 0, 0, 16];
        bytes.extend_from_slice(&command_id.to_be_bytes());
        bytes.extend_from_slice(&0x0102_0304u32.to_be_bytes());
        bytes.extend_from_slice(&0xA0B0_C0D0u32.to_be_bytes());
        assert_eq!(
            decode(&bytes),
            StreamItem::Frame(
                Frame {
                    command_id,
                    command_status: CommandStatus { code: 0x0102_0304 },
                    sequence_number: 0xA0B0_C0D0
                },
                16
            )
        );
    }
}

#[test]
fn status_and_id_keep_their_numbers() {
    for code in [0u32, 1, 5, 0x0B, 0x45, 0xFF, 0x100, 0x400, 0x7777_0000, 0xFFFF_FFFF] {
        let command = Command {
            sequence_number: code,
            status: CommandStatus { code },
            body: Body::Unbind,
        };
        let frame = encode(&command).unwrap();
        assert_eq!(&frame[..4], &[0, 0, 0, 16]);
        assert_eq!(&frame[4..8], &[0, 0, 0, 6]);
        assert_eq!(&frame[8..12], &code.to_be_bytes());
        assert_eq!(&frame[12..16], &code.to_be_bytes());
        assert_eq!(
            decode(&frame),
            StreamItem::Frame(
                Frame {
                    command_id: 6,
                    command_status: CommandStatus { code },
                    sequence_number: code
                },
                16
            )
        );
    }
}

#[test]
fn length_field_counts_the_frame() {
    let longest = "x".repeat(254);
    let command = Command::submit_sm("12345678901234567890", &longest, "abcdefghijklmnopqrst");
    let frame = encode(&command).unwrap();
    assert_eq!(frame.len(), 16 + 311);
    assert_eq!(&frame[..4], &(frame.len() as u32).to_be_bytes());
    assert_eq!(frame_end(&frame), Framing::Complete(frame.len()));
    assert_eq!(frame[16 + 56], 254);
    assert_eq!(frame[16 + 47], 0x10);
    let command = Command::bind_transceiver("fifteen_chars__", "8_chars_");
    let frame = encode(&command).unwrap();
    assert_eq!(&frame[..4], &(frame.len() as u32).to_be_bytes());
    assert_eq!(frame.len(), 16 + 16 + 9 + 1 + 3 + 1);
}
