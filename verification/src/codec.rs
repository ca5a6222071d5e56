//! The wire: requests become frames through `rusmpp`, and the byte stream
//! that comes back is cut into frames here and read through `rusmpp`.

use std::str::FromStr;
use rusmpp::codec::command_codec::CommandCodec;
use rusmpp::types::{COctetString, OctetString};
use tokio_util::bytes::BytesMut;
use tokio_util::codec::{Decoder, Encoder};
use vstd::prelude::*;
use vstd::slice::slice_subrange;
use crate::command::{
    Command, CommandStatus, CommandView, Field, Pdu, PduView, BIND_TRANSCEIVER, SUBMIT_SM, UNBIND,
};
use crate::fields::is_c_octet_string;

verus! {

/// The four octets of `word`, most significant first.
pub open spec fn be32_octets(word: u32) -> Seq<u8> {
    seq![
        (word / 16777216) as u8,
        (word / 65536 % 256) as u8,
        (word / 256 % 256) as u8,
        (word % 256) as u8,
    ]
}

/// ASCII text as octets, one for each character.
pub open spec fn octets(text: Seq<char>) -> Seq<u8> {
    Seq::new(text.len(), |i: int| text[i] as u8)
}

/// ASCII text as a terminated field: its octets and a NUL.
pub open spec fn c_octets(text: Seq<char>) -> Seq<u8> {
    octets(text).push(0u8)
}

/// A frame: its length, which counts the whole frame, then the command
/// id, the command status and the sequence number, each as four octets,
/// then the body.
pub open spec fn frame_of(
    command_id: u32,
    command_status: u32,
    sequence_number: u32,
    body: Seq<u8>,
) -> Seq<u8> {
    be32_octets((16 + body.len()) as u32) + be32_octets(command_id) + be32_octets(command_status)
        + be32_octets(sequence_number) + body
}

/// Body of a bind request on the wire.
pub open spec fn bind_body(
    system_id: Seq<char>,
    password: Seq<char>,
    system_type: Seq<char>,
    interface_version: u8,
    addr_ton: u8,
    addr_npi: u8,
    address_range: Seq<char>,
) -> Seq<u8> {
    c_octets(system_id) + c_octets(password) + c_octets(system_type) + seq![
        interface_version,
        addr_ton,
        addr_npi,
    ] + c_octets(address_range)
}

/// The octet that `rusmpp` writes for an ESM class that was left at its
/// default.
pub const DEFAULT_ESM_CLASS: u8 = 0x10;

/// Body of a submit request on the wire, with every field that the
/// request does not name at the default of `rusmpp`: an empty service
/// type, [`DEFAULT_ESM_CLASS`], zero for the protocol id, the priority,
/// the registered delivery, the replace flag, the data coding and the
/// default message id, no schedule and no validity period, and no
/// optional parameter behind the text.
pub open spec fn submit_sm_body(
    source_addr_ton: u8,
    source_addr_npi: u8,
    source_addr: Seq<char>,
    dest_addr_ton: u8,
    dest_addr_npi: u8,
    destination_addr: Seq<char>,
    short_message: Seq<char>,
) -> Seq<u8> {
    seq![0u8, source_addr_ton, source_addr_npi] + c_octets(source_addr) + seq![
        dest_addr_ton,
        dest_addr_npi,
    ] + c_octets(destination_addr) + seq![
        DEFAULT_ESM_CLASS,
        0u8,
        0u8,
        0u8,
        0u8,
        0u8,
        0u8,
        0u8,
        0u8,
        short_message.len() as u8,
    ] + octets(short_message)
}

/// What `rusmpp` reads from one whole frame: the command id, the command
/// status and the sequence number, or `None` where it rejects the frame.
pub uninterp spec fn decoded_frame(frame: Seq<u8>) -> Option<(u32, u32, u32)>;

/// Builds a `bind_transceiver` command with `rusmpp::pdu::Bind::builder` and
/// `rusmpp::Command::new`, and encodes it with `CommandCodec::encode`.
/// Trusted: the codec writes the length, the id of `bind_transceiver`, the
/// status and the sequence number, then the fields in the order of
/// [`bind_body`]. The fields must keep the limits of `rusmpp`'s `Bind`, so
/// that no conversion fails.
#[verifier::external_body]
fn encode_bind_transceiver(
    sequence_number: u32,
    command_status: u32,
    system_id: &str,
    password: &str,
    system_type: &str,
    interface_version: u8,
    addr_ton: u8,
    addr_npi: u8,
    address_range: &str,
) -> (frame: Vec<u8>)
    requires
        is_c_octet_string(system_id@, 16),
        is_c_octet_string(password@, 9),
        is_c_octet_string(system_type@, 13),
        is_c_octet_string(address_range@, 41),
    ensures
        frame@ == frame_of(
            BIND_TRANSCEIVER,
            command_status,
            sequence_number,
            bind_body(
                system_id@,
                password@,
                system_type@,
                interface_version,
                addr_ton,
                addr_npi,
                address_range@,
            ),
        ),
{
    let bind = rusmpp::pdu::Bind::builder()
        .system_id(COctetString::from_str(system_id).unwrap())
        .password(COctetString::from_str(password).unwrap())
        .system_type(COctetString::from_str(system_type).unwrap())
        .interface_version(interface_version.into())
        .addr_ton(addr_ton.into())
        .addr_npi(addr_npi.into())
        .address_range(COctetString::from_str(address_range).unwrap())
        .build();
    let pdu = bind.into_bind_transceiver();
    let command = rusmpp::Command::new(command_status.into(), sequence_number, pdu);
    let mut frame = BytesMut::new();
    CommandCodec.encode(&command, &mut frame).unwrap();
    frame.to_vec()
}

/// Builds a `submit_sm` command with `rusmpp::pdu::SubmitSm::builder` and
/// `rusmpp::Command::new`, and encodes it with `CommandCodec::encode`.
/// Trusted: the codec writes the length, the id of `submit_sm`, the status
/// and the sequence number, then the fields in the order of
/// [`submit_sm_body`], those that the builder was not given at their
/// defaults. The fields must keep the limits of `rusmpp`'s `SubmitSm`, so
/// that no conversion fails.
#[verifier::external_body]
fn encode_submit_sm(
    sequence_number: u32,
    command_status: u32,
    source_addr_ton: u8,
    source_addr_npi: u8,
    source_addr: &str,
    dest_addr_ton: u8,
    dest_addr_npi: u8,
    destination_addr: &str,
    short_message: &str,
) -> (frame: Vec<u8>)
    requires
        is_c_octet_string(source_addr@, 21),
        is_c_octet_string(destination_addr@, 21),
        is_c_octet_string(short_message@, 255),
    ensures
        frame@ == frame_of(
            SUBMIT_SM,
            command_status,
            sequence_number,
            submit_sm_body(
                source_addr_ton,
                source_addr_npi,
                source_addr@,
                dest_addr_ton,
                dest_addr_npi,
                destination_addr@,
                short_message@,
            ),
        ),
{
    let submit = rusmpp::pdu::SubmitSm::builder()
        .source_addr_ton(source_addr_ton.into())
        .source_addr_npi(source_addr_npi.into())
        .source_addr(COctetString::from_str(source_addr).unwrap())
        .dest_addr_ton(dest_addr_ton.into())
        .dest_addr_npi(dest_addr_npi.into())
        .destination_addr(COctetString::from_str(destination_addr).unwrap())
        .short_message(OctetString::from_str(short_message).unwrap())
        .build();
    let pdu = submit.into_submit_sm();
    let command = rusmpp::Command::new(command_status.into(), sequence_number, pdu);
    let mut frame = BytesMut::new();
    CommandCodec.encode(&command, &mut frame).unwrap();
    frame.to_vec()
}

/// Builds an `unbind` command with `rusmpp::Command::new` and encodes it
/// with `CommandCodec::encode`. Trusted: the codec writes four words and
/// no body: the length 16, the id of `unbind`, the status and the sequence
/// number.
#[verifier::external_body]
fn encode_unbind(sequence_number: u32, command_status: u32) -> (frame: Vec<u8>)
    ensures
        frame@ == frame_of(UNBIND, command_status, sequence_number, Seq::empty()),
{
    let pdu = rusmpp::Pdu::Unbind;
    let command = rusmpp::Command::new(command_status.into(), sequence_number, pdu);
    let mut frame = BytesMut::new();
    CommandCodec.encode(&command, &mut frame).unwrap();
    frame.to_vec()
}

/// Reads one frame with `CommandCodec::decode` and hands out the command
/// id, the command status and the sequence number of the command, or `None`
/// where the codec rejects the frame. Trusted: the result depends on the
/// bytes alone; the three numbers are the words behind the length, each of
/// four octets, so a frame that is read has at least sixteen; and a frame
/// of sixteen octets, which has no body, is always read. The bytes must be
/// one whole frame whose length field is at least four: on a smaller one
/// the codec's subtraction fails.
#[verifier::external_body]
fn decode_frame(frame: &[u8]) -> (header: Option<(u32, u32, u32)>)
    requires
        framing(frame@) == Framing::Complete(frame@.len() as usize),
    ensures
        header == decoded_frame(frame@),
        header matches Some((command_id, command_status, sequence_number)) ==> {
            &&& frame@.len() >= 16
            &&& command_id == be32(frame@.skip(4))
            &&& command_status == be32(frame@.skip(8))
            &&& sequence_number == be32(frame@.skip(12))
        },
        frame@.len() == 16 ==> header is Some,
{
    match CommandCodec.decode(&mut BytesMut::from(frame)) {
        Ok(Some(command)) => Some(
            (
                command.command_id().into(),
                command.command_status.into(),
                command.sequence_number,
            ),
        ),
        _ => None,
    }
}

/// The name under which `rusmpp` prints the command status with this
/// code.
pub uninterp spec fn status_name(code: u32) -> Seq<char>;

/// Converts the code with `rusmpp::CommandStatus::from` and prints the
/// status with its `Debug` impl. Trusted: the text depends on the code
/// alone.
#[verifier::external_body]
pub(crate) fn describe_status(code: u32) -> (name: String)
    ensures
        name@ == status_name(code),
{
    format!("{:?}", rusmpp::CommandStatus::from(code))
}

impl CommandView {
    /// The body of this command on the wire.
    pub open spec fn body_octets(self) -> Seq<u8> {
        match self.body {
            PduView::BindTransceiver(bind) => bind_body(
                bind.system_id,
                bind.password,
                bind.system_type,
                bind.interface_version,
                bind.addr_ton.spec_code(),
                bind.addr_npi.spec_code(),
                bind.address_range,
            ),
            PduView::SubmitSm(submit) => submit_sm_body(
                submit.source_addr_ton.spec_code(),
                submit.source_addr_npi.spec_code(),
                submit.source_addr,
                submit.dest_addr_ton.spec_code(),
                submit.dest_addr_npi.spec_code(),
                submit.destination_addr,
                submit.short_message,
            ),
            PduView::Unbind => Seq::empty(),
        }
    }

    /// The frame that carries this command.
    pub open spec fn frame(self) -> Seq<u8> {
        frame_of(
            self.body.command_id(),
            self.status.code,
            self.sequence_number,
            self.body_octets(),
        )
    }

    /// What encoding this command gives: its frame, or the first text
    /// field that breaks its rule.
    pub open spec fn encoding(self) -> Result<Seq<u8>, Field> {
        match self.body.first_invalid_field() {
            Some(field) => Err(field),
            None => Ok(self.frame()),
        }
    }
}

/// Encodes a command into its frame. Fails on the first text field that
/// is not ASCII, holds a NUL or is too long, and names it.
pub fn encode(command: &Command) -> (encoded: Result<Vec<u8>, Field>)
    ensures
        match encoded {
            Ok(frame) => command@.encoding() == Ok::<Seq<u8>, Field>(frame@),
            Err(field) => command@.encoding() == Err::<Seq<u8>, Field>(field),
        },
{
    match command.first_invalid_field() {
        Some(field) => Err(field),
        None => {
            let frame = match &command.body {
                Pdu::BindTransceiver(bind) => encode_bind_transceiver(
                    command.sequence_number,
                    command.status.code,
                    bind.system_id.as_str(),
                    bind.password.as_str(),
                    bind.system_type.as_str(),
                    bind.interface_version,
                    bind.addr_ton.code(),
                    bind.addr_npi.code(),
                    bind.address_range.as_str(),
                ),
                Pdu::SubmitSm(submit) => encode_submit_sm(
                    command.sequence_number,
                    command.status.code,
                    submit.source_addr_ton.code(),
                    submit.source_addr_npi.code(),
                    submit.source_addr.as_str(),
                    submit.dest_addr_ton.code(),
                    submit.dest_addr_npi.code(),
                    submit.destination_addr.as_str(),
                    submit.short_message.as_str(),
                ),
                Pdu::Unbind => encode_unbind(command.sequence_number, command.status.code),
            };
            Ok(frame)
        },
    }
}

/// The number that the first four octets of `bytes` hold, most
/// significant octet first.
pub open spec fn be32(bytes: Seq<u8>) -> nat
    recommends
        bytes.len() >= 4,
{
    (bytes[0] as nat) * 16777216 + (bytes[1] as nat) * 65536 + (bytes[2] as nat) * 256
        + bytes[3] as nat
}

/// Where the first frame of a byte stream ends.
#[derive(Clone, Copy, Debug, PartialEq, Eq, Structural)]
pub enum Framing {
    /// The bytes stop before the frame does.
    Incomplete,
    /// The length field is under four: it does not even count itself.
    Malformed,
    /// The frame takes this many bytes, its length field included.
    Complete(usize),
}

/// Where the first frame of `bytes` ends, by its length field.
pub open spec fn framing(bytes: Seq<u8>) -> Framing {
    if bytes.len() < 4 {
        Framing::Incomplete
    } else if be32(bytes) < 4 {
        Framing::Malformed
    } else if bytes.len() < be32(bytes) {
        Framing::Incomplete
    } else {
        Framing::Complete(be32(bytes) as usize)
    }
}

/// Finds the end of the first frame of `bytes`.
pub fn frame_end(bytes: &[u8]) -> (end: Framing)
    ensures
        end == framing(bytes@),
        end matches Framing::Complete(n) ==> 4 <= n <= bytes@.len() && n == be32(bytes@),
{
    if bytes.len() < 4 {
        return Framing::Incomplete;
    }
    let length: u32 = (bytes[0] as u32) * 16777216 + (bytes[1] as u32) * 65536 + (bytes[2] as u32)
        * 256 + (bytes[3] as u32);
    if length < 4 {
        Framing::Malformed
    } else if bytes.len() < length as usize {
        Framing::Incomplete
    } else {
        Framing::Complete(length as usize)
    }
}

/// Header of a frame that came in.
#[derive(Clone, Copy, Debug, PartialEq, Eq, Structural)]
pub struct Frame {
    pub command_id: u32,
    pub command_status: CommandStatus,
    pub sequence_number: u32,
}

/// The next item of a byte stream.
#[derive(Clone, Copy, Debug, PartialEq, Eq, Structural)]
pub enum StreamItem {
    /// The stream holds no whole frame yet.
    Incomplete,
    /// The stream is broken: a length field under four, or a frame that
    /// does not decode.
    Broken,
    /// A frame, and the number of bytes it took.
    Frame(Frame, usize),
}

/// The header of a frame of at least sixteen octets: the three words
/// behind the length.
pub open spec fn header_of(frame: Seq<u8>) -> Frame {
    Frame {
        command_id: be32(frame.skip(4)) as u32,
        command_status: CommandStatus { code: be32(frame.skip(8)) as u32 },
        sequence_number: be32(frame.skip(12)) as u32,
    }
}

/// Whether one whole frame is read: one of a header alone always, one
/// with a body where `rusmpp` takes the body for what the command id
/// says, one without a whole header never.
pub open spec fn is_read(frame: Seq<u8>) -> bool {
    frame.len() == 16 || (frame.len() > 16 && decoded_frame(frame) is Some)
}

/// The next item of the stream `bytes`.
pub open spec fn next_item(bytes: Seq<u8>) -> StreamItem {
    match framing(bytes) {
        Framing::Incomplete => StreamItem::Incomplete,
        Framing::Malformed => StreamItem::Broken,
        Framing::Complete(n) => if is_read(bytes.subrange(0, n as int)) {
            StreamItem::Frame(header_of(bytes.subrange(0, n as int)), n)
        } else {
            StreamItem::Broken
        },
    }
}

/// Takes the next item off the front of a byte stream: cuts the first
/// frame by its length field and decodes it.
pub fn decode(bytes: &[u8]) -> (item: StreamItem)
    ensures
        item == next_item(bytes@),
        item matches StreamItem::Frame(_, n) ==> 16 <= n <= bytes@.len(),
{
    match frame_end(bytes) {
        Framing::Incomplete => StreamItem::Incomplete,
        Framing::Malformed => StreamItem::Broken,
        Framing::Complete(n) => {
            let frame = slice_subrange(bytes, 0, n);
            assert(be32(frame@) == be32(bytes@));
            match decode_frame(frame) {
                Some((command_id, code, sequence_number)) => StreamItem::Frame(
                    Frame { command_id, command_status: CommandStatus { code }, sequence_number },
                    n,
                ),
                None => StreamItem::Broken,
            }
        },
    }
}

} // verus!
