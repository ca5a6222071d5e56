//! The requests a client sends, as plain data, and the rules by which the
//! session fills them in.

use vstd::prelude::*;
use crate::fields::{all_ascii_digits, fits_c_octet_string, is_c_octet_string, is_numeric};

verus! {

/// Command id of `bind_transceiver`.
pub const BIND_TRANSCEIVER: u32 = 0x0000_0009;

/// Command id of `bind_transceiver_resp`.
pub const BIND_TRANSCEIVER_RESP: u32 = 0x8000_0009;

/// Command id of `submit_sm`.
pub const SUBMIT_SM: u32 = 0x0000_0004;

/// Command id of `submit_sm_resp`.
pub const SUBMIT_SM_RESP: u32 = 0x8000_0004;

/// Command id of `unbind`.
pub const UNBIND: u32 = 0x0000_0006;

/// Command id of `unbind_resp`.
pub const UNBIND_RESP: u32 = 0x8000_0006;

/// Interface version octet of SMPP 3.4.
pub const SMPP_3_4: u8 = 0x34;

/// Sequence number of the bind request.
pub const BIND_SEQUENCE: u32 = 1;

/// Sequence number of the submit request.
pub const SUBMIT_SEQUENCE: u32 = 2;

/// Sequence number of the unbind request.
pub const UNBIND_SEQUENCE: u32 = 3;

/// Most octets that a system id may take, terminator included.
pub const SYSTEM_ID_OCTETS: usize = 16;

/// Most octets that a password may take, terminator included.
pub const PASSWORD_OCTETS: usize = 9;

/// Most octets that a system type may take, terminator included.
pub const SYSTEM_TYPE_OCTETS: usize = 13;

/// Most octets that an address range may take, terminator included.
pub const ADDRESS_RANGE_OCTETS: usize = 41;

/// Most octets that a sender or destination address may take, terminator
/// included.
pub const ADDRESS_OCTETS: usize = 21;

/// One more than the most octets of a short message, which is 254: the
/// text is held to the rule of the terminated fields, though it goes on
/// the wire behind its length and without a terminator.
pub const SHORT_MESSAGE_OCTETS: usize = 255;

/// Result code of a command. Zero is success; every other value is the
/// peer's reason for a failure.
#[derive(Clone, Copy, Debug, PartialEq, Eq, Structural)]
pub struct CommandStatus {
    pub code: u32,
}

impl CommandStatus {
    pub open spec fn spec_is_ok(self) -> bool {
        self.code == 0
    }

    /// The status of success.
    pub fn ok() -> (status: CommandStatus)
        ensures
            status.code == 0,
    {
        CommandStatus { code: 0 }
    }

    #[verifier::when_used_as_spec(spec_is_ok)]
    pub fn is_ok(self) -> (ok: bool)
        ensures
            ok == self.spec_is_ok(),
    {
        self.code == 0
    }
}

/// Type of number of an address.
#[derive(Clone, Copy, Debug, PartialEq, Eq, Structural)]
pub enum Ton {
    Unknown,
    International,
    Alphanumeric,
}

impl Ton {
    pub open spec fn spec_code(self) -> u8 {
        match self {
            Ton::Unknown => 0u8,
            Ton::International => 1u8,
            Ton::Alphanumeric => 5u8,
        }
    }

    /// The octet that stands for this type of number on the wire.
    #[verifier::when_used_as_spec(spec_code)]
    pub fn code(self) -> (octet: u8)
        ensures
            octet == self.spec_code(),
    {
        match self {
            Ton::Unknown => 0,
            Ton::International => 1,
            Ton::Alphanumeric => 5,
        }
    }
}

/// Numbering plan of an address.
#[derive(Clone, Copy, Debug, PartialEq, Eq, Structural)]
pub enum Npi {
    Unknown,
    Isdn,
}

impl Npi {
    pub open spec fn spec_code(self) -> u8 {
        match self {
            Npi::Unknown => 0u8,
            Npi::Isdn => 1u8,
        }
    }

    /// The octet that stands for this numbering plan on the wire.
    #[verifier::when_used_as_spec(spec_code)]
    pub fn code(self) -> (octet: u8)
        ensures
            octet == self.spec_code(),
    {
        match self {
            Npi::Unknown => 0,
            Npi::Isdn => 1,
        }
    }
}

/// The text fields of the requests.
#[derive(Clone, Copy, Debug, PartialEq, Eq, Structural)]
pub enum Field {
    SystemId,
    Password,
    SystemType,
    AddressRange,
    SourceAddr,
    DestinationAddr,
    ShortMessage,
}

impl Field {
    pub open spec fn spec_name(self) -> Seq<char> {
        match self {
            Field::SystemId => "system_id"@,
            Field::Password => "password"@,
            Field::SystemType => "system_type"@,
            Field::AddressRange => "address_range"@,
            Field::SourceAddr => "source_addr"@,
            Field::DestinationAddr => "destination_addr"@,
            Field::ShortMessage => "short_message"@,
        }
    }

    /// The name of the field in the protocol.
    pub fn name(self) -> (name: &'static str)
        ensures
            name@ == self.spec_name(),
    {
        match self {
            Field::SystemId => "system_id",
            Field::Password => "password",
            Field::SystemType => "system_type",
            Field::AddressRange => "address_range",
            Field::SourceAddr => "source_addr",
            Field::DestinationAddr => "destination_addr",
            Field::ShortMessage => "short_message",
        }
    }
}

/// Body of a bind request.
#[derive(Clone, Debug, PartialEq, Eq)]
pub struct Bind {
    pub system_id: String,
    pub password: String,
    pub system_type: String,
    pub interface_version: u8,
    pub addr_ton: Ton,
    pub addr_npi: Npi,
    pub address_range: String,
}

/// Body of a submit request.
#[derive(Clone, Debug, PartialEq, Eq)]
pub struct SubmitSm {
    pub source_addr_ton: Ton,
    pub source_addr_npi: Npi,
    pub source_addr: String,
    pub dest_addr_ton: Ton,
    pub dest_addr_npi: Npi,
    pub destination_addr: String,
    pub short_message: String,
}

/// Body of a request, by kind.
#[derive(Clone, Debug, PartialEq, Eq)]
pub enum Pdu {
    BindTransceiver(Bind),
    SubmitSm(SubmitSm),
    Unbind,
}

/// A request: its sequence number, its status and its body.
#[derive(Clone, Debug, PartialEq, Eq)]
pub struct Command {
    pub sequence_number: u32,
    pub status: CommandStatus,
    pub body: Pdu,
}

/// Mathematical value of a [`Bind`].
pub struct BindView {
    pub system_id: Seq<char>,
    pub password: Seq<char>,
    pub system_type: Seq<char>,
    pub interface_version: u8,
    pub addr_ton: Ton,
    pub addr_npi: Npi,
    pub address_range: Seq<char>,
}

/// Mathematical value of a [`SubmitSm`].
pub struct SubmitSmView {
    pub source_addr_ton: Ton,
    pub source_addr_npi: Npi,
    pub source_addr: Seq<char>,
    pub dest_addr_ton: Ton,
    pub dest_addr_npi: Npi,
    pub destination_addr: Seq<char>,
    pub short_message: Seq<char>,
}

/// Mathematical value of a [`Pdu`].
pub enum PduView {
    BindTransceiver(BindView),
    SubmitSm(SubmitSmView),
    Unbind,
}

/// Mathematical value of a [`Command`].
pub struct CommandView {
    pub sequence_number: u32,
    pub status: CommandStatus,
    pub body: PduView,
}

impl View for Bind {
    type V = BindView;

    open spec fn view(&self) -> BindView {
        BindView {
            system_id: self.system_id@,
            password: self.password@,
            system_type: self.system_type@,
            interface_version: self.interface_version,
            addr_ton: self.addr_ton,
            addr_npi: self.addr_npi,
            address_range: self.address_range@,
        }
    }
}

impl View for SubmitSm {
    type V = SubmitSmView;

    open spec fn view(&self) -> SubmitSmView {
        SubmitSmView {
            source_addr_ton: self.source_addr_ton,
            source_addr_npi: self.source_addr_npi,
            source_addr: self.source_addr@,
            dest_addr_ton: self.dest_addr_ton,
            dest_addr_npi: self.dest_addr_npi,
            destination_addr: self.destination_addr@,
            short_message: self.short_message@,
        }
    }
}

impl View for Pdu {
    type V = PduView;

    open spec fn view(&self) -> PduView {
        match self {
            Pdu::BindTransceiver(bind) => PduView::BindTransceiver(bind@),
            Pdu::SubmitSm(submit) => PduView::SubmitSm(submit@),
            Pdu::Unbind => PduView::Unbind,
        }
    }
}

impl View for Command {
    type V = CommandView;

    open spec fn view(&self) -> CommandView {
        CommandView {
            sequence_number: self.sequence_number,
            status: self.status,
            body: self.body@,
        }
    }
}

impl PduView {
    /// The command id that goes with this kind of body.
    pub open spec fn command_id(self) -> u32 {
        match self {
            PduView::BindTransceiver(_) => BIND_TRANSCEIVER,
            PduView::SubmitSm(_) => SUBMIT_SM,
            PduView::Unbind => UNBIND,
        }
    }

    /// The first text field, in the order of the wire, that breaks its
    /// rule; `None` where every field keeps it.
    pub open spec fn first_invalid_field(self) -> Option<Field> {
        match self {
            PduView::BindTransceiver(bind) => {
                if !is_c_octet_string(bind.system_id, SYSTEM_ID_OCTETS as nat) {
                    Some(Field::SystemId)
                } else if !is_c_octet_string(bind.password, PASSWORD_OCTETS as nat) {
                    Some(Field::Password)
                } else if !is_c_octet_string(bind.system_type, SYSTEM_TYPE_OCTETS as nat) {
                    Some(Field::SystemType)
                } else if !is_c_octet_string(bind.address_range, ADDRESS_RANGE_OCTETS as nat) {
                    Some(Field::AddressRange)
                } else {
                    None
                }
            },
            PduView::SubmitSm(submit) => {
                if !is_c_octet_string(submit.source_addr, ADDRESS_OCTETS as nat) {
                    Some(Field::SourceAddr)
                } else if !is_c_octet_string(submit.destination_addr, ADDRESS_OCTETS as nat) {
                    Some(Field::DestinationAddr)
                } else if !is_c_octet_string(submit.short_message, SHORT_MESSAGE_OCTETS as nat) {
                    Some(Field::ShortMessage)
                } else {
                    None
                }
            },
            PduView::Unbind => None,
        }
    }
}

/// The type of number that a sender address gets: unknown for a number,
/// alphanumeric for anything else.
pub open spec fn source_ton(source_addr: Seq<char>) -> Ton {
    if all_ascii_digits(source_addr) {
        Ton::Unknown
    } else {
        Ton::Alphanumeric
    }
}

/// The bind request of a session, as a value.
pub open spec fn bind_command(system_id: Seq<char>, password: Seq<char>) -> CommandView {
    CommandView {
        sequence_number: BIND_SEQUENCE,
        status: CommandStatus { code: 0 },
        body: PduView::BindTransceiver(
            BindView {
                system_id,
                password,
                system_type: Seq::empty(),
                interface_version: SMPP_3_4,
                addr_ton: Ton::Unknown,
                addr_npi: Npi::Unknown,
                address_range: Seq::empty(),
            },
        ),
    }
}

/// The submit request of a session, as a value.
pub open spec fn submit_command(
    destination: Seq<char>,
    text: Seq<char>,
    source_addr: Seq<char>,
) -> CommandView {
    CommandView {
        sequence_number: SUBMIT_SEQUENCE,
        status: CommandStatus { code: 0 },
        body: PduView::SubmitSm(
            SubmitSmView {
                source_addr_ton: source_ton(source_addr),
                source_addr_npi: Npi::Unknown,
                source_addr,
                dest_addr_ton: Ton::International,
                dest_addr_npi: Npi::Isdn,
                destination_addr: destination,
                short_message: text,
            },
        ),
    }
}

/// The unbind request of a session, as a value.
pub open spec fn unbind_command() -> CommandView {
    CommandView {
        sequence_number: UNBIND_SEQUENCE,
        status: CommandStatus { code: 0 },
        body: PduView::Unbind,
    }
}

impl Command {
    /// The request that opens a transceiver session for `system_id`.
    pub fn bind_transceiver(system_id: &str, password: &str) -> (command: Command)
        ensures
            command@ == bind_command(system_id@, password@),
    {
        Command {
            sequence_number: BIND_SEQUENCE,
            status: CommandStatus::ok(),
            body: Pdu::BindTransceiver(
                Bind {
                    system_id: system_id.to_owned(),
                    password: password.to_owned(),
                    system_type: String::new(),
                    interface_version: SMPP_3_4,
                    addr_ton: Ton::Unknown,
                    addr_npi: Npi::Unknown,
                    address_range: String::new(),
                },
            ),
        }
    }

    /// The request that submits `text` to `destination` in the name of
    /// `source_addr`.
    pub fn submit_sm(destination: &str, text: &str, source_addr: &str) -> (command: Command)
        ensures
            command@ == submit_command(destination@, text@, source_addr@),
    {
        let ton = if is_numeric(source_addr) {
            Ton::Unknown
        } else {
            Ton::Alphanumeric
        };
        Command {
            sequence_number: SUBMIT_SEQUENCE,
            status: CommandStatus::ok(),
            body: Pdu::SubmitSm(
                SubmitSm {
                    source_addr_ton: ton,
                    source_addr_npi: Npi::Unknown,
                    source_addr: source_addr.to_owned(),
                    dest_addr_ton: Ton::International,
                    dest_addr_npi: Npi::Isdn,
                    destination_addr: destination.to_owned(),
                    short_message: text.to_owned(),
                },
            ),
        }
    }

    /// The request that ends a session.
    pub fn unbind() -> (command: Command)
        ensures
            command@ == unbind_command(),
    {
        Command { sequence_number: UNBIND_SEQUENCE, status: CommandStatus::ok(), body: Pdu::Unbind }
    }

    /// The first text field of the body that breaks its rule, if any.
    pub fn first_invalid_field(&self) -> (field: Option<Field>)
        ensures
            field == self@.body.first_invalid_field(),
    {
        match &self.body {
            Pdu::BindTransceiver(bind) => {
                if !fits_c_octet_string(bind.system_id.as_str(), SYSTEM_ID_OCTETS) {
                    Some(Field::SystemId)
                } else if !fits_c_octet_string(bind.password.as_str(), PASSWORD_OCTETS) {
                    Some(Field::Password)
                } else if !fits_c_octet_string(bind.system_type.as_str(), SYSTEM_TYPE_OCTETS) {
                    Some(Field::SystemType)
                } else if !fits_c_octet_string(bind.address_range.as_str(), ADDRESS_RANGE_OCTETS) {
                    Some(Field::AddressRange)
                } else {
                    None
                }
            },
            Pdu::SubmitSm(submit) => {
                if !fits_c_octet_string(submit.source_addr.as_str(), ADDRESS_OCTETS) {
                    Some(Field::SourceAddr)
                } else if !fits_c_octet_string(submit.destination_addr.as_str(), ADDRESS_OCTETS) {
                    Some(Field::DestinationAddr)
                } else if !fits_c_octet_string(submit.short_message.as_str(), SHORT_MESSAGE_OCTETS) {
                    Some(Field::ShortMessage)
                } else {
                    None
                }
            },
            Pdu::Unbind => None,
        }
    }
}

} // verus!
