//! What holds of every session, proved from the definitions of
//! [`Session`]'s transitions.

use vstd::prelude::*;
use crate::codec::{
    be32, be32_octets, frame_of, framing, header_of, next_item, Frame, Framing, StreamItem,
};
use crate::command::{
    submit_command, CommandView, Field, PduView, Ton, ADDRESS_OCTETS, BIND_TRANSCEIVER_RESP,
    PASSWORD_OCTETS, SHORT_MESSAGE_OCTETS, SYSTEM_ID_OCTETS, UNBIND,
};
use crate::fields::{all_ascii_digits, is_c_octet_string};
use crate::smppclient::{verdict, Awaiting, Fault, Progress, Session, SmppClientError};

verus! {

/// What can happen to a session: an operation is started, something comes
/// in, or the stream or the caller's patience fails.
pub enum Event {
    Bind { system_id: Seq<char>, password: Seq<char> },
    Submit { destination: Seq<char>, text: Seq<char>, source_addr: Seq<char> },
    Unbind,
    Frame(Frame),
    Bytes(Seq<u8>),
    Fault(Fault),
}

impl Session {
    /// The session after `event`.
    pub open spec fn after(self, event: Event) -> Session {
        match event {
            Event::Bind { system_id, password } => self.after_bind(system_id, password),
            Event::Submit { destination, text, source_addr } => self.after_submit(
                destination,
                text,
                source_addr,
            ),
            Event::Unbind => self.after_unbind(),
            Event::Frame(frame) => self.after_frame(frame),
            Event::Bytes(bytes) => self.fed(bytes).drain().0,
            Event::Fault(fault) => self.after_fault(fault),
        }
    }

    /// The session after `events`, in order.
    pub open spec fn after_all(self, events: Seq<Event>) -> Session
        decreases events.len(),
    {
        if events.len() == 0 {
            self
        } else {
            self.after_all(events.drop_last()).after(events.last())
        }
    }

    /// Whether what the session waits for agrees with its binding: the
    /// answer to a bind or to an unbind is awaited unbound, the answer to
    /// a submit bound.
    pub open spec fn consistent(self) -> bool {
        match self.awaiting {
            Awaiting::Nothing => true,
            Awaiting::BindTransceiverResp => !self.connected,
            Awaiting::SubmitSmResp => self.connected,
            Awaiting::UnbindResp => !self.connected,
        }
    }

    /// Whether `event` brings the response that accepts the bind that this
    /// session has in flight.
    pub open spec fn accepts_bind(self, event: Event) -> bool {
        self.awaiting is BindTransceiverResp && match event {
            Event::Frame(frame) => verdict(self.awaiting, frame) == Some(
                Ok::<(), SmppClientError>(()),
            ),
            Event::Bytes(bytes) => self.fed(bytes).drain().1 == Progress::Done(Ok(())),
            _ => false,
        }
    }
}

/// Reading the inbox binds a session only by settling a bind with
/// success, never unbinds it, and leaves it waiting for nothing exactly
/// when the operation is over.
pub proof fn lemma_drain_settles(session: Session)
    ensures
        session.drain().0.connected == (session.connected || (session.awaiting
            is BindTransceiverResp && session.drain().1 == Progress::Done(Ok(())))),
        session.drain().1 is Done ==> session.drain().0.awaiting is Nothing,
        session.drain().1 is Pending ==> session.drain().0.awaiting == session.awaiting,
    decreases session.inbox.len(),
{
    if !(session.awaiting is Nothing) {
        match next_item(session.inbox) {
            StreamItem::Frame(frame, n) => {
                if verdict(session.awaiting, frame) is None {
                    lemma_drain_settles(Session { inbox: session.inbox.skip(n as int), ..session });
                }
            },
            _ => {},
        }
    }
}

/// A session becomes bound only where the response that accepts its bind
/// comes in, and becomes unbound only where an unbind is issued.
pub proof fn lemma_binding_changes(session: Session, event: Event)
    ensures
        !session.connected && session.after(event).connected ==> session.accepts_bind(event),
        session.connected && !session.after(event).connected ==> event is Unbind,
        event is Unbind ==> !session.after(event).connected,
{
    if let Event::Bytes(bytes) = event {
        lemma_drain_settles(session.fed(bytes));
    }
}

/// Nothing that happens to a consistent session makes it inconsistent.
pub proof fn lemma_consistency_is_kept(session: Session, event: Event)
    requires
        session.consistent(),
    ensures
        session.after(event).consistent(),
{
    if let Event::Bytes(bytes) = event {
        lemma_drain_settles(session.fed(bytes));
    }
}

/// Every session that started unbound is consistent, whatever happened
/// to it.
pub proof fn lemma_sessions_are_consistent(events: Seq<Event>)
    ensures
        Session::initial().after_all(events).consistent(),
    decreases events.len(),
{
    if events.len() > 0 {
        lemma_sessions_are_consistent(events.drop_last());
        lemma_consistency_is_kept(Session::initial().after_all(events.drop_last()), events.last());
    }
}

/// Until a bind is accepted the session stays unbound, whatever else
/// happens, and a submit fails with `NotConnected` and sends nothing.
pub proof fn lemma_unbound_until_bind_accepted(
    session: Session,
    events: Seq<Event>,
    destination: Seq<char>,
    text: Seq<char>,
    source_addr: Seq<char>,
)
    requires
        !session.connected,
        forall|i: int|
            0 <= i < events.len() ==> !(#[trigger] session.after_all(events.take(i))).accepts_bind(
                events[i],
            ),
    ensures
        !session.after_all(events).connected,
        session.after_all(events).submit_result(destination, text, source_addr) == Err::<
            Seq<u8>,
            SmppClientError,
        >(SmppClientError::NotConnected),
        session.after_all(events).after_submit(destination, text, source_addr)
            == session.after_all(events),
    decreases events.len(),
{
    if events.len() > 0 {
        let earlier = events.drop_last();
        assert forall|i: int| 0 <= i < earlier.len() implies !(#[trigger] session.after_all(
            earlier.take(i),
        )).accepts_bind(earlier[i]) by {
            assert(earlier.take(i) =~= events.take(i));
        }
        lemma_unbound_until_bind_accepted(session, earlier, destination, text, source_addr);
        let last = events.len() - 1;
        assert(events.take(last) =~= earlier);
        assert(!session.after_all(events.take(last)).accepts_bind(events[last]));
        lemma_binding_changes(session.after_all(earlier), events.last());
    }
}

/// A bind with credentials that fit their fields, answered by a bind
/// response of status zero, binds the session and succeeds; after that no
/// frame settles anything, and a second bind is refused.
pub proof fn lemma_bind_accepted(
    session: Session,
    system_id: Seq<char>,
    password: Seq<char>,
    response: Frame,
)
    requires
        !session.connected,
        is_c_octet_string(system_id, SYSTEM_ID_OCTETS as nat),
        is_c_octet_string(password, PASSWORD_OCTETS as nat),
        response.command_id == BIND_TRANSCEIVER_RESP,
        response.command_status.code == 0,
    ensures
        session.bind_result(system_id, password) is Ok,
        verdict(session.after_bind(system_id, password).awaiting, response) == Some(
            Ok::<(), SmppClientError>(()),
        ),
        session.after_bind(system_id, password).after_frame(response).connected,
        forall|later: Frame|
            (#[trigger] verdict(
                session.after_bind(system_id, password).after_frame(response).awaiting,
                later,
            )) is None,
        session.after_bind(system_id, password).after_frame(response).bind_result(
            system_id,
            password,
        ) == Err::<Seq<u8>, SmppClientError>(SmppClientError::AlreadyConnected),
{
}

/// A bind answered by a bind response of another status than zero fails
/// with `BindFailed` and that status, and the session stays unbound.
pub proof fn lemma_bind_refused(
    session: Session,
    system_id: Seq<char>,
    password: Seq<char>,
    response: Frame,
)
    requires
        !session.connected,
        session.bind_result(system_id, password) is Ok,
        response.command_id == BIND_TRANSCEIVER_RESP,
        response.command_status.code != 0,
    ensures
        verdict(session.after_bind(system_id, password).awaiting, response) == Some(
            Err::<(), SmppClientError>(SmppClientError::BindFailed(response.command_status)),
        ),
        !session.after_bind(system_id, password).after_frame(response).connected,
{
}

/// A frame of another kind than the awaited one, at the front of what
/// came in, is dropped: the outcome is that of the frames behind it.
pub proof fn lemma_other_frames_are_dropped(session: Session)
    requires
        !(session.awaiting is Nothing),
        next_item(session.inbox) matches StreamItem::Frame(frame, _) && verdict(
            session.awaiting,
            frame,
        ) is None,
    ensures
        next_item(session.inbox) matches StreamItem::Frame(_, n) && session.drain() == (Session {
            inbox: session.inbox.skip(n as int),
            ..session
        }).drain(),
{
}

/// A frame of another kind than the awaited one leaves the session as it
/// was, so the response that follows it settles the operation as if it
/// had come alone.
pub proof fn lemma_response_after_other_frame(session: Session, other: Frame, response: Frame)
    requires
        verdict(session.awaiting, other) is None,
    ensures
        session.after_frame(other) == session,
        verdict(session.after_frame(other).awaiting, response) == verdict(
            session.awaiting,
            response,
        ),
        session.after_frame(other).after_frame(response) == session.after_frame(response),
{
}

/// The sequence number of a frame has no part in what the frame settles.
pub proof fn lemma_sequence_number_is_ignored(awaiting: Awaiting, frame: Frame, other: u32)
    ensures
        verdict(awaiting, frame) == verdict(awaiting, Frame { sequence_number: other, ..frame }),
{
}

/// Four octets that were written for a word are read back as that word.
pub proof fn lemma_be32_round_trip(word: u32)
    ensures
        be32_octets(word).len() == 4,
        be32(be32_octets(word)) == word,
{
}

/// A request whose fields fit goes on the wire as one whole frame: its
/// length field counts every octet of it, and the words behind it are the
/// id of its kind, its status and its sequence number. Read back, it is
/// never a frame in part; where it is read, it is read whole and as what
/// was sent.
pub proof fn lemma_request_is_one_frame(command: CommandView)
    requires
        command.body.first_invalid_field() is None,
    ensures
        command.encoding() == Ok::<Seq<u8>, Field>(command.frame()),
        command.frame().len() == 16 + command.body_octets().len(),
        be32(command.frame()) == command.frame().len(),
        framing(command.frame()) == Framing::Complete(command.frame().len() as usize),
        header_of(command.frame()) == (Frame {
            command_id: command.body.command_id(),
            command_status: command.status,
            sequence_number: command.sequence_number,
        }),
        next_item(command.frame()) == StreamItem::Broken || next_item(command.frame())
            == StreamItem::Frame(header_of(command.frame()), command.frame().len() as usize),
{
    lemma_body_is_short(command);
    lemma_frame_words(
        command.body.command_id(),
        command.status.code,
        command.sequence_number,
        command.body_octets(),
    );
    assert(command.frame().subrange(0, command.frame().len() as int) =~= command.frame());
}

proof fn lemma_body_is_short(command: CommandView)
    requires
        command.body.first_invalid_field() is None,
    ensures
        command.body_octets().len() <= 400,
{
    let body = command.body_octets();
    match command.body {
        PduView::BindTransceiver(bind) => {
            assert(body.len() == bind.system_id.len() + bind.password.len()
                + bind.system_type.len() + bind.address_range.len() + 7);
        },
        PduView::SubmitSm(submit) => {
            assert(body.len() == submit.source_addr.len() + submit.destination_addr.len()
                + submit.short_message.len() + 17);
        },
        PduView::Unbind => {},
    }
}

proof fn lemma_frame_words(command_id: u32, command_status: u32, sequence_number: u32, body: Seq<u8>)
    requires
        body.len() <= 400,
    ensures
        frame_of(command_id, command_status, sequence_number, body).len() == 16 + body.len(),
        be32(frame_of(command_id, command_status, sequence_number, body)) == 16 + body.len(),
        be32(frame_of(command_id, command_status, sequence_number, body).skip(4)) == command_id,
        be32(frame_of(command_id, command_status, sequence_number, body).skip(8))
            == command_status,
        be32(frame_of(command_id, command_status, sequence_number, body).skip(12))
            == sequence_number,
        forall|i: int|
            0 <= i < body.len() ==> #[trigger] frame_of(
                command_id,
                command_status,
                sequence_number,
                body,
            )[16 + i] == body[i],
{
    let length = (16 + body.len()) as u32;
    let frame = frame_of(command_id, command_status, sequence_number, body);
    lemma_be32_round_trip(length);
    lemma_be32_round_trip(command_id);
    lemma_be32_round_trip(command_status);
    lemma_be32_round_trip(sequence_number);
    let head = be32_octets(length) + be32_octets(command_id) + be32_octets(command_status)
        + be32_octets(sequence_number);
    assert(head.len() == 16);
    assert(frame == head + body);
    assert forall|i: int| 0 <= i < 4 implies #[trigger] frame[i] == be32_octets(length)[i]
        && frame[4 + i] == be32_octets(command_id)[i] && frame[8 + i] == be32_octets(
        command_status,
    )[i] && frame[12 + i] == be32_octets(sequence_number)[i] by {}
    assert(frame[0] == be32_octets(length)[0]);
    assert(frame[1] == be32_octets(length)[1]);
    assert(frame[2] == be32_octets(length)[2]);
    assert(frame[3] == be32_octets(length)[3]);
    assert(frame.skip(4) =~= be32_octets(command_id) + (be32_octets(command_status)
        + be32_octets(sequence_number) + body));
    assert(frame.skip(8) =~= be32_octets(command_status) + (be32_octets(sequence_number) + body));
    assert(frame.skip(12) =~= be32_octets(sequence_number) + body);
    lemma_be32_reads_the_front(frame, be32_octets(length));
    lemma_be32_reads_the_front(frame.skip(4), be32_octets(command_id));
    lemma_be32_reads_the_front(frame.skip(8), be32_octets(command_status));
    lemma_be32_reads_the_front(frame.skip(12), be32_octets(sequence_number));
}

proof fn lemma_be32_reads_the_front(bytes: Seq<u8>, front: Seq<u8>)
    requires
        front.len() == 4,
        bytes.len() >= 4,
        forall|i: int| 0 <= i < 4 ==> bytes[i] == front[i],
    ensures
        be32(bytes) == be32(front),
{
}

/// An unbind read back is the unbind that was sent: encoding and decoding
/// give back its kind, its status and its sequence number, and leave no
/// octet over.
pub proof fn lemma_unbind_round_trip(command: CommandView)
    requires
        command.body is Unbind,
    ensures
        command.frame().len() == 16,
        next_item(command.frame()) == StreamItem::Frame(
            Frame {
                command_id: UNBIND,
                command_status: command.status,
                sequence_number: command.sequence_number,
            },
            16,
        ),
{
    lemma_request_is_one_frame(command);
    assert(command.frame().subrange(0, 16) =~= command.frame());
}

/// The submit request goes on the wire with the type of number 0
/// (unknown) for a sender made of ASCII digits alone, and 5 (alphanumeric)
/// for any other sender: it is the second octet behind the header.
pub proof fn lemma_sender_type_of_number(
    destination: Seq<char>,
    text: Seq<char>,
    source_addr: Seq<char>,
)
    requires
        is_c_octet_string(destination, ADDRESS_OCTETS as nat),
        is_c_octet_string(text, SHORT_MESSAGE_OCTETS as nat),
        is_c_octet_string(source_addr, ADDRESS_OCTETS as nat),
    ensures
        submit_command(destination, text, source_addr).encoding() == Ok::<Seq<u8>, Field>(
            submit_command(destination, text, source_addr).frame(),
        ),
        submit_command(destination, text, source_addr).body matches PduView::SubmitSm(submit)
            && submit.source_addr_ton == if all_ascii_digits(source_addr) {
            Ton::Unknown
        } else {
            Ton::Alphanumeric
        },
        submit_command(destination, text, source_addr).frame()[17] == if all_ascii_digits(
            source_addr,
        ) {
            0u8
        } else {
            5u8
        },
{
    let command = submit_command(destination, text, source_addr);
    lemma_body_is_short(command);
    lemma_frame_words(
        command.body.command_id(),
        command.status.code,
        command.sequence_number,
        command.body_octets(),
    );
    assert(command.frame()[16 + 1int] == command.body_octets()[1]);
}

} // verus!
