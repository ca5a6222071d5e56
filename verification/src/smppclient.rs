//! The session: one request in flight at a time, each answered by the
//! first frame of its kind that comes back.
//!
//! The connection does no I/O. Each operation hands out the frame to send;
//! the caller sends it and passes on what the peer sends back, until the
//! connection reports the operation done.

use vstd::prelude::*;
use vstd::slice::slice_subrange;
use vstd::string::StringExecFns;
use crate::codec::{decode, describe_status, encode, next_item, status_name, Frame, StreamItem};
use crate::command::{
    bind_command, submit_command, unbind_command, Command, CommandStatus, Field,
    BIND_TRANSCEIVER_RESP, SUBMIT_SM_RESP, UNBIND_RESP,
};

verus! {

/// Why an operation of the session failed.
#[derive(Clone, Copy, Debug, PartialEq, Eq, Structural)]
pub enum SmppClientError {
    /// A submit on a session that is not bound.
    NotConnected,
    /// A bind on a session that is bound already.
    AlreadyConnected,
    /// The peer refused the message, with this status.
    SubmitFailed(CommandStatus),
    /// The peer refused the bind, with this status.
    BindFailed(CommandStatus),
    /// The unbind was not acknowledged with success.
    UnbindFailed,
    /// The stream ended or broke before the response came.
    TransportError,
    /// A text field of the request does not fit the wire.
    EncodingError(Field),
    /// No response came in time.
    Timeout,
}

impl SmppClientError {
    /// The text that tells a user of this error. A refusal of the peer
    /// ends in the name of its status.
    pub open spec fn text(self) -> Seq<char> {
        match self {
            SmppClientError::NotConnected => "Not connected"@,
            SmppClientError::AlreadyConnected => "Already connected"@,
            SmppClientError::SubmitFailed(status) => "Submit failed: "@ + status_name(status.code),
            SmppClientError::BindFailed(status) => "Binding to server failed: "@ + status_name(
                status.code,
            ),
            SmppClientError::UnbindFailed => "Unbind failed, but nobody cares."@,
            SmppClientError::TransportError => "Connection lost before the response"@,
            SmppClientError::EncodingError(field) => "Field does not fit the protocol: "@
                + field.spec_name(),
            SmppClientError::Timeout => "No response in time"@,
        }
    }

    /// The error by its name, a refusal of the peer with the name of its
    /// status in brackets, a field that does not fit with its name.
    pub open spec fn spec_name(self) -> Seq<char> {
        match self {
            SmppClientError::NotConnected => "NotConnected"@,
            SmppClientError::AlreadyConnected => "AlreadyConnected"@,
            SmppClientError::SubmitFailed(status) => "SubmitFailed("@ + status_name(status.code)
                + ")"@,
            SmppClientError::BindFailed(status) => "BindFailed("@ + status_name(status.code)
                + ")"@,
            SmppClientError::UnbindFailed => "UnbindFailed"@,
            SmppClientError::TransportError => "TransportError"@,
            SmppClientError::EncodingError(field) => "EncodingError("@ + field.spec_name() + ")"@,
            SmppClientError::Timeout => "Timeout"@,
        }
    }

    /// Writes the error out by its name.
    pub fn name(&self) -> (name: String)
        ensures
            name@ == self.spec_name(),
    {
        match self {
            SmppClientError::NotConnected => String::from_str("NotConnected"),
            SmppClientError::AlreadyConnected => String::from_str("AlreadyConnected"),
            SmppClientError::SubmitFailed(status) => {
                let status = describe_status(status.code);
                String::from_str("SubmitFailed(").concat(status.as_str()).concat(")")
            },
            SmppClientError::BindFailed(status) => {
                let status = describe_status(status.code);
                String::from_str("BindFailed(").concat(status.as_str()).concat(")")
            },
            SmppClientError::UnbindFailed => String::from_str("UnbindFailed"),
            SmppClientError::TransportError => String::from_str("TransportError"),
            SmppClientError::EncodingError(field) => String::from_str("EncodingError(").concat(
                field.name(),
            ).concat(")"),
            SmppClientError::Timeout => String::from_str("Timeout"),
        }
    }

    /// Writes the error out for a user.
    pub fn to_string(&self) -> (text: String)
        ensures
            text@ == self.text(),
    {
        match self {
            SmppClientError::NotConnected => String::from_str("Not connected"),
            SmppClientError::AlreadyConnected => String::from_str("Already connected"),
            SmppClientError::SubmitFailed(status) => {
                let name = describe_status(status.code);
                String::from_str("Submit failed: ").concat(name.as_str())
            },
            SmppClientError::BindFailed(status) => {
                let name = describe_status(status.code);
                String::from_str("Binding to server failed: ").concat(name.as_str())
            },
            SmppClientError::UnbindFailed => String::from_str("Unbind failed, but nobody cares."),
            SmppClientError::TransportError => String::from_str(
                "Connection lost before the response",
            ),
            SmppClientError::EncodingError(field) => String::from_str(
                "Field does not fit the protocol: ",
            ).concat(field.name()),
            SmppClientError::Timeout => String::from_str("No response in time"),
        }
    }
}

/// The response that the session waits for.
#[derive(Clone, Copy, Debug, PartialEq, Eq, Structural)]
pub enum Awaiting {
    Nothing,
    BindTransceiverResp,
    SubmitSmResp,
    UnbindResp,
}

/// How far the operation in flight has come.
#[derive(Clone, Copy, Debug, PartialEq, Eq)]
pub enum Progress {
    /// The response has not come yet.
    Pending,
    /// The operation is over, with this outcome.
    Done(Result<(), SmppClientError>),
}

/// What goes wrong with a waiting session from outside.
#[derive(Clone, Copy, Debug, PartialEq, Eq, Structural)]
pub enum Fault {
    /// The stream ended or failed.
    Transport,
    /// The caller gave up waiting.
    Timeout,
}

/// A session with an SMSC over one byte stream.
pub struct SmppConnection {
    connected: bool,
    awaiting: Awaiting,
    inbox: Vec<u8>,
}

/// Mathematical value of a [`SmppConnection`].
pub struct Session {
    /// Whether the session is bound.
    pub connected: bool,
    /// The response that the request in flight waits for.
    pub awaiting: Awaiting,
    /// Bytes that came in and belong to no frame that was looked at yet.
    pub inbox: Seq<u8>,
}

impl View for SmppConnection {
    type V = Session;

    closed spec fn view(&self) -> Session {
        Session { connected: self.connected, awaiting: self.awaiting, inbox: self.inbox@ }
    }
}

impl Awaiting {
    /// The command id of the awaited response.
    pub open spec fn command_id(self) -> Option<u32> {
        match self {
            Awaiting::Nothing => None,
            Awaiting::BindTransceiverResp => Some(BIND_TRANSCEIVER_RESP),
            Awaiting::SubmitSmResp => Some(SUBMIT_SM_RESP),
            Awaiting::UnbindResp => Some(UNBIND_RESP),
        }
    }

    /// The error of the awaited response when its status is `status`,
    /// which is not success.
    pub open spec fn refusal(self, status: CommandStatus) -> SmppClientError {
        match self {
            Awaiting::BindTransceiverResp => SmppClientError::BindFailed(status),
            Awaiting::SubmitSmResp => SmppClientError::SubmitFailed(status),
            _ => SmppClientError::UnbindFailed,
        }
    }

    /// The error of the operation in flight when `fault` strikes. A wait
    /// that was given up is a `Timeout` whatever was awaited. A stream
    /// that failed is a `TransportError`, but under an unbind, which then
    /// fails as if the peer had refused it.
    pub open spec fn failure(self, fault: Fault) -> SmppClientError {
        match fault {
            Fault::Timeout => SmppClientError::Timeout,
            Fault::Transport => match self {
                Awaiting::UnbindResp => SmppClientError::UnbindFailed,
                _ => SmppClientError::TransportError,
            },
        }
    }
}

/// What a frame settles for a session that waits for `awaiting`: nothing
/// unless the frame is of the awaited kind, whatever its sequence number;
/// else success or the refusal, by its status.
pub open spec fn verdict(awaiting: Awaiting, frame: Frame) -> Option<Result<(), SmppClientError>> {
    if awaiting.command_id() == Some(frame.command_id) {
        if frame.command_status.code == 0 {
            Some(Ok(()))
        } else {
            Some(Err(awaiting.refusal(frame.command_status)))
        }
    } else {
        None
    }
}

impl Session {
    /// A session as it starts: unbound, waiting for nothing.
    pub open spec fn initial() -> Session {
        Session { connected: false, awaiting: Awaiting::Nothing, inbox: Seq::empty() }
    }

    /// What a bind hands out: the frame to send, or why it sends none.
    pub open spec fn bind_result(self, system_id: Seq<char>, password: Seq<char>) -> Result<
        Seq<u8>,
        SmppClientError,
    > {
        if self.connected {
            Err(SmppClientError::AlreadyConnected)
        } else {
            match bind_command(system_id, password).encoding() {
                Ok(frame) => Ok(frame),
                Err(field) => Err(SmppClientError::EncodingError(field)),
            }
        }
    }

    /// The session after a bind was asked for.
    pub open spec fn after_bind(self, system_id: Seq<char>, password: Seq<char>) -> Session {
        if self.bind_result(system_id, password) is Ok {
            Session { awaiting: Awaiting::BindTransceiverResp, ..self }
        } else {
            self
        }
    }

    /// What a submit hands out: the frame to send, or why it sends none.
    pub open spec fn submit_result(
        self,
        destination: Seq<char>,
        text: Seq<char>,
        source_addr: Seq<char>,
    ) -> Result<Seq<u8>, SmppClientError> {
        if !self.connected {
            Err(SmppClientError::NotConnected)
        } else {
            match submit_command(destination, text, source_addr).encoding() {
                Ok(frame) => Ok(frame),
                Err(field) => Err(SmppClientError::EncodingError(field)),
            }
        }
    }

    /// The session after a submit was asked for.
    pub open spec fn after_submit(
        self,
        destination: Seq<char>,
        text: Seq<char>,
        source_addr: Seq<char>,
    ) -> Session {
        if self.submit_result(destination, text, source_addr) is Ok {
            Session { awaiting: Awaiting::SubmitSmResp, ..self }
        } else {
            self
        }
    }

    /// The session after an unbind was issued: unbound at once, whatever
    /// the peer will answer.
    pub open spec fn after_unbind(self) -> Session {
        Session { connected: false, awaiting: Awaiting::UnbindResp, ..self }
    }

    /// The session after the operation in flight ended with `outcome`.
    /// Only a bind that succeeded binds it.
    pub open spec fn settled(self, outcome: Result<(), SmppClientError>) -> Session {
        Session {
            connected: self.connected || (self.awaiting is BindTransceiverResp && outcome is Ok),
            awaiting: Awaiting::Nothing,
            ..self
        }
    }

    /// The session after one frame came in.
    pub open spec fn after_frame(self, frame: Frame) -> Session {
        match verdict(self.awaiting, frame) {
            Some(outcome) => self.settled(outcome),
            None => self,
        }
    }

    /// The session after `fault` struck: it waits for nothing. Of a
    /// stream that failed nothing is kept; after a wait that was given up
    /// the stream is still alive, and what came in stays.
    pub open spec fn after_fault(self, fault: Fault) -> Session {
        match fault {
            Fault::Transport => Session {
                awaiting: Awaiting::Nothing,
                inbox: Seq::empty(),
                ..self
            },
            Fault::Timeout => Session { awaiting: Awaiting::Nothing, ..self },
        }
    }

    /// The session with `bytes` added to what came in.
    pub open spec fn fed(self, bytes: Seq<u8>) -> Session {
        Session { inbox: self.inbox + bytes, ..self }
    }

    /// Reads the frames of the inbox in order: frames of another kind than
    /// the awaited one are dropped, the first of that kind settles the
    /// operation and stays the last that is read. A session that waits for
    /// nothing reads nothing. A broken stream fails the operation.
    pub open spec fn drain(self) -> (Session, Progress)
        decreases self.inbox.len(),
    {
        if self.awaiting is Nothing {
            (self, Progress::Pending)
        } else {
            match next_item(self.inbox) {
                StreamItem::Incomplete => (self, Progress::Pending),
                StreamItem::Broken => (
                    self.after_fault(Fault::Transport),
                    Progress::Done(Err(self.awaiting.failure(Fault::Transport))),
                ),
                StreamItem::Frame(frame, n) => {
                    let rest = Session { inbox: self.inbox.skip(n as int), ..self };
                    match verdict(self.awaiting, frame) {
                        Some(outcome) => (rest.settled(outcome), Progress::Done(outcome)),
                        None => rest.drain(),
                    }
                },
            }
        }
    }
}

impl SmppConnection {
    /// A session over a stream that was just opened: unbound.
    pub fn new() -> (connection: SmppConnection)
        ensures
            connection@ == Session::initial(),
    {
        SmppConnection { connected: false, awaiting: Awaiting::Nothing, inbox: Vec::new() }
    }

    /// Whether the session is bound.
    pub fn is_connected(&self) -> (connected: bool)
        ensures
            connected == self@.connected,
    {
        self.connected
    }

    /// The response that the session waits for.
    pub fn awaiting(&self) -> (awaiting: Awaiting)
        ensures
            awaiting == self@.awaiting,
    {
        self.awaiting
    }

    /// Starts a bind as transceiver and hands out the frame to send. Fails
    /// with `AlreadyConnected` on a bound session, and with `EncodingError`
    /// where `system_id` or `password` does not fit its field; the session
    /// is then as before. Else the session waits for the bind response.
    pub fn bind_transceiver(&mut self, system_id: &str, password: &str) -> (request: Result<
        Vec<u8>,
        SmppClientError,
    >)
        ensures
            match request {
                Ok(frame) => old(self)@.bind_result(system_id@, password@) == Ok::<
                    Seq<u8>,
                    SmppClientError,
                >(frame@),
                Err(error) => old(self)@.bind_result(system_id@, password@) == Err::<
                    Seq<u8>,
                    SmppClientError,
                >(error),
            },
            final(self)@ == old(self)@.after_bind(system_id@, password@),
    {
        if self.connected {
            return Err(SmppClientError::AlreadyConnected);
        }
        let command = Command::bind_transceiver(system_id, password);
        match encode(&command) {
            Ok(frame) => {
                self.awaiting = Awaiting::BindTransceiverResp;
                Ok(frame)
            },
            Err(field) => Err(SmppClientError::EncodingError(field)),
        }
    }

    /// Starts the submission of `text` to `msisdn` in the name of
    /// `source_addr` and hands out the frame to send. Fails with
    /// `NotConnected` on an unbound session, and with `EncodingError` where
    /// an argument does not fit its field; the session is then as before.
    /// Else the session waits for the submit response.
    pub fn submit_sm(&mut self, msisdn: &str, text: &str, source_addr: &str) -> (request: Result<
        Vec<u8>,
        SmppClientError,
    >)
        ensures
            match request {
                Ok(frame) => old(self)@.submit_result(msisdn@, text@, source_addr@) == Ok::<
                    Seq<u8>,
                    SmppClientError,
                >(frame@),
                Err(error) => old(self)@.submit_result(msisdn@, text@, source_addr@) == Err::<
                    Seq<u8>,
                    SmppClientError,
                >(error),
            },
            final(self)@ == old(self)@.after_submit(msisdn@, text@, source_addr@),
    {
        if !self.connected {
            return Err(SmppClientError::NotConnected);
        }
        let command = Command::submit_sm(msisdn, text, source_addr);
        match encode(&command) {
            Ok(frame) => {
                self.awaiting = Awaiting::SubmitSmResp;
                Ok(frame)
            },
            Err(field) => Err(SmppClientError::EncodingError(field)),
        }
    }

    /// Issues the unbind and hands out the frame to send. The session is
    /// unbound from here on, bound or not before, and waits for the unbind
    /// response.
    pub fn unbind(&mut self) -> (frame: Vec<u8>)
        ensures
            unbind_command().encoding() == Ok::<Seq<u8>, Field>(frame@),
            final(self)@ == old(self)@.after_unbind(),
    {
        let command = Command::unbind();
        self.connected = false;
        self.awaiting = Awaiting::UnbindResp;
        match encode(&command) {
            Ok(frame) => frame,
            Err(_) => Vec::new(),
        }
    }

    /// Takes one frame that came in. A frame of the awaited kind ends the
    /// operation in flight, with success where its status is zero and with
    /// the operation's error else; any other frame changes nothing.
    pub fn on_frame(&mut self, frame: Frame) -> (progress: Progress)
        ensures
            progress == match verdict(old(self)@.awaiting, frame) {
                Some(outcome) => Progress::Done(outcome),
                None => Progress::Pending,
            },
            final(self)@ == old(self)@.after_frame(frame),
    {
        let awaited: u32 = match self.awaiting {
            Awaiting::Nothing => {
                return Progress::Pending;
            },
            Awaiting::BindTransceiverResp => BIND_TRANSCEIVER_RESP,
            Awaiting::SubmitSmResp => SUBMIT_SM_RESP,
            Awaiting::UnbindResp => UNBIND_RESP,
        };
        if frame.command_id != awaited {
            return Progress::Pending;
        }
        let outcome = if frame.command_status.is_ok() {
            Ok(())
        } else {
            match self.awaiting {
                Awaiting::BindTransceiverResp => Err(
                    SmppClientError::BindFailed(frame.command_status),
                ),
                Awaiting::SubmitSmResp => Err(SmppClientError::SubmitFailed(frame.command_status)),
                _ => Err(SmppClientError::UnbindFailed),
            }
        };
        if frame.command_status.is_ok() {
            match self.awaiting {
                Awaiting::BindTransceiverResp => {
                    self.connected = true;
                },
                _ => {},
            }
        }
        self.awaiting = Awaiting::Nothing;
        Progress::Done(outcome)
    }

    /// Takes bytes that came in off the stream and reads the frames that
    /// are whole by now, in order, until one settles the operation in
    /// flight. Frames of another kind are dropped. Bytes behind the frame
    /// that settled it, and bytes of a frame that is not whole yet, are
    /// kept for the next call. A length field under four, or a frame that
    /// does not decode, fails the operation as a fault of the transport
    /// does. A session that waits for nothing only keeps the bytes.
    pub fn receive(&mut self, bytes: &[u8]) -> (progress: Progress)
        ensures
            (final(self)@, progress) == old(self)@.fed(bytes@).drain(),
    {
        self.inbox.extend_from_slice(bytes);
        assert(self.inbox@ =~= old(self).inbox@ + bytes@);
        let ghost start = old(self)@.fed(bytes@);
        if let Awaiting::Nothing = self.awaiting {
            return Progress::Pending;
        }
        let mut pos: usize = 0;
        assert(start.inbox.skip(0) =~= start.inbox);
        loop
            invariant
                pos <= self.inbox@.len(),
                self@ == start,
                start == old(self)@.fed(bytes@),
                !(start.awaiting is Nothing),
                start.drain() == (Session { inbox: start.inbox.skip(pos as int), ..start }).drain(),
            decreases self.inbox@.len() - pos,
        {
            let ghost current = Session { inbox: start.inbox.skip(pos as int), ..start };
            let length = self.inbox.len();
            let tail = slice_subrange(self.inbox.as_slice(), pos, length);
            assert(tail@ =~= current.inbox);
            match decode(tail) {
                StreamItem::Incomplete => {
                    let rest = self.inbox.split_off(pos);
                    self.inbox = rest;
                    assert(self.inbox@ =~= current.inbox);
                    return Progress::Pending;
                },
                StreamItem::Broken => {
                    let error = self.on_fault(Fault::Transport);
                    return Progress::Done(Err(error));
                },
                StreamItem::Frame(frame, n) => {
                    assert(current.inbox.skip(n as int) =~= start.inbox.skip(pos + n));
                    pos = pos + n;
                    match self.on_frame(frame) {
                        Progress::Pending => {},
                        Progress::Done(outcome) => {
                            let rest = self.inbox.split_off(pos);
                            self.inbox = rest;
                            assert(self.inbox@ =~= start.inbox.skip(pos as int));
                            return Progress::Done(outcome);
                        },
                    }
                },
            }
        }
    }

    /// Ends the operation in flight because the stream ended or failed, or
    /// because the caller gave up waiting, and hands out its error. A
    /// bound session stays bound. What came in is dropped with a stream
    /// that failed, and kept after a wait that was given up.
    pub fn on_fault(&mut self, fault: Fault) -> (error: SmppClientError)
        ensures
            error == old(self)@.awaiting.failure(fault),
            final(self)@ == old(self)@.after_fault(fault),
    {
        let error = match fault {
            Fault::Timeout => SmppClientError::Timeout,
            Fault::Transport => {
                self.inbox = Vec::new();
                match self.awaiting {
                    Awaiting::UnbindResp => SmppClientError::UnbindFailed,
                    _ => SmppClientError::TransportError,
                }
            },
        };
        self.awaiting = Awaiting::Nothing;
        error
    }
}

} // verus!
