//! The steps of sending one message, and what is reported when one fails.

use vstd::prelude::*;
use vstd::string::StringExecFns;
use crate::smppclient::SmppClientError;

verus! {

/// Seconds that a response is waited for before the wait is given up.
pub const RESPONSE_TIMEOUT_SECONDS: u64 = 30;

/// A step of sending one message. Each is taken only after the one before
/// it succeeded.
#[derive(Clone, Copy, Debug, PartialEq, Eq, Structural)]
pub enum Phase {
    Connect,
    Bind,
    Submit,
    Unbind,
}

impl Phase {
    pub open spec fn spec_next(self) -> Option<Phase> {
        match self {
            Phase::Connect => Some(Phase::Bind),
            Phase::Bind => Some(Phase::Submit),
            Phase::Submit => Some(Phase::Unbind),
            Phase::Unbind => None,
        }
    }

    /// The step that follows this one when it succeeded; none after the
    /// unbind.
    #[verifier::when_used_as_spec(spec_next)]
    pub fn next(self) -> (next: Option<Phase>)
        ensures
            next == self.spec_next(),
    {
        match self {
            Phase::Connect => Some(Phase::Bind),
            Phase::Bind => Some(Phase::Submit),
            Phase::Submit => Some(Phase::Unbind),
            Phase::Unbind => None,
        }
    }

    pub open spec fn spec_follow(self, outcome: Result<(), SmppClientError>) -> Option<Phase> {
        match outcome {
            Ok(_) => self.spec_next(),
            Err(_) => None,
        }
    }

    /// The step to take once this one ended with `outcome`: the next one
    /// after a success, none after a failure. Nothing is tried again and
    /// nothing is sent behind a step that failed, not even the unbind.
    #[verifier::when_used_as_spec(spec_follow)]
    pub fn follow(self, outcome: Result<(), SmppClientError>) -> (step: Option<Phase>)
        ensures
            step == self.spec_follow(outcome),
    {
        match outcome {
            Ok(_) => self.next(),
            Err(_) => None,
        }
    }

    /// What stands before the details in the report of a failure of this
    /// step. A failed unbind is reported by its details alone.
    pub open spec fn prefix(self) -> Seq<char> {
        match self {
            Phase::Connect => "Failed to connect to server. Details: "@,
            Phase::Bind => "Failed to bind. Details: "@,
            Phase::Submit => "Sending submit_sm failed. Details: "@,
            Phase::Unbind => Seq::empty(),
        }
    }

    /// The report of this step when it failed with `error`: the step, then
    /// the error by its name, with the status that the peer gave.
    pub open spec fn report(self, error: SmppClientError) -> Seq<char> {
        self.prefix() + error.spec_name()
    }

    /// Writes out the report of a failure of this step for which only a
    /// text is there, as for a connection that could not be opened.
    pub fn failure(self, details: &str) -> (text: String)
        ensures
            text@ == self.prefix() + details@,
    {
        let prefix = match self {
            Phase::Connect => "Failed to connect to server. Details: ",
            Phase::Bind => "Failed to bind. Details: ",
            Phase::Submit => "Sending submit_sm failed. Details: ",
            Phase::Unbind => {
                proof {
                    reveal_strlit("");
                }
                ""
            },
        };
        let text = String::from_str(prefix).concat(details);
        assert(text@ =~= self.prefix() + details@);
        text
    }

    /// Writes out the report of this step when it failed with `error`.
    pub fn report_failure(self, error: SmppClientError) -> (text: String)
        ensures
            text@ == self.report(error),
    {
        let name = error.name();
        self.failure(name.as_str())
    }
}

} // verus!
