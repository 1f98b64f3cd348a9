//! What can go wrong in a session, which of it ends the session, and the
//! line that tells the operator about it.

use vstd::prelude::*;
use vstd::string::StringExecFns;
use crate::text::{decimal, spec_decimal};

verus! {

/// A failure of the session. The text in a variant is the message of the
/// collaborator that failed, or the name that was looked for.
#[derive(Clone, Debug, PartialEq, Eq)]
pub enum ProtocolError {
    /// The serial device could not be opened.
    TransportOpenFailure(String),
    /// A command token outside text mode names no code and does not ask to
    /// listen.
    UnknownCommand(String),
    /// A payload could not be written to the serial line.
    SendFailure(String),
    /// The display service knows no display of the configured name.
    MonitorNotFound(String),
    /// The display service could not be asked.
    DisplayQueryFailure(String),
    /// The display or the terminal could not be reconfigured.
    ActuatorFailure(String),
    /// A byte arrived that stands for no code.
    UnrecognizedInboundCode(u8),
}

impl ProtocolError {
    /// Whether the session ends on this failure. A failure on the link or in
    /// a query is reported and survived; one that would leave the command
    /// queue or the displays half done is not.
    pub open spec fn spec_is_fatal(&self) -> bool {
        match self {
            ProtocolError::TransportOpenFailure(_) => true,
            ProtocolError::UnknownCommand(_) => true,
            ProtocolError::SendFailure(_) => false,
            ProtocolError::MonitorNotFound(_) => false,
            ProtocolError::DisplayQueryFailure(_) => false,
            ProtocolError::ActuatorFailure(_) => true,
            ProtocolError::UnrecognizedInboundCode(_) => false,
        }
    }

    /// The status line for this failure.
    pub open spec fn spec_message(&self) -> Seq<char> {
        match self {
            ProtocolError::TransportOpenFailure(e) => e@,
            ProtocolError::UnknownCommand(token) => "Error: Unknown command \""@ + token@ + "\"."@,
            ProtocolError::SendFailure(e) => "error, couldn't send: "@ + e@,
            ProtocolError::MonitorNotFound(name) => "error, monitor "@ + name@ + " not found."@,
            ProtocolError::DisplayQueryFailure(e) => "error: "@ + e@,
            ProtocolError::ActuatorFailure(e) => e@,
            ProtocolError::UnrecognizedInboundCode(b) => "error, received unrecognized code "@
                + spec_decimal(*b as nat) + "."@,
        }
    }

    /// Whether the session ends on this failure.
    #[verifier::when_used_as_spec(spec_is_fatal)]
    pub fn is_fatal(&self) -> (fatal: bool)
        ensures
            fatal == self.spec_is_fatal(),
    {
        match self {
            ProtocolError::TransportOpenFailure(_) => true,
            ProtocolError::UnknownCommand(_) => true,
            ProtocolError::SendFailure(_) => false,
            ProtocolError::MonitorNotFound(_) => false,
            ProtocolError::DisplayQueryFailure(_) => false,
            ProtocolError::ActuatorFailure(_) => true,
            ProtocolError::UnrecognizedInboundCode(_) => false,
        }
    }

    /// The status line for this failure.
    pub fn message(&self) -> (line: String)
        ensures
            line@ == self.spec_message(),
    {
        match self {
            ProtocolError::TransportOpenFailure(e) => e.clone(),
            ProtocolError::UnknownCommand(token) => {
                let mut line = String::from_str("Error: Unknown command \"");
                line.append(token.as_str());
                line.append("\".");
                line
            },
            ProtocolError::SendFailure(e) => {
                let mut line = String::from_str("error, couldn't send: ");
                line.append(e.as_str());
                line
            },
            ProtocolError::MonitorNotFound(name) => {
                let mut line = String::from_str("error, monitor ");
                line.append(name.as_str());
                line.append(" not found.");
                line
            },
            ProtocolError::DisplayQueryFailure(e) => {
                let mut line = String::from_str("error: ");
                line.append(e.as_str());
                line
            },
            ProtocolError::ActuatorFailure(e) => e.clone(),
            ProtocolError::UnrecognizedInboundCode(b) => {
                let mut line = String::from_str("error, received unrecognized code ");
                let number = decimal(*b as u64);
                line.append(number.as_str());
                line.append(".");
                line
            },
        }
    }
}

} // verus!
