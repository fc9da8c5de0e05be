//! The error taxonomy of the client: transport, decode, protocol and
//! task-completion failures.

use vstd::prelude::*;

verus! {

/// The transport error of the websocket layer (tungstenite), held opaquely.
#[verifier::external_type_specification]
#[verifier::external_body]
pub struct ExTungsteniteError(tokio_tungstenite::tungstenite::Error);

/// The decode error of the JSON layer (serde_json), held opaquely.
#[verifier::external_type_specification]
#[verifier::external_body]
pub struct ExJsonError(serde_json::Error);

/// The error returned when a spawned task cannot be joined (tokio), held opaquely.
#[verifier::external_type_specification]
#[verifier::external_body]
pub struct ExJoinError(tokio::task::JoinError);

/// The error of the interactive line editor (rustyline), held opaquely.
#[verifier::external_type_specification]
#[verifier::external_body]
pub struct ExReadlineError(rustyline::error::ReadlineError);

/// Why a well-formed JSON message still violates the protocol: a required
/// field of a recognized message type is missing or of the wrong type.
#[derive(Debug, Clone, Copy, PartialEq, Eq, Structural)]
pub enum ProtocolViolation {
    /// The `type` field is missing or not a string.
    MissingType,
    /// An identity-assignment message without a string `id` field.
    MissingConversationId,
    /// An `askSpecial` message whose `what` field is neither null nor a string.
    InvalidAskSpecialWhat,
    /// An ordered event without an integer `id` field.
    InvalidMessageId,
    /// A `text` message without a string `text` field.
    InvalidTextMessage,
    /// A `command` message without a string `command` field.
    InvalidCommandMessage,
}

impl ProtocolViolation {
    /// The wording of each violation.
    pub open spec fn spec_message(&self) -> Seq<char> {
        match self {
            ProtocolViolation::MissingType => "missing message type"@,
            ProtocolViolation::MissingConversationId => "missing conversation id"@,
            ProtocolViolation::InvalidAskSpecialWhat => "invalid ask_special what field"@,
            ProtocolViolation::InvalidMessageId => "invalid message id"@,
            ProtocolViolation::InvalidTextMessage => "invalid text message"@,
            ProtocolViolation::InvalidCommandMessage => "invalid command message"@,
        }
    }

    /// A short human-readable statement of the violation.
    pub fn message(&self) -> (r: &'static str)
        ensures
            r@ == self.spec_message(),
    {
        match self {
            ProtocolViolation::MissingType => "missing message type",
            ProtocolViolation::MissingConversationId => "missing conversation id",
            ProtocolViolation::InvalidAskSpecialWhat => "invalid ask_special what field",
            ProtocolViolation::InvalidMessageId => "invalid message id",
            ProtocolViolation::InvalidTextMessage => "invalid text message",
            ProtocolViolation::InvalidCommandMessage => "invalid command message",
        }
    }
}

/// Everything that can go wrong in the client: a transport failure, a
/// malformed inbound payload, a task that could not be joined, a line-editor
/// failure, or a well-formed message that violates the protocol.
#[derive(Debug)]
pub enum AlmondError {
    WebSocketError(tokio_tungstenite::tungstenite::Error),
    JSONError(serde_json::Error),
    JoinError(tokio::task::JoinError),
    ReadlineError(rustyline::error::ReadlineError),
    ProtocolError(ProtocolViolation),
}

impl AlmondError {
    /// A short human-readable description, `<kind>: <cause>`. A protocol
    /// error's description is pinned exactly; for the wrapped outside errors
    /// the cause is whatever those crates say of themselves.
    pub fn describe(&self) -> (r: String)
        ensures
            self matches AlmondError::ProtocolError(v) ==> r@ == "protocol error: "@
                + v.spec_message(),
            self matches AlmondError::WebSocketError(_) ==> (exists|t: Seq<char>|
                r@ == "web socket error: "@.add(t)),
            self matches AlmondError::JSONError(_) ==> (exists|t: Seq<char>|
                r@ == "json/protocol error: "@.add(t)),
            self matches AlmondError::JoinError(_) ==> (exists|t: Seq<char>|
                r@ == "task completion error: "@.add(t)),
            self matches AlmondError::ReadlineError(_) ==> (exists|t: Seq<char>|
                r@ == "readline error: "@.add(t)),
    {
        match self {
            AlmondError::WebSocketError(err) => {
                let mut s = String::from_str("web socket error: ");
                let cause = err.to_string();
                s.append(cause.as_str());
                proof {
                    assert(s@ == "web socket error: "@.add(cause@));
                }
                s
            },
            AlmondError::JSONError(err) => {
                let mut s = String::from_str("json/protocol error: ");
                let cause = err.to_string();
                s.append(cause.as_str());
                proof {
                    assert(s@ == "json/protocol error: "@.add(cause@));
                }
                s
            },
            AlmondError::JoinError(err) => {
                let mut s = String::from_str("task completion error: ");
                let cause = err.to_string();
                s.append(cause.as_str());
                proof {
                    assert(s@ == "task completion error: "@.add(cause@));
                }
                s
            },
            AlmondError::ReadlineError(err) => {
                let mut s = String::from_str("readline error: ");
                let cause = err.to_string();
                s.append(cause.as_str());
                proof {
                    assert(s@ == "readline error: "@.add(cause@));
                }
                s
            },
            AlmondError::ProtocolError(v) => {
                let mut s = String::from_str("protocol error: ");
                s.append(v.message());
                s
            },
        }
    }
}

impl From<tokio_tungstenite::tungstenite::Error> for AlmondError {
    fn from(err: tokio_tungstenite::tungstenite::Error) -> (r: AlmondError) {
        AlmondError::WebSocketError(err)
    }
}

impl vstd::std_specs::convert::FromSpecImpl<tokio_tungstenite::tungstenite::Error> for AlmondError {
    open spec fn obeys_from_spec() -> bool {
        true
    }

    open spec fn from_spec(err: tokio_tungstenite::tungstenite::Error) -> AlmondError {
        AlmondError::WebSocketError(err)
    }
}

impl From<serde_json::Error> for AlmondError {
    fn from(err: serde_json::Error) -> (r: AlmondError) {
        AlmondError::JSONError(err)
    }
}

impl vstd::std_specs::convert::FromSpecImpl<serde_json::Error> for AlmondError {
    open spec fn obeys_from_spec() -> bool {
        true
    }

    open spec fn from_spec(err: serde_json::Error) -> AlmondError {
        AlmondError::JSONError(err)
    }
}

impl From<tokio::task::JoinError> for AlmondError {
    fn from(err: tokio::task::JoinError) -> (r: AlmondError) {
        AlmondError::JoinError(err)
    }
}

impl vstd::std_specs::convert::FromSpecImpl<tokio::task::JoinError> for AlmondError {
    open spec fn obeys_from_spec() -> bool {
        true
    }

    open spec fn from_spec(err: tokio::task::JoinError) -> AlmondError {
        AlmondError::JoinError(err)
    }
}

impl From<rustyline::error::ReadlineError> for AlmondError {
    fn from(err: rustyline::error::ReadlineError) -> (r: AlmondError) {
        AlmondError::ReadlineError(err)
    }
}

impl vstd::std_specs::convert::FromSpecImpl<rustyline::error::ReadlineError> for AlmondError {
    open spec fn obeys_from_spec() -> bool {
        true
    }

    open spec fn from_spec(err: rustyline::error::ReadlineError) -> AlmondError {
        AlmondError::ReadlineError(err)
    }
}

} // verus!
