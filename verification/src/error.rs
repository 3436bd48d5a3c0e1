//! The errors that receive and send operations hand back, sorted by how far
//! the fault reaches.

use vstd::prelude::*;
use vstd::std_specs::convert::FromSpec;
use vstd::std_specs::convert::FromSpecImpl;
use crate::frame::{Reason, StreamId};

verus! {

/// `std::io::Error`, carried through as the cause of a transport fault.
/// Nothing is known of what is inside.
#[verifier::external_type_specification]
#[verifier::external_body]
pub struct ExIoError(std::io::Error);

/// Whether `text` is what the I/O error `e` renders as through its `Display`
/// impl. For an error of the operating system the text comes from the
/// system, so this is a relation and no formula.
pub open spec fn renders_as(e: std::io::Error, text: String) -> bool {
    vstd::string::to_string_from_display_ensures::<std::io::Error>(&e, text)
}

/// How far a fault reaches.
#[derive(Clone, Copy, Debug, PartialEq, Eq, Structural)]
pub enum BlastRadius {
    /// Every stream of the connection is lost and the transport must close.
    Connection,
    /// One stream is lost; the connection goes on.
    Stream,
    /// Nothing reached the network; only the caller sees the fault.
    Local,
}

/// Errors caused by users of the library.
#[derive(Clone, Copy, Debug, PartialEq, Eq, Structural)]
pub enum UserError {
    /// The stream ID is no longer accepting frames.
    InactiveStreamId,
    /// The stream is not currently expecting a frame of this type.
    UnexpectedFrameType,
    /// The payload size is too big.
    PayloadTooBig,
    /// The application attempted to initiate too many streams to remote.
    Rejected,
}

impl UserError {
    /// The text that `description` returns.
    pub open spec fn description_spec(self) -> Seq<char> {
        match self {
            UserError::InactiveStreamId => "inactive stream"@,
            UserError::UnexpectedFrameType => "unexpected frame type"@,
            UserError::PayloadTooBig => "payload too big"@,
            UserError::Rejected => "rejected"@,
        }
    }

    /// A fixed, human-readable text for the error.
    pub fn description(&self) -> (r: &'static str)
        ensures
            r@ == self.description_spec(),
    {
        match self {
            UserError::InactiveStreamId => "inactive stream",
            UserError::UnexpectedFrameType => "unexpected frame type",
            UserError::PayloadTooBig => "payload too big",
            UserError::Rejected => "rejected",
        }
    }
}

/// Errors that are received.
#[derive(Debug)]
pub enum RecvError {
    /// The whole connection is terminated for the given reason.
    Connection(Reason),
    /// Only the named stream is terminated; the connection goes on.
    Stream { id: StreamId, reason: Reason },
    /// The transport failed underneath the connection.
    Io(std::io::Error),
}

impl RecvError {
    /// Whether `text` describes the error: the text of the reason, or what
    /// the wrapped I/O error renders as.
    pub open spec fn described_by(self, text: String) -> bool {
        match self {
            RecvError::Connection(reason) => text@ == reason.description_spec(),
            RecvError::Stream { id, reason } => text@ == reason.description_spec(),
            RecvError::Io(e) => renders_as(e, text),
        }
    }

    /// How far a received fault reaches: one stream for a stream error, the
    /// whole connection for everything else.
    pub open spec fn blast_radius_spec(self) -> BlastRadius {
        match self {
            RecvError::Connection(_) => BlastRadius::Connection,
            RecvError::Stream { .. } => BlastRadius::Stream,
            RecvError::Io(_) => BlastRadius::Connection,
        }
    }

    /// A human-readable text for the error.
    pub fn description(&self) -> (r: String)
        ensures
            self.described_by(r),
    {
        match self {
            RecvError::Connection(reason) => reason.description().to_owned(),
            RecvError::Stream { id: _, reason } => reason.description().to_owned(),
            RecvError::Io(e) => e.to_string(),
        }
    }

    /// How far the fault reaches.
    pub fn blast_radius(&self) -> (r: BlastRadius)
        ensures
            r == self.blast_radius_spec(),
    {
        match self {
            RecvError::Connection(_) => BlastRadius::Connection,
            RecvError::Stream { .. } => BlastRadius::Stream,
            RecvError::Io(_) => BlastRadius::Connection,
        }
    }
}

impl From<std::io::Error> for RecvError {
    fn from(src: std::io::Error) -> (r: RecvError) {
        RecvError::Io(src)
    }
}

impl FromSpecImpl<std::io::Error> for RecvError {
    open spec fn obeys_from_spec() -> bool {
        true
    }

    open spec fn from_spec(src: std::io::Error) -> RecvError {
        RecvError::Io(src)
    }
}

/// Errors caused by sending a message.
#[derive(Debug)]
pub enum SendError {
    /// The send was refused before any byte was produced.
    User(UserError),
    /// Bytes were attempted and the transport failed.
    Io(std::io::Error),
}

impl SendError {
    /// Whether `text` describes the error: the text of the user error, or
    /// what the wrapped I/O error renders as.
    pub open spec fn described_by(self, text: String) -> bool {
        match self {
            SendError::User(e) => text@ == e.description_spec(),
            SendError::Io(e) => renders_as(e, text),
        }
    }

    /// How far a send fault reaches: nowhere for a refusal, the whole
    /// connection for a transport fault.
    pub open spec fn blast_radius_spec(self) -> BlastRadius {
        match self {
            SendError::User(_) => BlastRadius::Local,
            SendError::Io(_) => BlastRadius::Connection,
        }
    }

    /// A human-readable text for the error.
    pub fn description(&self) -> (r: String)
        ensures
            self.described_by(r),
    {
        match self {
            SendError::User(e) => e.description().to_owned(),
            SendError::Io(e) => e.to_string(),
        }
    }

    /// How far the fault reaches.
    pub fn blast_radius(&self) -> (r: BlastRadius)
        ensures
            r == self.blast_radius_spec(),
    {
        match self {
            SendError::User(_) => BlastRadius::Local,
            SendError::Io(_) => BlastRadius::Connection,
        }
    }
}

impl From<std::io::Error> for SendError {
    fn from(src: std::io::Error) -> (r: SendError) {
        SendError::Io(src)
    }
}

impl FromSpecImpl<std::io::Error> for SendError {
    open spec fn obeys_from_spec() -> bool {
        true
    }

    open spec fn from_spec(src: std::io::Error) -> SendError {
        SendError::Io(src)
    }
}

impl From<UserError> for SendError {
    fn from(src: UserError) -> (r: SendError) {
        SendError::User(src)
    }
}

impl FromSpecImpl<UserError> for SendError {
    open spec fn obeys_from_spec() -> bool {
        true
    }

    open spec fn from_spec(src: UserError) -> SendError {
        SendError::User(src)
    }
}

/// Wrapping an I/O error keeps it: the wrapped error is the cause, the
/// texts that describe the wrapper are those that the cause renders as, and
/// the fault reaches the whole connection.
pub proof fn lemma_wrapping_keeps_cause(e: std::io::Error, text: String)
    ensures
        <RecvError as FromSpec<std::io::Error>>::from_spec(e) == RecvError::Io(e),
        <RecvError as FromSpec<std::io::Error>>::from_spec(e).described_by(text) <==> renders_as(
            e,
            text,
        ),
        <RecvError as FromSpec<std::io::Error>>::from_spec(e).blast_radius_spec()
            == BlastRadius::Connection,
        <SendError as FromSpec<std::io::Error>>::from_spec(e) == SendError::Io(e),
        <SendError as FromSpec<std::io::Error>>::from_spec(e).described_by(text) <==> renders_as(
            e,
            text,
        ),
        <SendError as FromSpec<std::io::Error>>::from_spec(e).blast_radius_spec()
            == BlastRadius::Connection,
{
}

/// A send that was refused for any reason of the user's is a local fault,
/// described by the text of that reason.
pub proof fn lemma_refusal_is_local(kind: UserError, text: String)
    ensures
        <SendError as FromSpec<UserError>>::from_spec(kind) == SendError::User(kind),
        <SendError as FromSpec<UserError>>::from_spec(kind).blast_radius_spec()
            == BlastRadius::Local,
        <SendError as FromSpec<UserError>>::from_spec(kind).described_by(text) <==> text@
            == kind.description_spec(),
{
}

} // verus!
