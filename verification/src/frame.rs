//! The few frame-level values that stream bookkeeping reads.

use vstd::prelude::*;

verus! {

/// Identifies one stream of a connection.
///
/// Clients open odd streams and servers open even ones, so the parity of the
/// number tells which endpoint created the stream.
#[derive(Clone, Copy, Debug, PartialEq, Eq, Structural, Hash)]
pub struct StreamId(pub u32);

impl StreamId {
    /// Whether the number is even.
    pub open spec fn even(self) -> bool {
        self.0 % 2 == 0
    }

    /// Whether an endpoint in the server role created this stream.
    pub fn is_server_initiated(&self) -> (r: bool)
        ensures
            r == self.even(),
    {
        self.0 % 2 == 0
    }

    /// Whether an endpoint in the client role created this stream.
    pub fn is_client_initiated(&self) -> (r: bool)
        ensures
            r == !self.even(),
    {
        self.0 % 2 == 1
    }
}

/// Why a stream or a connection was terminated.
#[derive(Clone, Copy, Debug, PartialEq, Eq, Structural, Hash)]
pub enum Reason {
    NoError,
    ProtocolError,
    InternalError,
    FlowControlError,
    SettingsTimeout,
    StreamClosed,
    FrameSizeError,
    RefusedStream,
    Cancel,
    CompressionError,
    ConnectError,
    EnhanceYourCalm,
    InadequateSecurity,
    Http11Required,
}

impl Reason {
    /// The text that `description` returns.
    pub open spec fn description_spec(self) -> Seq<char> {
        match self {
            Reason::NoError => "not a result of an error"@,
            Reason::ProtocolError => "unspecific protocol error detected"@,
            Reason::InternalError => "unexpected internal error encountered"@,
            Reason::FlowControlError => "flow-control protocol violated"@,
            Reason::SettingsTimeout => "settings ACK not received in timely manner"@,
            Reason::StreamClosed => "received frame when stream half-closed"@,
            Reason::FrameSizeError => "frame with invalid size"@,
            Reason::RefusedStream => "refused stream before processing any application logic"@,
            Reason::Cancel => "stream no longer needed"@,
            Reason::CompressionError => "unable to maintain the header compression context"@,
            Reason::ConnectError => "connection established in response to a CONNECT request was reset or abnormally closed"@,
            Reason::EnhanceYourCalm => "detected excessive load generating behavior"@,
            Reason::InadequateSecurity => "security properties do not meet minimum requirements"@,
            Reason::Http11Required => "endpoint requires HTTP/1.1"@,
        }
    }

    /// A fixed, human-readable text for the reason.
    pub fn description(&self) -> (r: &'static str)
        ensures
            r@ == self.description_spec(),
    {
        match self {
            Reason::NoError => "not a result of an error",
            Reason::ProtocolError => "unspecific protocol error detected",
            Reason::InternalError => "unexpected internal error encountered",
            Reason::FlowControlError => "flow-control protocol violated",
            Reason::SettingsTimeout => "settings ACK not received in timely manner",
            Reason::StreamClosed => "received frame when stream half-closed",
            Reason::FrameSizeError => "frame with invalid size",
            Reason::RefusedStream => "refused stream before processing any application logic",
            Reason::Cancel => "stream no longer needed",
            Reason::CompressionError => "unable to maintain the header compression context",
            Reason::ConnectError => "connection established in response to a CONNECT request was reset or abnormally closed",
            Reason::EnhanceYourCalm => "detected excessive load generating behavior",
            Reason::InadequateSecurity => "security properties do not meet minimum requirements",
            Reason::Http11Required => "endpoint requires HTTP/1.1",
        }
    }
}

/// The settings that the remote endpoint negotiated, as far as stream
/// bookkeeping reads them.
#[derive(Clone, Copy, Debug, PartialEq, Eq, Structural)]
pub struct Settings {
    /// The most streams that this endpoint may keep open at once, if the
    /// remote endpoint named a number.
    pub max_concurrent_streams: Option<u32>,
}

impl Settings {
    /// The limit on concurrent streams that the remote endpoint named, if any.
    pub fn max_concurrent_streams(&self) -> (r: Option<u32>)
        ensures
            r == self.max_concurrent_streams,
    {
        self.max_concurrent_streams
    }
}

} // verus!
