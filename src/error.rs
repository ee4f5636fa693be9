use vstd::prelude::*;

verus! {

/// Failure of a message channel whose other end has gone away or is empty.
#[derive(Debug, Clone, Copy, PartialEq, Eq, Structural)]
pub enum ChannelError {
    ChannelDead,
    ChannelEmpty,
}

/// Protocol-level failures of the packet exchange.
#[derive(Debug, Clone, Copy, PartialEq, Eq, Structural)]
pub enum NetworkError {
    /// The bytes of an exchange do not form a packet.
    InvalidPacket,
    /// The peer's confirmation echo was shorter than a code.
    MalformedCode,
    /// The peer echoed a code other than the one that was sent.
    InvalidCode,
    /// No confirmation arrived within the confirmation timeout.
    ConfirmationTimeout,
}

/// The shared error type. Transport failures carry the transport's own
/// description of what went wrong.
#[derive(Debug, Clone, PartialEq, Eq)]
pub enum Error {
    BindError(String),
    ConnectError(String),
    ConnectingError(String),
    ChannelError(ChannelError),
    ConnectionError(String),
    WriteError(String),
    ClosedStream(String),
    NetworkError(NetworkError),
}

pub type Res<T> = Result<T, Error>;

} // verus!
