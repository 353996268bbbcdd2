use vstd::prelude::*;

verus! {

/// The configuration entry whose absence stopped a connection attempt.
#[derive(Clone, Copy, Debug, PartialEq, Eq, Structural)]
pub enum MissingSetting {
    /// No authentication token has been stored yet.
    Token,
    /// No hardware identity has been assigned to this client.
    Identity,
}

/// Failures of the connection side of the client.
#[derive(Clone, Debug)]
pub enum ClientError {
    /// A setting required to open a session is absent; fatal to this attempt only.
    ConfigurationMissing(MissingSetting),
    /// The transport could not be opened, or broke while in use.
    TransportFailure,
    /// An inbound frame is not a well-formed envelope; it is dropped.
    MalformedEnvelope,
    /// The durable store could not be opened or written.
    StorageFailure,
    /// The session has ended, so its queue takes no more envelopes.
    ChannelClosed,
    /// An upload tracker failed.
    Uploader(UploaderError),
}

/// Failures of an upload tracker.
#[derive(Clone, Debug)]
pub enum UploaderError {
    /// The file to upload does not exist.
    FileNotFound,
    /// The tracker's durable store failed.
    Storage,
    /// The session that carries the tracker's envelopes has ended.
    ChannelClosed,
    /// A part index at or beyond the number of parts.
    PartOutOfRange,
    /// Traffic other than a join was attempted before the join was sent.
    NotJoined,
    /// A protocol feature this client does not handle.
    NotImplemented,
    /// An invariant of the tracker was broken; the text says which.
    Internal(String),
}

} // verus!
