use vstd::prelude::*;

verus! {

/// Why a request to the client was refused.
#[derive(Clone, Copy, Debug, PartialEq, Eq, Structural)]
pub enum KircError {
    /// No server is known under the given id (connection management).
    ServerNotFound,
    /// No server is known under the given id (channel and message requests).
    CantFindServer,
    /// The server is already connecting, registering or connected.
    AlreadyActive,
    /// The application is shutting down and takes no new connections.
    ShuttingDown,
    /// The server has no open connection to send a command over.
    NotConnected,
    /// The connection task no longer takes commands.
    SendFailed,
    /// The target channel is locked against sending.
    ChannelLocked,
    /// No file was set to persist the state to.
    NoPersistencePath,
    /// An event was emitted before its payload was set.
    MissingPayload,
}

/// The text shown to the user for each error.
pub open spec fn error_text(e: KircError) -> Seq<char> {
    match e {
        KircError::ServerNotFound => "Server not found"@,
        KircError::CantFindServer => "Can't find server"@,
        KircError::AlreadyActive => "Already connecting or connected"@,
        KircError::ShuttingDown => "Application is shutting down"@,
        KircError::NotConnected => "Server not connected"@,
        KircError::SendFailed => "Failed to send: channel closed"@,
        KircError::ChannelLocked => "Channel is locked"@,
        KircError::NoPersistencePath => "No persistence path was provided"@,
        KircError::MissingPayload => "Event payload is missing"@,
    }
}

impl KircError {
    pub fn message(&self) -> (s: String)
        ensures
            s@ == error_text(*self),
    {
        match self {
            KircError::ServerNotFound => String::from_str("Server not found"),
            KircError::CantFindServer => String::from_str("Can't find server"),
            KircError::AlreadyActive => String::from_str("Already connecting or connected"),
            KircError::ShuttingDown => String::from_str("Application is shutting down"),
            KircError::NotConnected => String::from_str("Server not connected"),
            KircError::SendFailed => String::from_str("Failed to send: channel closed"),
            KircError::ChannelLocked => String::from_str("Channel is locked"),
            KircError::NoPersistencePath => String::from_str("No persistence path was provided"),
            KircError::MissingPayload => String::from_str("Event payload is missing"),
        }
    }
}

} // verus!
