use vstd::prelude::*;

verus! {

/// The failure modes of the protocol engine.
#[derive(Clone, Copy, Debug, PartialEq, Eq, Structural)]
pub enum Error {
    /// The supplied credential holds several pairs and none is keyed `_U`.
    CredentialNotFound,
    /// A transport-level failure (HTTPS or websocket).
    ProtocolError,
    /// A mandatory JSON body could not be decoded.
    DecodeError,
    /// The handshake's mandatory first read never arrived.
    InitError,
    /// A turn was requested while a previous turn still holds the connection.
    Busy,
    /// A write was attempted with no open connection.
    NotConnected,
}

} // verus!
