//! The turn protocol state machine.  One turn walks a fixed sequence:
//! open the websocket, send the protocol-negotiation frame, read and
//! discard the mandatory acknowledgement, send the keep-alive frame,
//! send the turn payload, then stream the reply.  The machine holds only
//! the decisions; the driver performs the connecting, writing and
//! reading, and feeds the result of each step back as an event.

use crate::errors::Error;
use vstd::prelude::*;

verus! {

/// Where a turn stands in its fixed sequence.
#[derive(Clone, Copy, Debug, PartialEq, Eq, Structural)]
pub enum TurnPhase {
    /// No turn in flight.
    Idle,
    /// The websocket is being opened.
    Connecting,
    /// The protocol-negotiation frame is being written.
    SendingNegotiation,
    /// Waiting for the mandatory first inbound message.
    AwaitingAck,
    /// The keep-alive frame is being written.
    SendingKeepAlive,
    /// The turn payload frame is being written.
    SendingTurn,
    /// The reply is streaming; inbound frames drive the demultiplexer.
    Streaming,
}

/// What the driver reports back after performing the current step.
#[derive(Clone, Copy, Debug, PartialEq, Eq, Structural)]
pub enum TurnEvent {
    /// A new turn was requested.
    Start,
    /// The websocket opened; its write half is stored in the slot.
    Connected,
    /// The websocket could not be opened.
    ConnectFailed,
    /// The pending outbound frame was written.
    Written,
    /// The pending outbound frame could not be written.
    WriteFailed,
    /// The mandatory first inbound message arrived.
    AckReceived,
    /// The inbound stream ended before the first message arrived.
    AckMissing,
    /// The inbound stream ended.
    StreamEnded,
}

/// What the driver must do next.
#[derive(Clone, Copy, Debug, PartialEq, Eq, Structural)]
pub enum TurnAction {
    /// Open the websocket to the streaming endpoint.
    OpenSocket,
    /// Write the protocol-negotiation frame.
    SendNegotiation,
    /// Read and discard the mandatory first inbound message.
    ReadAck,
    /// Write the keep-alive frame.
    SendKeepAlive,
    /// Write the turn payload frame, then clear the turn-start flag.
    SendTurn,
    /// Hand the read half to the demultiplexer and return the event
    /// stream to the caller.
    DeliverStream,
    /// Force the connection slot empty so a later turn can proceed.
    ReleaseConnection,
    /// Surface the error to the caller; the slot must be left empty.
    Fail(Error),
    /// The event does not belong to this phase; do nothing.
    Ignore,
}

/// The transition table: the successor phase and the action owed for
/// each phase and event.
pub open spec fn next_step(phase: TurnPhase, event: TurnEvent) -> (TurnPhase, TurnAction) {
    match (phase, event) {
        (TurnPhase::Idle, TurnEvent::Start) => (TurnPhase::Connecting, TurnAction::OpenSocket),
        (TurnPhase::Connecting, TurnEvent::Connected) => (
            TurnPhase::SendingNegotiation,
            TurnAction::SendNegotiation,
        ),
        (TurnPhase::Connecting, TurnEvent::ConnectFailed) => (
            TurnPhase::Idle,
            TurnAction::Fail(Error::ProtocolError),
        ),
        (TurnPhase::SendingNegotiation, TurnEvent::Written) => (
            TurnPhase::AwaitingAck,
            TurnAction::ReadAck,
        ),
        (TurnPhase::SendingNegotiation, TurnEvent::WriteFailed) => (
            TurnPhase::Idle,
            TurnAction::Fail(Error::ProtocolError),
        ),
        (TurnPhase::AwaitingAck, TurnEvent::AckReceived) => (
            TurnPhase::SendingKeepAlive,
            TurnAction::SendKeepAlive,
        ),
        (TurnPhase::AwaitingAck, TurnEvent::AckMissing) => (
            TurnPhase::Idle,
            TurnAction::Fail(Error::InitError),
        ),
        (TurnPhase::SendingKeepAlive, TurnEvent::Written) => (
            TurnPhase::SendingTurn,
            TurnAction::SendTurn,
        ),
        (TurnPhase::SendingKeepAlive, TurnEvent::WriteFailed) => (
            TurnPhase::Idle,
            TurnAction::Fail(Error::ProtocolError),
        ),
        (TurnPhase::SendingTurn, TurnEvent::Written) => (
            TurnPhase::Streaming,
            TurnAction::DeliverStream,
        ),
        (TurnPhase::SendingTurn, TurnEvent::WriteFailed) => (
            TurnPhase::Idle,
            TurnAction::Fail(Error::ProtocolError),
        ),
        (TurnPhase::Streaming, TurnEvent::StreamEnded) => (
            TurnPhase::Idle,
            TurnAction::ReleaseConnection,
        ),
        _ => (phase, TurnAction::Ignore),
    }
}

/// Advance the machine by one event.  Every failure leads back to
/// `Idle`, so the conversation can start a fresh turn once the driver
/// has released the connection slot.
pub fn step(phase: TurnPhase, event: TurnEvent) -> (r: (TurnPhase, TurnAction))
    ensures
        r == next_step(phase, event),
        r.1 matches TurnAction::Fail(_) ==> r.0 == TurnPhase::Idle,
        r.1 == TurnAction::ReleaseConnection ==> r.0 == TurnPhase::Idle,
        r.1 == TurnAction::Ignore ==> r.0 == phase,
{
    match (phase, event) {
        (TurnPhase::Idle, TurnEvent::Start) => (TurnPhase::Connecting, TurnAction::OpenSocket),
        (TurnPhase::Connecting, TurnEvent::Connected) => (
            TurnPhase::SendingNegotiation,
            TurnAction::SendNegotiation,
        ),
        (TurnPhase::Connecting, TurnEvent::ConnectFailed) => (
            TurnPhase::Idle,
            TurnAction::Fail(Error::ProtocolError),
        ),
        (TurnPhase::SendingNegotiation, TurnEvent::Written) => (
            TurnPhase::AwaitingAck,
            TurnAction::ReadAck,
        ),
        (TurnPhase::SendingNegotiation, TurnEvent::WriteFailed) => (
            TurnPhase::Idle,
            TurnAction::Fail(Error::ProtocolError),
        ),
        (TurnPhase::AwaitingAck, TurnEvent::AckReceived) => (
            TurnPhase::SendingKeepAlive,
            TurnAction::SendKeepAlive,
        ),
        (TurnPhase::AwaitingAck, TurnEvent::AckMissing) => (
            TurnPhase::Idle,
            TurnAction::Fail(Error::InitError),
        ),
        (TurnPhase::SendingKeepAlive, TurnEvent::Written) => (
            TurnPhase::SendingTurn,
            TurnAction::SendTurn,
        ),
        (TurnPhase::SendingKeepAlive, TurnEvent::WriteFailed) => (
            TurnPhase::Idle,
            TurnAction::Fail(Error::ProtocolError),
        ),
        (TurnPhase::SendingTurn, TurnEvent::Written) => (
            TurnPhase::Streaming,
            TurnAction::DeliverStream,
        ),
        (TurnPhase::SendingTurn, TurnEvent::WriteFailed) => (
            TurnPhase::Idle,
            TurnAction::Fail(Error::ProtocolError),
        ),
        (TurnPhase::Streaming, TurnEvent::StreamEnded) => (
            TurnPhase::Idle,
            TurnAction::ReleaseConnection,
        ),
        _ => (phase, TurnAction::Ignore),
    }
}

} // verus!
