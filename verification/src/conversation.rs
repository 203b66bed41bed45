//! The conversation handle: the long-lived object the caller holds.  It
//! owns the identity triple, the turn-start flag, and the exclusive
//! connection slot whose occupancy is the single-flight busy gate — at
//! most one turn may be in flight per conversation at any time.

use crate::bootstrap::ConversationIdentity;
use crate::errors::Error;
use vstd::prelude::*;

verus! {

/// A conversation with the chat service.  `W` is the write half of the
/// streaming connection; the handle never looks inside it, it only
/// guards the slot that holds it.
pub struct Conversation<W> {
    id: String,
    client_id: String,
    signature: String,
    is_start_of_session: bool,
    writer: Option<W>,
}

impl<W> Conversation<W> {
    /// The conversation identifier.
    pub closed spec fn spec_id(&self) -> Seq<char> {
        self.id@
    }

    /// The client identifier.
    pub closed spec fn spec_client_id(&self) -> Seq<char> {
        self.client_id@
    }

    /// The conversation signature.
    pub closed spec fn spec_signature(&self) -> Seq<char> {
        self.signature@
    }

    /// Whether the next turn is the first of the session.
    pub closed spec fn spec_is_start_of_session(&self) -> bool {
        self.is_start_of_session
    }

    /// The connection slot: empty, or the writer of the live connection.
    pub closed spec fn spec_writer(&self) -> Option<W> {
        self.writer
    }

    /// Whether a turn is in flight: the slot holds a writer.
    pub open spec fn spec_is_busy(&self) -> bool {
        self.spec_writer() is Some
    }

    /// Create a new conversation from a freshly bootstrapped identity:
    /// no connection, and the next turn starts the session.
    pub fn new(identity: ConversationIdentity) -> (r: Self)
        ensures
            r.spec_id() == identity.conversation_id@,
            r.spec_client_id() == identity.client_id@,
            r.spec_signature() == identity.conversation_signature@,
            r.spec_is_start_of_session(),
            !r.spec_is_busy(),
    {
        Conversation {
            id: identity.conversation_id,
            client_id: identity.client_id,
            signature: identity.conversation_signature,
            is_start_of_session: true,
            writer: None,
        }
    }

    /// Get the conversation ID.
    pub fn id(&self) -> (r: &str)
        ensures
            r@ == self.spec_id(),
    {
        self.id.as_str()
    }

    /// Get the client ID.
    pub fn client_id(&self) -> (r: &str)
        ensures
            r@ == self.spec_client_id(),
    {
        self.client_id.as_str()
    }

    /// Get the conversation signature.
    pub fn signature(&self) -> (r: &str)
        ensures
            r@ == self.spec_signature(),
    {
        self.signature.as_str()
    }

    /// Returns true if the next turn will be the start of a new session.
    pub fn is_start_of_session(&self) -> (r: bool)
        ensures
            r == self.spec_is_start_of_session(),
    {
        self.is_start_of_session
    }

    /// Returns true if there's an active connection: the slot holds a
    /// writer.
    pub fn is_busy(&self) -> (r: bool)
        ensures
            r == self.spec_is_busy(),
    {
        self.writer.is_some()
    }

    /// The busy gate: a turn may begin only while the slot is empty, so
    /// a second turn requested while one is outstanding fails fast with
    /// `Busy` before any socket operation.
    pub fn check_not_busy(&self) -> (r: Result<(), Error>)
        ensures
            r is Ok <==> !self.spec_is_busy(),
            r is Err ==> r->Err_0 == Error::Busy,
    {
        if self.writer.is_some() {
            Err(Error::Busy)
        } else {
            Ok(())
        }
    }

    /// Store the write half of a freshly opened connection.  The slot
    /// must be empty; storing into an occupied slot fails with `Busy`
    /// and changes nothing, which upholds the single-flight guarantee.
    pub fn store_writer(&mut self, w: W) -> (r: Result<(), Error>)
        ensures
            old(self).spec_is_busy() ==> r == Result::<(), Error>::Err(Error::Busy) && *final(self)
                == *old(self),
            !old(self).spec_is_busy() ==> r is Ok && final(self).spec_writer() == Some(w),
            final(self).spec_id() == old(self).spec_id(),
            final(self).spec_client_id() == old(self).spec_client_id(),
            final(self).spec_signature() == old(self).spec_signature(),
            final(self).spec_is_start_of_session() == old(self).spec_is_start_of_session(),
    {
        if self.writer.is_some() {
            Err(Error::Busy)
        } else {
            self.writer = Some(w);
            Ok(())
        }
    }

    /// Take the writer out of the slot, leaving it empty.  The server's
    /// close instruction is served this way: the taken writer runs the
    /// close handshake exactly once, and the empty slot lets the next
    /// turn proceed.
    pub fn take_writer(&mut self) -> (r: Option<W>)
        ensures
            r == old(self).spec_writer(),
            !final(self).spec_is_busy(),
            final(self).spec_id() == old(self).spec_id(),
            final(self).spec_client_id() == old(self).spec_client_id(),
            final(self).spec_signature() == old(self).spec_signature(),
            final(self).spec_is_start_of_session() == old(self).spec_is_start_of_session(),
    {
        self.writer.take()
    }

    /// Take the writer out of the slot for an outbound write.  With no
    /// open connection the write cannot proceed: the defensive
    /// `NotConnected` error, unreachable while the turn protocol keeps
    /// the slot occupied between handshake steps.  The caller returns
    /// the writer with `store_writer` once the write is done.
    pub fn writer_for_send(&mut self) -> (r: Result<W, Error>)
        ensures
            old(self).spec_is_busy() ==> (r matches Ok(w) && old(self).spec_writer() == Some(w)),
            !old(self).spec_is_busy() ==> r == Result::<W, Error>::Err(Error::NotConnected),
            !final(self).spec_is_busy(),
            final(self).spec_id() == old(self).spec_id(),
            final(self).spec_client_id() == old(self).spec_client_id(),
            final(self).spec_signature() == old(self).spec_signature(),
            final(self).spec_is_start_of_session() == old(self).spec_is_start_of_session(),
    {
        match self.writer.take() {
            Some(w) => Ok(w),
            None => Err(Error::NotConnected),
        }
    }

    /// Force the slot empty, dropping any writer still in it.  Called
    /// when the inbound stream ends for any reason; idempotent.
    pub fn clear_writer(&mut self)
        ensures
            !final(self).spec_is_busy(),
            final(self).spec_id() == old(self).spec_id(),
            final(self).spec_client_id() == old(self).spec_client_id(),
            final(self).spec_signature() == old(self).spec_signature(),
            final(self).spec_is_start_of_session() == old(self).spec_is_start_of_session(),
    {
        self.writer = None;
    }

    /// Consume the turn-start flag.  Called once the turn payload frame
    /// has been written, irrespective of what later steps do: every
    /// turn after the first carries `isStartOfSession = false`, even if
    /// an intervening turn failed after this point.  Idempotent.
    pub fn mark_turn_sent(&mut self)
        ensures
            !final(self).spec_is_start_of_session(),
            final(self).spec_id() == old(self).spec_id(),
            final(self).spec_client_id() == old(self).spec_client_id(),
            final(self).spec_signature() == old(self).spec_signature(),
            final(self).spec_writer() == old(self).spec_writer(),
    {
        if self.is_start_of_session {
            self.is_start_of_session = false;
        }
    }
}

} // verus!
