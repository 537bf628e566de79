//! One connection's session as a state machine: the caller performs each
//! action and reports what happened as the next event.
use vstd::prelude::*;

verus! {

#[derive(Clone, Copy, Debug, PartialEq, Eq, Structural)]
pub enum Phase {
    /// Transport split, outbound channel and connection id made.
    Connecting,
    /// Visible in the connection registry; waiting for the workspace.
    Registered,
    /// Initial sync sent or on its way; serving inbound messages.
    Syncing,
    /// Terminal.
    Closed,
}

/// An inbound frame: only binary frames carry payloads.
pub enum Frame {
    Binary(Vec<u8>),
    Other,
}

/// What the fault boundary around one decode call produced.
pub enum DecodeOutcome {
    /// The decoder returned these replies, to be sent in order.
    Replies(Vec<Vec<u8>>),
    /// The decoder faulted on this message; it is dropped.
    Fault,
}

pub enum Event {
    /// The connection was accepted.
    Accepted,
    /// The workspace's document could not be obtained.
    AcquireFailed,
    /// The document was obtained and subscribed to; this is its full-sync
    /// payload, if it could produce one.
    InitPayload(Option<Vec<u8>>),
    /// Whether enqueueing onto the session's own outbound channel succeeded.
    Sent(bool),
    /// A frame arrived from the client.
    Inbound(Frame),
    /// The decode of the last binary frame finished.
    Decoded(DecodeOutcome),
    /// The client's inbound stream ended.
    StreamEnded,
}

pub enum Action {
    /// Insert (workspace, conn) into the connection registry, start the
    /// outbound pump and the persistence task, then obtain the document.
    Register,
    /// Enqueue the full-sync payload onto the session's own channel.
    SendInit(Vec<u8>),
    /// Enqueue these replies, in order, onto the session's own channel.
    SendReplies(Vec<Vec<u8>>),
    /// Decode this payload under the document's lock, inside the fault boundary.
    Decode(Vec<u8>),
    /// Remove (workspace, conn) from the connection registry.
    Unregister,
    /// Nothing to do; wait for the next event.
    Idle,
}

/// The phase after `ev` arrives in phase `p`.
pub open spec fn next_phase(p: Phase, ev: Event) -> Phase {
    match (p, ev) {
        (Phase::Connecting, Event::Accepted) => Phase::Registered,
        (Phase::Connecting, Event::StreamEnded) => Phase::Closed,
        (Phase::Registered, Event::AcquireFailed) => Phase::Closed,
        (Phase::Registered, Event::InitPayload(Some(_))) => Phase::Syncing,
        (Phase::Registered, Event::InitPayload(None)) => Phase::Closed,
        (Phase::Registered, Event::StreamEnded) => Phase::Closed,
        (Phase::Syncing, Event::Sent(false)) => Phase::Closed,
        (Phase::Syncing, Event::StreamEnded) => Phase::Closed,
        _ => p,
    }
}

/// The action owed when `ev` arrives in phase `p`.
pub open spec fn action_of(p: Phase, ev: Event) -> Action {
    match (p, ev) {
        (Phase::Connecting, Event::Accepted) => Action::Register,
        (Phase::Registered, Event::AcquireFailed) => Action::Unregister,
        (Phase::Registered, Event::InitPayload(Some(init))) => Action::SendInit(init),
        (Phase::Registered, Event::InitPayload(None)) => Action::Unregister,
        (Phase::Registered, Event::StreamEnded) => Action::Unregister,
        (Phase::Syncing, Event::Sent(false)) => Action::Unregister,
        (Phase::Syncing, Event::StreamEnded) => Action::Unregister,
        (Phase::Syncing, Event::Inbound(Frame::Binary(b))) => Action::Decode(b),
        (Phase::Syncing, Event::Decoded(DecodeOutcome::Replies(v))) => Action::SendReplies(v),
        _ => Action::Idle,
    }
}

/// Relies on uuid::Uuid::new_v4 and its Display impl: a fresh random id,
/// written in the hyphenated form of 36 characters. (uuid panics only when the
/// system's random source fails.)
#[verifier::external_body]
fn fresh_connection_id() -> (r: String)
    ensures
        r@.len() == 36,
{
    uuid::Uuid::new_v4().to_string()
}

/// The state of one connection's session.
pub struct Session {
    workspace: String,
    conn: String,
    phase: Phase,
}

impl Session {
    pub closed spec fn spec_workspace(&self) -> Seq<char> {
        self.workspace@
    }

    pub closed spec fn spec_conn(&self) -> Seq<char> {
        self.conn@
    }

    pub closed spec fn spec_phase(&self) -> Phase {
        self.phase
    }

    /// A session for a connection to `workspace`, with a fresh connection id.
    pub fn new(workspace: String) -> (r: Session)
        ensures
            r.spec_phase() == Phase::Connecting,
            r.spec_workspace() == workspace@,
            r.spec_conn().len() == 36,
    {
        Session { workspace, conn: fresh_connection_id(), phase: Phase::Connecting }
    }

    /// A session with a connection id chosen by the caller.
    pub fn with_conn(workspace: String, conn: String) -> (r: Session)
        ensures
            r.spec_phase() == Phase::Connecting,
            r.spec_workspace() == workspace@,
            r.spec_conn() == conn@,
    {
        Session { workspace, conn, phase: Phase::Connecting }
    }

    pub fn workspace(&self) -> (r: &String)
        ensures
            r@ == self.spec_workspace(),
    {
        &self.workspace
    }

    pub fn conn(&self) -> (r: &String)
        ensures
            r@ == self.spec_conn(),
    {
        &self.conn
    }

    pub fn phase(&self) -> (r: Phase)
        ensures
            r == self.spec_phase(),
    {
        self.phase
    }

    /// Takes in one event: moves to the next phase and returns the action owed.
    pub fn step(&mut self, ev: Event) -> (r: Action)
        ensures
            final(self).spec_phase() == next_phase(old(self).spec_phase(), ev),
            r == action_of(old(self).spec_phase(), ev),
            final(self).spec_workspace() == old(self).spec_workspace(),
            final(self).spec_conn() == old(self).spec_conn(),
    {
        match self.phase {
            Phase::Connecting => match ev {
                Event::Accepted => {
                    self.phase = Phase::Registered;
                    Action::Register
                },
                Event::StreamEnded => {
                    self.phase = Phase::Closed;
                    Action::Idle
                },
                _ => Action::Idle,
            },
            Phase::Registered => match ev {
                Event::InitPayload(Some(init)) => {
                    self.phase = Phase::Syncing;
                    Action::SendInit(init)
                },
                Event::AcquireFailed | Event::InitPayload(None) | Event::StreamEnded => {
                    self.phase = Phase::Closed;
                    Action::Unregister
                },
                _ => Action::Idle,
            },
            Phase::Syncing => match ev {
                Event::Sent(false) | Event::StreamEnded => {
                    self.phase = Phase::Closed;
                    Action::Unregister
                },
                Event::Inbound(Frame::Binary(b)) => Action::Decode(b),
                Event::Decoded(DecodeOutcome::Replies(v)) => Action::SendReplies(v),
                _ => Action::Idle,
            },
            Phase::Closed => Action::Idle,
        }
    }
}

/// A decode fault does not end the session: the faulty message is dropped,
/// the session stays in `Syncing`, and the next binary message is decoded and
/// its replies sent as usual.
pub proof fn lemma_decode_fault_contained(payload: Vec<u8>, replies: Vec<Vec<u8>>)
    ensures
        next_phase(Phase::Syncing, Event::Decoded(DecodeOutcome::Fault)) == Phase::Syncing,
        action_of(Phase::Syncing, Event::Decoded(DecodeOutcome::Fault)) is Idle,
        next_phase(Phase::Syncing, Event::Inbound(Frame::Binary(payload))) == Phase::Syncing,
        action_of(Phase::Syncing, Event::Inbound(Frame::Binary(payload))) == Action::Decode(payload),
        next_phase(Phase::Syncing, Event::Decoded(DecodeOutcome::Replies(replies))) == Phase::Syncing,
        action_of(Phase::Syncing, Event::Decoded(DecodeOutcome::Replies(replies))) == Action::SendReplies(
            replies,
        ),
{
}

/// When the inbound stream of a registered session ends, the session closes
/// and its registration is removed; a closed session does nothing more.
pub proof fn lemma_stream_end_unregisters(p: Phase, ev: Event)
    ensures
        (p == Phase::Registered || p == Phase::Syncing) ==> next_phase(p, Event::StreamEnded)
            == Phase::Closed && action_of(p, Event::StreamEnded) is Unregister,
        p == Phase::Closed ==> next_phase(p, ev) == Phase::Closed && action_of(p, ev) is Idle,
{
}

} // verus!
