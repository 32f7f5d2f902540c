//! The per-client session: a state machine that pulls from the distribution
//! channel and decides what the connection handler must write next. One
//! session exists per connected client, with a fully independent lifecycle:
//! its failure touches nothing but itself.
//!
//! Lifecycle: `Connected` → (emit the HTTP header) → `Streaming` → repeat
//! `poll` → `Closed` on end of stream, or `Failed` on the first write error.
use vstd::prelude::*;

use crate::channel::Channel;
use crate::channel::ChannelModel;
use crate::channel::ReadModel;
use crate::channel::ReadOutcome;
use crate::channel::read_model;
use crate::framing::Part;
use crate::framing::build_part;
use crate::framing::part_wf;
use crate::framing::response_header;
use crate::framing::spec_response_header;

verus! {

/// The phases of one client's streaming connection.
#[derive(Clone, Copy, PartialEq, Eq, Structural, Debug)]
pub enum SessionState {
    /// Accepted, HTTP response header not yet emitted.
    Connected,
    /// Header emitted; frames are being delivered.
    Streaming,
    /// Ended gracefully: the channel signalled end of stream.
    Closed,
    /// Ended by a socket write failure; the client must reconnect.
    Failed,
}

/// Mathematical state of a session: its phase and the sequence number of the
/// newest frame delivered to it (zero before the first).
pub struct SessionModel {
    /// The phase of the connection's lifecycle.
    pub state: SessionState,
    /// Sequence number of the newest frame this session has written.
    pub last_seen: nat,
}

/// What the connection handler must do after one `poll`.
pub enum SessionAction {
    /// Write this part to the socket — head, body, tail, in that order —
    /// then flush, and report a failure through `on_write_failure`.
    Send(Part),
    /// Nothing new yet: block until the producer publishes or closes, then
    /// poll again.
    Wait,
    /// The stream has ended; write nothing more and drop the connection.
    End,
}

/// How one `poll` relates the session's state before and after to the
/// channel it read and the action it returned: a fresh frame becomes a
/// well-formed part and advances `last_seen` to the frame's number; an open
/// but quiet channel leaves the session unchanged and asks the caller to
/// wait; a closed, exhausted channel moves the session to `Closed`.
pub open spec fn poll_rel(
    pre: SessionModel,
    chan: ChannelModel,
    post: SessionModel,
    a: SessionAction,
) -> bool {
    match read_model(chan, pre.last_seen) {
        ReadModel::Delivered(bytes, seq) => {
            &&& a matches SessionAction::Send(p) && part_wf(p, bytes)
            &&& post == (SessionModel { state: SessionState::Streaming, last_seen: seq })
        },
        ReadModel::Blocked => {
            &&& a is Wait
            &&& post == pre
        },
        ReadModel::Ended => {
            &&& a is End
            &&& post == (SessionModel { state: SessionState::Closed, last_seen: pre.last_seen })
        },
    }
}

/// One client's session.
pub struct Session {
    state: SessionState,
    last_seen: u64,
}

impl View for Session {
    type V = SessionModel;

    closed spec fn view(&self) -> SessionModel {
        SessionModel { state: self.state, last_seen: self.last_seen as nat }
    }
}

impl Session {
    /// A freshly accepted connection: no frame delivered yet.
    pub fn new() -> (s: Session)
        ensures
            s@ == (SessionModel { state: SessionState::Connected, last_seen: 0 }),
    {
        Session { state: SessionState::Connected, last_seen: 0 }
    }

    /// The session's current phase.
    pub fn state(&self) -> (st: SessionState)
        ensures
            st == self@.state,
    {
        self.state
    }

    /// Sequence number of the newest frame delivered to this session.
    pub fn last_seen(&self) -> (n: u64)
        ensures
            n as nat == self@.last_seen,
    {
        self.last_seen
    }

    /// Enters the streaming phase and returns the HTTP response header the
    /// handler must write first.
    pub fn begin_streaming(&mut self) -> (header: String)
        requires
            old(self)@.state is Connected,
        ensures
            final(self)@ == (SessionModel {
                state: SessionState::Streaming,
                last_seen: old(self)@.last_seen,
            }),
            header@ == spec_response_header(),
    {
        self.state = SessionState::Streaming;
        response_header()
    }

    /// One step of the streaming loop: reads the channel once and returns
    /// the action to perform. Delivered frames arrive in strictly increasing
    /// sequence order — an older frame is never handed out after a newer one.
    pub fn poll(&mut self, chan: &Channel) -> (a: SessionAction)
        requires
            old(self)@.state is Streaming,
        ensures
            poll_rel(old(self)@, chan@, final(self)@, a),
            final(self)@.last_seen >= old(self)@.last_seen,
            a matches SessionAction::Send(_) ==> final(self)@.last_seen > old(self)@.last_seen,
    {
        match chan.read_since(self.last_seen) {
            ReadOutcome::Frame { bytes, seq } => {
                self.last_seen = seq;
                SessionAction::Send(build_part(bytes))
            },
            ReadOutcome::NotYet => SessionAction::Wait,
            ReadOutcome::EndOfStream => {
                self.state = SessionState::Closed;
                SessionAction::End
            },
        }
    }

    /// Records a socket write failure: the session is over. The failure is
    /// local by construction — this touches one session and nothing else;
    /// neither the channel nor any other session is reachable from here.
    pub fn on_write_failure(&mut self)
        requires
            old(self)@.state is Streaming,
        ensures
            final(self)@ == (SessionModel {
                state: SessionState::Failed,
                last_seen: old(self)@.last_seen,
            }),
    {
        self.state = SessionState::Failed;
    }
}

} // verus!
