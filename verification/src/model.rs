//! A transition-system model of the whole server and proofs of its
//! guarantees. The state gathers the frame source (as a count of capture
//! calls in flight), the capture loop's phase, the distribution channel, and
//! every session; each atomic step of any thread of control is one labelled
//! transition. The lemmas at the bottom establish the design's guarantees:
//! exclusive capture, strictly increasing delivery order per session,
//! isolation of a session's failure, a producer that no consumer can stall,
//! and a graceful, never-blocking end of stream.
use vstd::prelude::*;

use crate::channel::ChannelModel;
use crate::channel::ReadModel;
use crate::channel::close_model;
use crate::channel::initial_channel;
use crate::channel::publish_model;
use crate::channel::read_model;
use crate::session::SessionAction;
use crate::session::SessionModel;
use crate::session::SessionState;
use crate::session::poll_rel;

verus! {

/// Whether the capture loop is currently inside a call to the frame source.
pub enum CapturePhase {
    /// Between calls: encoding, publishing, or deciding.
    Idle,
    /// Inside a `capture` call on the device.
    Capturing,
}

/// The whole server at one instant.
pub struct SystemModel {
    /// Number of `capture` calls in flight on the frame source.
    pub calls_in_flight: nat,
    /// The capture loop's phase.
    pub phase: CapturePhase,
    /// The distribution channel.
    pub chan: ChannelModel,
    /// Every session that has connected, by its identifier.
    pub sessions: Map<nat, SessionModel>,
}

/// One atomic step of some thread of control, by its label.
pub enum Transition {
    /// The capture loop enters the frame source.
    CaptureBegin,
    /// The capture loop returns from the frame source.
    CaptureEnd,
    /// The capture loop publishes an encoded frame.
    Publish(Seq<u8>),
    /// The capture loop terminates and signals end of stream.
    CloseChannel,
    /// The supervisor accepts a connection and creates session `i`.
    Connect(nat),
    /// Session `i` emits its header and starts streaming.
    StartStream(nat),
    /// Session `i` receives the latest frame and writes it.
    Deliver(nat),
    /// Session `i`'s socket write fails.
    WriteFail(nat),
    /// Session `i` observes end of stream and closes.
    EndStream(nat),
}

/// The state before anything has happened: device untouched, channel empty,
/// no session yet.
pub open spec fn init(s: SystemModel) -> bool {
    &&& s.calls_in_flight == 0
    &&& s.phase is Idle
    &&& s.chan == initial_channel()
    &&& s.sessions == Map::<nat, SessionModel>::empty()
}

/// The capture loop enters the frame source. Only the capture loop has this
/// step, and only from its idle phase: the device is never entered twice.
pub open spec fn step_capture_begin(s: SystemModel, t: SystemModel) -> bool {
    &&& s.phase is Idle
    &&& t.calls_in_flight == s.calls_in_flight + 1
    &&& t.phase is Capturing
    &&& t.chan == s.chan
    &&& t.sessions == s.sessions
}

/// The capture loop returns from the frame source.
pub open spec fn step_capture_end(s: SystemModel, t: SystemModel) -> bool {
    &&& s.phase is Capturing
    &&& s.calls_in_flight >= 1
    &&& t.calls_in_flight == s.calls_in_flight - 1
    &&& t.phase is Idle
    &&& t.chan == s.chan
    &&& t.sessions == s.sessions
}

/// Whether the capture loop can publish right now. Note the arguments: the
/// producer's readiness is a function of its own phase and the channel
/// alone — no session state appears in it.
pub open spec fn publish_enabled(phase: CapturePhase, chan: ChannelModel) -> bool {
    &&& phase is Idle
    &&& !chan.closed
}

/// The capture loop publishes one encoded frame. Publication never waits on
/// a consumer: its guard is `publish_enabled`, which no session influences.
pub open spec fn step_publish(s: SystemModel, t: SystemModel, bytes: Seq<u8>) -> bool {
    &&& publish_enabled(s.phase, s.chan)
    &&& t.chan == publish_model(s.chan, bytes)
    &&& t.calls_in_flight == s.calls_in_flight
    &&& t.phase == s.phase
    &&& t.sessions == s.sessions
}

/// The capture loop terminates and signals end of stream.
pub open spec fn step_close_channel(s: SystemModel, t: SystemModel) -> bool {
    &&& s.phase is Idle
    &&& t.chan == close_model(s.chan)
    &&& t.calls_in_flight == s.calls_in_flight
    &&& t.phase == s.phase
    &&& t.sessions == s.sessions
}

/// The supervisor accepts a connection: a new session appears, touching
/// nothing else.
pub open spec fn step_connect(s: SystemModel, t: SystemModel, i: nat) -> bool {
    &&& !s.sessions.contains_key(i)
    &&& t.sessions == s.sessions.insert(
        i,
        SessionModel { state: SessionState::Connected, last_seen: 0 },
    )
    &&& t.calls_in_flight == s.calls_in_flight
    &&& t.phase == s.phase
    &&& t.chan == s.chan
}

/// Session `i` emits its HTTP header and starts streaming.
pub open spec fn step_start_stream(s: SystemModel, t: SystemModel, i: nat) -> bool {
    &&& s.sessions.contains_key(i)
    &&& s.sessions[i].state is Connected
    &&& t.sessions == s.sessions.insert(
        i,
        SessionModel { state: SessionState::Streaming, last_seen: s.sessions[i].last_seen },
    )
    &&& t.calls_in_flight == s.calls_in_flight
    &&& t.phase == s.phase
    &&& t.chan == s.chan
}

/// Session `i` reads a frame newer than any it has written and writes it:
/// its last-seen number jumps to the channel's current sequence number.
pub open spec fn step_deliver(s: SystemModel, t: SystemModel, i: nat) -> bool {
    &&& s.sessions.contains_key(i)
    &&& s.sessions[i].state is Streaming
    &&& read_model(s.chan, s.sessions[i].last_seen) is Delivered
    &&& t.sessions == s.sessions.insert(
        i,
        SessionModel { state: SessionState::Streaming, last_seen: s.chan.seq },
    )
    &&& t.calls_in_flight == s.calls_in_flight
    &&& t.phase == s.phase
    &&& t.chan == s.chan
}

/// Session `i`'s socket write fails: that session alone moves to `Failed`.
pub open spec fn step_write_fail(s: SystemModel, t: SystemModel, i: nat) -> bool {
    &&& s.sessions.contains_key(i)
    &&& s.sessions[i].state is Streaming
    &&& t.sessions == s.sessions.insert(
        i,
        SessionModel { state: SessionState::Failed, last_seen: s.sessions[i].last_seen },
    )
    &&& t.calls_in_flight == s.calls_in_flight
    &&& t.phase == s.phase
    &&& t.chan == s.chan
}

/// Session `i` observes end of stream — the channel is closed and holds
/// nothing it has not written — and closes gracefully.
pub open spec fn step_end_stream(s: SystemModel, t: SystemModel, i: nat) -> bool {
    &&& s.sessions.contains_key(i)
    &&& s.sessions[i].state is Streaming
    &&& read_model(s.chan, s.sessions[i].last_seen) is Ended
    &&& t.sessions == s.sessions.insert(
        i,
        SessionModel { state: SessionState::Closed, last_seen: s.sessions[i].last_seen },
    )
    &&& t.calls_in_flight == s.calls_in_flight
    &&& t.phase == s.phase
    &&& t.chan == s.chan
}

/// The step relation of the whole system.
pub open spec fn step(s: SystemModel, t: SystemModel, l: Transition) -> bool {
    match l {
        Transition::CaptureBegin => step_capture_begin(s, t),
        Transition::CaptureEnd => step_capture_end(s, t),
        Transition::Publish(bytes) => step_publish(s, t, bytes),
        Transition::CloseChannel => step_close_channel(s, t),
        Transition::Connect(i) => step_connect(s, t, i),
        Transition::StartStream(i) => step_start_stream(s, t, i),
        Transition::Deliver(i) => step_deliver(s, t, i),
        Transition::WriteFail(i) => step_write_fail(s, t, i),
        Transition::EndStream(i) => step_end_stream(s, t, i),
    }
}

/// A step taken by a session or by the supervisor — anything but the
/// capture loop's own four steps.
pub open spec fn is_session_step(l: Transition) -> bool {
    match l {
        Transition::Connect(_) => true,
        Transition::StartStream(_) => true,
        Transition::Deliver(_) => true,
        Transition::WriteFail(_) => true,
        Transition::EndStream(_) => true,
        _ => false,
    }
}

/// The system's inductive invariant: capture calls in flight mirror the
/// capture loop's phase exactly.
pub open spec fn inv(s: SystemModel) -> bool {
    s.calls_in_flight == (if s.phase is Capturing {
        1nat
    } else {
        0nat
    })
}

/// The invariant holds initially.
pub proof fn lemma_init_inv(s: SystemModel)
    requires
        init(s),
    ensures
        inv(s),
{
}

/// Exclusivity: the invariant is preserved by every step, and under it at
/// most one `capture` call is ever in flight on the frame source.
pub proof fn lemma_capture_exclusive(s: SystemModel, t: SystemModel, l: Transition)
    requires
        inv(s),
        step(s, t, l),
    ensures
        inv(t),
        t.calls_in_flight <= 1,
{
}

/// No session ever touches the frame source: every step of a session or of
/// the supervisor leaves the capture loop's phase and the device's in-flight
/// count exactly as they were.
pub proof fn lemma_sessions_never_capture(s: SystemModel, t: SystemModel, l: Transition)
    requires
        step(s, t, l),
        is_session_step(l),
    ensures
        t.calls_in_flight == s.calls_in_flight,
        t.phase == s.phase,
{
}

/// No stale reorder: a delivery to session `i` strictly increases that
/// session's last-seen sequence number — the numbers of the frames one
/// session writes are strictly increasing.
pub proof fn lemma_no_stale_reorder(s: SystemModel, t: SystemModel, i: nat)
    requires
        step(s, t, Transition::Deliver(i)),
    ensures
        t.sessions[i].last_seen > s.sessions[i].last_seen,
        t.sessions[i].last_seen == s.chan.seq,
{
}

/// A session's last-seen sequence number never decreases under any step of
/// the whole system.
pub proof fn lemma_last_seen_monotonic(s: SystemModel, t: SystemModel, l: Transition, i: nat)
    requires
        step(s, t, l),
        s.sessions.contains_key(i),
    ensures
        t.sessions.contains_key(i),
        t.sessions[i].last_seen >= s.sessions[i].last_seen,
{
}

/// Isolation: a write failure in session `i` changes nothing but session
/// `i`. The channel, the capture loop, the device, and every sibling
/// session are untouched, and the producer is ready to publish afterwards
/// exactly when it was before.
pub proof fn lemma_failure_isolated(s: SystemModel, t: SystemModel, i: nat)
    requires
        step(s, t, Transition::WriteFail(i)),
    ensures
        t.chan == s.chan,
        t.phase == s.phase,
        t.calls_in_flight == s.calls_in_flight,
        forall|j: nat|
            j != i && s.sessions.contains_key(j) ==> t.sessions.contains_key(j)
                && t.sessions[j] == s.sessions[j],
        publish_enabled(t.phase, t.chan) == publish_enabled(s.phase, s.chan),
{
}

/// No producer stall: whether the capture loop can publish depends only on
/// its own phase and the channel. Two systems whose sessions differ in any
/// way — stalled, failed, absent — but agree on phase and channel can
/// publish the same frames: a consumer that stops consuming cannot slow the
/// producer's sequence counter.
pub proof fn lemma_no_producer_stall(
    s1: SystemModel,
    t1: SystemModel,
    s2: SystemModel,
    bytes: Seq<u8>,
)
    requires
        step(s1, t1, Transition::Publish(bytes)),
        s2.phase == s1.phase,
        s2.chan == s1.chan,
    ensures
        step(
            s2,
            SystemModel {
                calls_in_flight: s2.calls_in_flight,
                phase: s2.phase,
                chan: publish_model(s2.chan, bytes),
                sessions: s2.sessions,
            },
            Transition::Publish(bytes),
        ),
{
}

/// Once the channel is closed it stays closed under every step: end of
/// stream is permanent.
pub proof fn lemma_close_permanent(s: SystemModel, t: SystemModel, l: Transition)
    requires
        step(s, t, l),
        s.chan.closed,
    ensures
        t.chan.closed,
{
}

/// A closed channel never asks a reader to wait: every read either delivers
/// a frame or reports end of stream.
pub proof fn lemma_closed_never_blocks(c: ChannelModel, last_seen: nat)
    requires
        c.closed,
    ensures
        !(read_model(c, last_seen) is Blocked),
{
}

/// The executable layer refines the model: a `Session::poll` that hands out
/// a part is exactly the model's `Deliver` step for that session, taken on
/// a system whose channel and session agree with what `poll` saw.
pub proof fn lemma_poll_send_refines_deliver(
    s: SystemModel,
    i: nat,
    post: SessionModel,
    a: SessionAction,
)
    requires
        s.sessions.contains_key(i),
        s.sessions[i].state is Streaming,
        poll_rel(s.sessions[i], s.chan, post, a),
        a matches SessionAction::Send(_),
    ensures
        step(
            s,
            SystemModel {
                calls_in_flight: s.calls_in_flight,
                phase: s.phase,
                chan: s.chan,
                sessions: s.sessions.insert(i, post),
            },
            Transition::Deliver(i),
        ),
{
}

/// A `Session::poll` that reports end of stream is exactly the model's
/// `EndStream` step.
pub proof fn lemma_poll_end_refines_end_stream(
    s: SystemModel,
    i: nat,
    post: SessionModel,
    a: SessionAction,
)
    requires
        s.sessions.contains_key(i),
        s.sessions[i].state is Streaming,
        poll_rel(s.sessions[i], s.chan, post, a),
        a is End,
    ensures
        step(
            s,
            SystemModel {
                calls_in_flight: s.calls_in_flight,
                phase: s.phase,
                chan: s.chan,
                sessions: s.sessions.insert(i, post),
            },
            Transition::EndStream(i),
        ),
{
}

/// A `Session::poll` that asks its caller to wait changes nothing: the
/// session stutters, taking no step of the model at all.
pub proof fn lemma_poll_wait_stutters(s: SystemModel, i: nat, post: SessionModel, a: SessionAction)
    requires
        s.sessions.contains_key(i),
        s.sessions[i].state is Streaming,
        poll_rel(s.sessions[i], s.chan, post, a),
        a is Wait,
    ensures
        post == s.sessions[i],
        s.sessions.insert(i, post) == s.sessions,
{
    assert(s.sessions.insert(i, post) =~= s.sessions);
}

/// A `Session::on_write_failure` is exactly the model's `WriteFail` step.
pub proof fn lemma_write_failure_refines(s: SystemModel, i: nat, post: SessionModel)
    requires
        s.sessions.contains_key(i),
        s.sessions[i].state is Streaming,
        post == (SessionModel { state: SessionState::Failed, last_seen: s.sessions[i].last_seen }),
    ensures
        step(
            s,
            SystemModel {
                calls_in_flight: s.calls_in_flight,
                phase: s.phase,
                chan: s.chan,
                sessions: s.sessions.insert(i, post),
            },
            Transition::WriteFail(i),
        ),
{
}

/// A `Channel::publish` by an idle capture loop is exactly the model's
/// `Publish` step.
pub proof fn lemma_publish_refines(s: SystemModel, bytes: Seq<u8>)
    requires
        publish_enabled(s.phase, s.chan),
    ensures
        step(
            s,
            SystemModel {
                calls_in_flight: s.calls_in_flight,
                phase: s.phase,
                chan: publish_model(s.chan, bytes),
                sessions: s.sessions,
            },
            Transition::Publish(bytes),
        ),
{
}

/// A `Channel::close` by an idle capture loop is exactly the model's
/// `CloseChannel` step.
pub proof fn lemma_close_refines(s: SystemModel)
    requires
        s.phase is Idle,
    ensures
        step(
            s,
            SystemModel {
                calls_in_flight: s.calls_in_flight,
                phase: s.phase,
                chan: close_model(s.chan),
                sessions: s.sessions,
            },
            Transition::CloseChannel,
        ),
{
}

/// Graceful end of stream: once the channel is closed, every streaming
/// session has a step it can take at once — it either still has the final
/// frame to deliver or can close — so no session stays blocked.
pub proof fn lemma_graceful_end(s: SystemModel, i: nat)
    requires
        s.chan.closed,
        s.sessions.contains_key(i),
        s.sessions[i].state is Streaming,
    ensures
        (exists|t: SystemModel| #[trigger] step(s, t, Transition::Deliver(i))) || (exists|
            t: SystemModel,
        | #[trigger] step(s, t, Transition::EndStream(i))),
{
    if s.chan.seq > s.sessions[i].last_seen {
        let t = SystemModel {
            calls_in_flight: s.calls_in_flight,
            phase: s.phase,
            chan: s.chan,
            sessions: s.sessions.insert(
                i,
                SessionModel { state: SessionState::Streaming, last_seen: s.chan.seq },
            ),
        };
        assert(step(s, t, Transition::Deliver(i)));
    } else {
        let t = SystemModel {
            calls_in_flight: s.calls_in_flight,
            phase: s.phase,
            chan: s.chan,
            sessions: s.sessions.insert(
                i,
                SessionModel { state: SessionState::Closed, last_seen: s.sessions[i].last_seen },
            ),
        };
        assert(step(s, t, Transition::EndStream(i)));
    }
}

} // verus!
