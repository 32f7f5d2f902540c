//! The distribution channel: a broadcast-latest slot. A single writer (the
//! capture loop) overwrites the slot and increments a sequence number; every
//! consumer independently reads the newest frame it has not yet seen, tracked
//! by its own last-seen sequence number. A consumer that falls behind skips
//! ahead to the latest frame; it never sees an unbounded backlog and never
//! sees frames out of order. Closing the channel is the end-of-stream signal.
//!
//! This type holds the channel's state and its step functions; the caller is
//! responsible for sharing it between the producer and the consumers (for
//! example behind a mutex paired with a condition variable, waking readers
//! after every `publish` and after `close`).
use vstd::prelude::*;

verus! {

/// Mathematical state of the channel: the latest frame, the number of frames
/// published so far, and whether the stream has ended.
pub struct ChannelModel {
    /// Bytes of the most recently published frame; empty before the first
    /// publication (`seq == 0`).
    pub frame: Seq<u8>,
    /// Number of frames published so far; the newest frame's sequence number.
    pub seq: nat,
    /// True once the producer has signalled end of stream.
    pub closed: bool,
}

/// The channel as it stands before any frame is published.
pub open spec fn initial_channel() -> ChannelModel {
    ChannelModel { frame: Seq::empty(), seq: 0, closed: false }
}

/// Effect of publishing `bytes`: the slot is overwritten and the sequence
/// number grows by one. Nothing else changes.
pub open spec fn publish_model(c: ChannelModel, bytes: Seq<u8>) -> ChannelModel {
    ChannelModel { frame: bytes, seq: c.seq + 1, closed: c.closed }
}

/// Effect of closing: only the closed flag changes; the last frame and the
/// sequence number stay, so a reader that has not yet seen the final frame
/// still receives it.
pub open spec fn close_model(c: ChannelModel) -> ChannelModel {
    ChannelModel { frame: c.frame, seq: c.seq, closed: true }
}

/// What a reader with a given last-seen sequence number observes.
pub enum ReadModel {
    /// A frame newer than `last_seen` is available: these bytes, this number.
    Delivered(Seq<u8>, nat),
    /// Nothing new yet and the stream is still open: the reader must wait.
    Blocked,
    /// Nothing new will ever come: end of stream.
    Ended,
}

/// The read discipline of broadcast-latest: a reader gets the current slot
/// as soon as its sequence number exceeds `last_seen`; otherwise it waits,
/// unless the channel is closed, in which case the stream has ended for it.
pub open spec fn read_model(c: ChannelModel, last_seen: nat) -> ReadModel {
    if c.seq > last_seen {
        ReadModel::Delivered(c.frame, c.seq)
    } else if c.closed {
        ReadModel::Ended
    } else {
        ReadModel::Blocked
    }
}

/// Outcome of one (non-blocking) read attempt, as handed to a consumer.
pub enum ReadOutcome {
    /// A fresh frame: its bytes and its sequence number.
    Frame { bytes: Vec<u8>, seq: u64 },
    /// No frame newer than the reader's last-seen number; the reader should
    /// block until the producer publishes or closes, then ask again.
    NotYet,
    /// The stream has ended; no further frame will arrive.
    EndOfStream,
}

/// The mathematical reading of a `ReadOutcome`.
pub open spec fn outcome_model(r: ReadOutcome) -> ReadModel {
    match r {
        ReadOutcome::Frame { bytes, seq } => ReadModel::Delivered(bytes@, seq as nat),
        ReadOutcome::NotYet => ReadModel::Blocked,
        ReadOutcome::EndOfStream => ReadModel::Ended,
    }
}

/// The broadcast slot itself. Exactly one owner may mutate it (publish,
/// close); any number of readers may call `read_since` concurrently under a
/// shared borrow.
pub struct Channel {
    slot: Vec<u8>,
    seq: u64,
    closed: bool,
}

impl View for Channel {
    type V = ChannelModel;

    closed spec fn view(&self) -> ChannelModel {
        ChannelModel { frame: self.slot@, seq: self.seq as nat, closed: self.closed }
    }
}

/// Copies a byte buffer, element for element.
fn copy_bytes(v: &Vec<u8>) -> (r: Vec<u8>)
    ensures
        r@ == v@,
{
    let mut r: Vec<u8> = Vec::new();
    let mut i: usize = 0;
    while i < v.len()
        invariant
            i <= v.len(),
            r@ == v@.subrange(0, i as int),
        decreases v.len() - i,
    {
        r.push(v[i]);
        i = i + 1;
        proof {
            assert(r@ =~= v@.subrange(0, i as int));
        }
    }
    proof {
        assert(r@ =~= v@);
    }
    r
}

impl Channel {
    /// A fresh channel: no frame yet, sequence number zero, open.
    pub fn new() -> (c: Channel)
        ensures
            c@ == initial_channel(),
    {
        Channel { slot: Vec::new(), seq: 0, closed: false }
    }

    /// The sequence number of the newest published frame (zero if none).
    pub fn seq(&self) -> (s: u64)
        ensures
            s as nat == self@.seq,
    {
        self.seq
    }

    /// Whether end of stream has been signalled.
    pub fn is_closed(&self) -> (b: bool)
        ensures
            b == self@.closed,
    {
        self.closed
    }

    /// Publishes one frame: overwrites the slot and increments the sequence
    /// number. Only the producer may call this, and only while the channel
    /// is open.
    pub fn publish(&mut self, bytes: Vec<u8>)
        requires
            !old(self)@.closed,
            old(self)@.seq < u64::MAX as nat,
        ensures
            final(self)@ == publish_model(old(self)@, bytes@),
    {
        self.slot = bytes;
        self.seq = self.seq + 1;
    }

    /// Publishes `bytes` if the channel can take another frame, and reports
    /// whether it did; the channel is untouched when it cannot.
    pub fn try_publish(&mut self, bytes: Vec<u8>) -> (published: bool)
        ensures
            published == (!old(self)@.closed && old(self)@.seq < u64::MAX as nat),
            published ==> final(self)@ == publish_model(old(self)@, bytes@),
            !published ==> final(self)@ == old(self)@,
    {
        if !self.closed && self.seq < u64::MAX {
            self.publish(bytes);
            true
        } else {
            false
        }
    }

    /// Signals end of stream. The last frame stays available to readers that
    /// have not seen it yet.
    pub fn close(&mut self)
        ensures
            final(self)@ == close_model(old(self)@),
    {
        self.closed = true;
    }

    /// One read attempt for a consumer whose newest delivered frame carried
    /// the sequence number `last_seen`: the current frame if it is newer,
    /// end of stream if the channel is closed, otherwise an instruction to
    /// wait. Never blocks; a caller that gets `NotYet` blocks outside and
    /// asks again after the producer's next publish or close.
    pub fn read_since(&self, last_seen: u64) -> (r: ReadOutcome)
        ensures
            outcome_model(r) == read_model(self@, last_seen as nat),
    {
        if self.seq > last_seen {
            ReadOutcome::Frame { bytes: copy_bytes(&self.slot), seq: self.seq }
        } else if self.closed {
            ReadOutcome::EndOfStream
        } else {
            ReadOutcome::NotYet
        }
    }
}

} // verus!
