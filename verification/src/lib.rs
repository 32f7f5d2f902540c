//! A verified core for an MJPEG-over-HTTP streaming server.
//!
//! One exclusive frame source feeds a single capture loop; the capture loop
//! publishes each encoded frame into a broadcast-latest distribution channel;
//! any number of client sessions independently read the latest frame from the
//! channel and emit it as one part of a `multipart/x-mixed-replace` body.
//!
//! The modules:
//! - [`framing`]: the wire format — the HTTP response header and the
//!   boundary-delimited part that wraps each frame.
//! - [`channel`]: the distribution channel — a single slot holding the latest
//!   frame plus a monotonically increasing sequence number and a closed flag.
//! - [`session`]: the per-client state machine that pulls from the channel and
//!   decides what to write next.
//! - [`capture`]: the capture loop's failure policy — bounded retries for
//!   capture errors, skip on encode errors.
//! - [`model`]: a transition-system model of the whole server, with proofs of
//!   the design's guarantees (exclusive capture, per-session ordering,
//!   failure isolation, no producer stall, graceful end of stream).
//!
//! Everything that blocks — the device read, the socket writes, the wait for a
//! fresh frame — happens outside this crate; callers drive these state
//! machines and perform the I/O the returned actions ask for.
pub mod capture;
pub mod channel;
pub mod framing;
pub mod model;
pub mod session;
