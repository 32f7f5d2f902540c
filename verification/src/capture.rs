//! The capture loop's failure policy. The loop itself is the single owner of
//! the frame source: it captures, encodes, and publishes, and nothing else
//! ever touches the device. This module holds the decisions that loop makes:
//! a capture failure is retried a bounded number of times and then treated as
//! fatal (the device is gone, so the loop closes the channel); an encode
//! failure is always transient — the frame is skipped and the next capture
//! cycle supersedes it.
use vstd::prelude::*;

verus! {

/// How many consecutive capture failures are tolerated before the device is
/// considered disconnected.
pub const MAX_CAPTURE_RETRIES: u64 = 3;

/// Mathematical state of the capture loop's bookkeeping.
pub struct CaptureModel {
    /// Capture failures seen since the last successful capture.
    pub consecutive_failures: nat,
    /// Cumulative count of capture and encode failures, for diagnostics
    /// (saturating: it stops growing at the counter's maximum).
    pub errors: nat,
}

/// Effect on the cumulative error counter of recording one more error.
pub open spec fn bump_errors(e: nat) -> nat {
    if e < u64::MAX as nat {
        e + 1
    } else {
        e
    }
}

/// The capture loop's bookkeeping: retry counting and error diagnostics.
pub struct CaptureLoop {
    consecutive_failures: u64,
    errors: u64,
}

impl View for CaptureLoop {
    type V = CaptureModel;

    closed spec fn view(&self) -> CaptureModel {
        CaptureModel {
            consecutive_failures: self.consecutive_failures as nat,
            errors: self.errors as nat,
        }
    }
}

impl CaptureLoop {
    /// A fresh capture loop: no failures recorded.
    pub fn new() -> (c: CaptureLoop)
        ensures
            c@ == (CaptureModel { consecutive_failures: 0, errors: 0 }),
    {
        CaptureLoop { consecutive_failures: 0, errors: 0 }
    }

    /// Capture failures seen since the last successful capture.
    pub fn consecutive_failures(&self) -> (n: u64)
        ensures
            n as nat == self@.consecutive_failures,
    {
        self.consecutive_failures
    }

    /// Cumulative failure count, for diagnostics.
    pub fn error_count(&self) -> (n: u64)
        ensures
            n as nat == self@.errors,
    {
        self.errors
    }

    /// Records a successful capture: the retry budget is restored in full.
    pub fn on_capture_success(&mut self)
        ensures
            final(self)@ == (CaptureModel {
                consecutive_failures: 0,
                errors: old(self)@.errors,
            }),
    {
        self.consecutive_failures = 0;
    }

    /// Records one capture failure and decides whether it is fatal: it is
    /// exactly when the failure exhausts the retry budget, that is, when it
    /// is the `MAX_CAPTURE_RETRIES`-th consecutive one. On a fatal result
    /// the loop must stop capturing and close the channel.
    pub fn on_capture_failure(&mut self) -> (fatal: bool)
        requires
            old(self)@.consecutive_failures < MAX_CAPTURE_RETRIES as nat,
        ensures
            final(self)@ == (CaptureModel {
                consecutive_failures: old(self)@.consecutive_failures + 1,
                errors: bump_errors(old(self)@.errors),
            }),
            fatal == (old(self)@.consecutive_failures + 1 == MAX_CAPTURE_RETRIES as nat),
    {
        self.consecutive_failures = self.consecutive_failures + 1;
        if self.errors < u64::MAX {
            self.errors = self.errors + 1;
        }
        self.consecutive_failures == MAX_CAPTURE_RETRIES
    }

    /// Records one encode failure. Always transient: the frame is skipped,
    /// the loop continues, and the next capture supersedes the lost frame.
    /// The capture retry budget is untouched — the device itself is fine.
    pub fn on_encode_failure(&mut self)
        ensures
            final(self)@ == (CaptureModel {
                consecutive_failures: old(self)@.consecutive_failures,
                errors: bump_errors(old(self)@.errors),
            }),
    {
        if self.errors < u64::MAX {
            self.errors = self.errors + 1;
        }
    }
}

} // verus!
