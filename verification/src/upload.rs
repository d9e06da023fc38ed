//! The upload task state machine.
//!
//! One task owns one batch's payload for its whole lifetime. It waits for a
//! permit, transmits, and reacts to each response status: 2xx completes the
//! batch; rate-limiting is retried with exponential backoff up to a fixed
//! budget, resending the identical payload under the same permit; any other
//! status, or a transport failure, is fatal for the batch. The caller
//! performs the network send and the backoff sleep and reports the outcomes
//! back.

use vstd::prelude::*;
use crate::progress::ProgressEvent;

verus! {

/// Retries allowed per batch before a rate-limit becomes fatal.
pub const MAX_RETRIES: u32 = 5;

/// The backoff delay before retry number `n` (counting from 0): 500ms,
/// doubling each time.
pub open spec fn retry_delay_ms(n: nat) -> nat
    decreases n,
{
    if n == 0 {
        500
    } else {
        2 * retry_delay_ms((n - 1) as nat)
    }
}

/// Where an upload task stands.
#[derive(Clone, Copy, Debug, PartialEq, Eq, Structural)]
pub enum UploadPhase {
    /// Payload built, permit not yet requested.
    Built,
    /// Waiting for a permit from the pool.
    WaitingForPermit,
    /// Holding a permit, transmitting.
    Sending,
    /// Rate-limited; sleeping before resending under the same permit.
    Retrying,
    /// Terminal: the batch was indexed.
    Succeeded,
    /// Terminal: the batch failed.
    Failed,
}

/// The decision an upload task takes on one response.
#[derive(Clone, Copy, Debug, PartialEq, Eq, Structural)]
pub enum SendOutcome {
    /// Success: the batch is done, exactly one completion per batch.
    Completed,
    /// Rate-limited within budget: sleep this many milliseconds, then
    /// resend the identical payload.
    RetryAfterMs(u64),
    /// Fatal: the response carried this non-2xx status; no retry.
    Fatal(u16),
}

pub struct UploadTask {
    pub phase: UploadPhase,
    /// The built payload; reused unchanged by every resend.
    pub body: String,
    /// Retries consumed so far.
    pub retries: u32,
}

impl UploadTask {
    pub open spec fn wf(&self) -> bool {
        self.retries <= MAX_RETRIES
    }

    pub fn new(body: String) -> (t: Self)
        ensures
            t.wf(),
            t.phase is Built,
            t.body@ == body@,
            t.retries == 0,
    {
        UploadTask { phase: UploadPhase::Built, body, retries: 0 }
    }

    pub fn body(&self) -> (b: &String)
        ensures
            b@ == self.body@,
    {
        &self.body
    }

    /// Ask the pool for a permit.
    pub fn request_permit(&mut self)
        requires
            old(self).wf(),
            old(self).phase is Built,
        ensures
            final(self).wf(),
            final(self).phase is WaitingForPermit,
            final(self).body@ == old(self).body@,
            final(self).retries == old(self).retries,
    {
        self.phase = UploadPhase::WaitingForPermit;
    }

    /// The permit was granted: transmission begins, and exactly one
    /// started event is emitted.
    pub fn on_permit_granted(&mut self) -> (e: ProgressEvent)
        requires
            old(self).wf(),
            old(self).phase is WaitingForPermit,
        ensures
            final(self).wf(),
            final(self).phase is Sending,
            final(self).body@ == old(self).body@,
            final(self).retries == old(self).retries,
            e is BatchStarted,
    {
        self.phase = UploadPhase::Sending;
        ProgressEvent::BatchStarted
    }

    /// React to a response status. Success is owed exactly on 2xx.
    /// Rate-limiting (429) within the retry budget yields a backoff delay of
    /// 500ms doubled per retry taken; any other status outside 200..=299 is
    /// fatal with no retry.
    pub fn on_response(&mut self, status: u16) -> (out: SendOutcome)
        requires
            old(self).wf(),
            old(self).phase is Sending,
        ensures
            final(self).wf(),
            final(self).body@ == old(self).body@,
            (status == 429 && old(self).retries < MAX_RETRIES) ==> {
                &&& out == SendOutcome::RetryAfterMs(
                    retry_delay_ms(old(self).retries as nat) as u64,
                )
                &&& final(self).phase is Retrying
                &&& final(self).retries == old(self).retries + 1
            },
            (200 <= status <= 299) ==> {
                &&& out == SendOutcome::Completed
                &&& final(self).phase is Succeeded
                &&& final(self).retries == old(self).retries
            },
            (!(200 <= status <= 299) && !(status == 429 && old(self).retries < MAX_RETRIES)) ==> {
                &&& out == SendOutcome::Fatal(status)
                &&& final(self).phase is Failed
                &&& final(self).retries == old(self).retries
            },
    {
        if status == 429 && self.retries < MAX_RETRIES {
            let delay: u64 = match self.retries {
                0 => 500,
                1 => 1000,
                2 => 2000,
                3 => 4000,
                _ => 8000,
            };
            proof {
                reveal_with_fuel(retry_delay_ms, 6);
            }
            self.retries = self.retries + 1;
            self.phase = UploadPhase::Retrying;
            SendOutcome::RetryAfterMs(delay)
        } else if 200 <= status && status <= 299 {
            self.phase = UploadPhase::Succeeded;
            SendOutcome::Completed
        } else {
            self.phase = UploadPhase::Failed;
            SendOutcome::Fatal(status)
        }
    }

    /// The backoff sleep is over: resend the identical payload, still under
    /// the same permit.
    pub fn resend(&mut self)
        requires
            old(self).wf(),
            old(self).phase is Retrying,
        ensures
            final(self).wf(),
            final(self).phase is Sending,
            final(self).body@ == old(self).body@,
            final(self).retries == old(self).retries,
    {
        self.phase = UploadPhase::Sending;
    }

    /// A transport-level failure: fatal for the batch, no retry.
    pub fn on_transport_error(&mut self)
        requires
            old(self).wf(),
            old(self).phase is Sending,
        ensures
            final(self).wf(),
            final(self).phase is Failed,
            final(self).body@ == old(self).body@,
            final(self).retries == old(self).retries,
    {
        self.phase = UploadPhase::Failed;
    }

    /// The event owed on success: exactly one completion per batch,
    /// emitted only from the succeeded state.
    pub fn completion_event(&self) -> (e: ProgressEvent)
        requires
            self.phase is Succeeded,
        ensures
            e is BatchCompleted,
    {
        ProgressEvent::BatchCompleted
    }
}

} // verus!
