//! Progress accounting.
//!
//! Upload tasks and the read loop emit lifecycle events; a single consumer
//! folds them into four counters. Because one owner reacts to messages, no
//! locking is needed even though producers run concurrently.

use vstd::prelude::*;

verus! {

/// A lifecycle event of the pipeline.
#[derive(Clone, Copy, Debug, PartialEq, Eq, Structural)]
pub enum ProgressEvent {
    /// One record was read from the source.
    LineRead,
    /// One batch was submitted (queued for upload).
    BatchSubmitted,
    /// One batch's upload acquired its permit and began transmitting.
    BatchStarted,
    /// One batch finished successfully.
    BatchCompleted,
    /// The pipeline drained; no further events follow.
    Finished,
}

/// How many events of kind `k` the history `h` holds.
pub open spec fn count_events(h: Seq<ProgressEvent>, k: ProgressEvent) -> nat
    decreases h.len(),
{
    if h.len() == 0 {
        0
    } else {
        count_events(h.drop_last(), k) + if h.last() == k {
            1nat
        } else {
            0nat
        }
    }
}

/// The four progress counters, together with the history of events applied
/// to them.
pub struct ProgressCounters {
    /// Records read.
    pub lines: u64,
    /// Batches submitted but not yet transmitting.
    pub submitted: u64,
    /// Requests in flight.
    pub in_flight: u64,
    /// Batches completed.
    pub completed: u64,
    /// Whether the final event has been seen.
    pub done: bool,
    /// Every event applied so far, in order.
    pub history: Ghost<Seq<ProgressEvent>>,
}

impl ProgressCounters {
    /// Well-formedness: each counter is exactly the count the event history
    /// dictates — lines read, submissions not yet started, starts not yet
    /// completed, and completions.
    pub open spec fn wf(&self) -> bool {
        &&& self.lines == count_events(self.history@, ProgressEvent::LineRead)
        &&& self.submitted + count_events(self.history@, ProgressEvent::BatchStarted)
            == count_events(self.history@, ProgressEvent::BatchSubmitted)
        &&& self.in_flight + count_events(self.history@, ProgressEvent::BatchCompleted)
            == count_events(self.history@, ProgressEvent::BatchStarted)
        &&& self.completed == count_events(self.history@, ProgressEvent::BatchCompleted)
        &&& self.done == (count_events(self.history@, ProgressEvent::Finished) > 0)
    }

    pub fn new() -> (c: Self)
        ensures
            c.wf(),
            c.history@ == Seq::<ProgressEvent>::empty(),
            c.lines == 0,
            c.submitted == 0,
            c.in_flight == 0,
            c.completed == 0,
            !c.done,
    {
        ProgressCounters {
            lines: 0,
            submitted: 0,
            in_flight: 0,
            completed: 0,
            done: false,
            history: Ghost(Seq::empty()),
        }
    }

    /// Whether `e` is a valid next event: the stream has not finished, a
    /// start is preceded by an unmatched submission, a completion by an
    /// unmatched start, and the touched counter has room.
    pub open spec fn can_apply(&self, e: ProgressEvent) -> bool {
        &&& !self.done
        &&& e is LineRead ==> self.lines < u64::MAX
        &&& e is BatchSubmitted ==> self.submitted < u64::MAX
        &&& e is BatchStarted ==> self.submitted > 0 && self.in_flight < u64::MAX
        &&& e is BatchCompleted ==> self.in_flight > 0 && self.completed < u64::MAX
    }

    pub fn can_apply_event(&self, e: &ProgressEvent) -> (r: bool)
        ensures
            r == self.can_apply(*e),
    {
        if self.done {
            return false;
        }
        match e {
            ProgressEvent::LineRead => self.lines < u64::MAX,
            ProgressEvent::BatchSubmitted => self.submitted < u64::MAX,
            ProgressEvent::BatchStarted => self.submitted > 0 && self.in_flight < u64::MAX,
            ProgressEvent::BatchCompleted => self.in_flight > 0 && self.completed < u64::MAX,
            ProgressEvent::Finished => true,
        }
    }

    /// Fold one event into the counters: a read increments `lines`; a
    /// submission increments `submitted`; a start moves one batch from
    /// `submitted` to `in_flight`; a completion moves one from `in_flight`
    /// to `completed`; the final event sets `done` and changes no counter.
    pub fn apply_event(&mut self, e: ProgressEvent)
        requires
            old(self).wf(),
            old(self).can_apply(e),
        ensures
            final(self).wf(),
            final(self).history@ == old(self).history@.push(e),
            final(self).lines == old(self).lines + (if e is LineRead { 1int } else { 0int }),
            final(self).submitted == old(self).submitted + (
            if e is BatchSubmitted {
                1int
            } else if e is BatchStarted {
                -1int
            } else {
                0int
            }),
            final(self).in_flight == old(self).in_flight + (
            if e is BatchStarted {
                1int
            } else if e is BatchCompleted {
                -1int
            } else {
                0int
            }),
            final(self).completed == old(self).completed + (
            if e is BatchCompleted {
                1int
            } else {
                0int
            }),
            final(self).done == (e is Finished),
    {
        proof {
            self.history@ = self.history@.push(e);
            assert(self.history@.drop_last() =~= old(self).history@);
        }
        match e {
            ProgressEvent::LineRead => {
                self.lines = self.lines + 1;
            },
            ProgressEvent::BatchSubmitted => {
                self.submitted = self.submitted + 1;
            },
            ProgressEvent::BatchStarted => {
                self.submitted = self.submitted - 1;
                self.in_flight = self.in_flight + 1;
            },
            ProgressEvent::BatchCompleted => {
                self.in_flight = self.in_flight - 1;
                self.completed = self.completed + 1;
            },
            ProgressEvent::Finished => {
                self.done = true;
            },
        }
    }
}

/// Progress accounting: once every submitted batch has started and every
/// started batch has completed — `n` of each — the submitted and in-flight
/// counters are zero and the completed counter is `n`.
pub proof fn lemma_progress_accounting(c: &ProgressCounters, n: nat)
    requires
        c.wf(),
        count_events(c.history@, ProgressEvent::BatchSubmitted) == n,
        count_events(c.history@, ProgressEvent::BatchStarted) == n,
        count_events(c.history@, ProgressEvent::BatchCompleted) == n,
    ensures
        c.submitted == 0,
        c.in_flight == 0,
        c.completed == n,
{
}

} // verus!
