//! Batching and backpressure.
//!
//! The orchestrator reads records one at a time, groups them into fixed-size
//! batches, and enforces a ceiling on the number of batches outstanding
//! (queued or in flight). The caller drives it: it offers lines while
//! `wants_line` holds, hands each emitted batch to an upload task, waits for
//! a task to resolve whenever `must_wait` holds, reports each resolution
//! with `task_resolved`, and closes the input with `end_input`. The ceiling
//! bounds memory independently of the network concurrency limit: a batch
//! counts against it from emission until its task resolves.

use vstd::prelude::*;
use vstd::arithmetic::div_mod::lemma_fundamental_div_mod_converse_div;
use vstd::arithmetic::div_mod::lemma_fundamental_div_mod_converse_mod;
use crate::batch_count;
use crate::last_batch_size;

verus! {

pub struct Orchestrator {
    /// Records per batch; a batch is emitted as soon as it is full.
    pub batch_size: usize,
    /// Ceiling on batches outstanding: the backpressure bound.
    pub max_pending: usize,
    /// Optional cap on the number of records read.
    pub limit: Option<usize>,
    /// Records read so far.
    pub lines_read: usize,
    /// Batches emitted whose tasks have not resolved yet: the Pending Task
    /// Set size.
    pub pending: usize,
    /// The growing batch not yet emitted.
    pub current: Vec<String>,
    /// Whether the input has been closed.
    pub input_done: bool,
    /// All records offered so far, in order.
    pub records: Ghost<Seq<Seq<char>>>,
    /// The contents of every batch emitted so far, in emission order.
    pub batches: Ghost<Seq<Seq<Seq<char>>>>,
}

impl Orchestrator {
    /// Well-formedness: the backpressure ceiling is respected, the growing
    /// batch is strictly smaller than the batch size, and the emitted
    /// batches together with the growing batch partition the records
    /// offered, in order, every emitted batch full while the input is open.
    pub open spec fn wf(&self) -> bool {
        &&& self.batch_size >= 1
        &&& self.max_pending >= 1
        &&& self.pending <= self.max_pending
        &&& self.lines_read == self.records@.len()
        &&& if self.input_done {
            self.current@.len() == 0
        } else {
            self.current@.len() < self.batch_size
        }
        &&& self.batches@.flatten() + self.current.deep_view() == self.records@
        &&& !self.input_done ==> {
            &&& self.records@.len() == self.batches@.len() * self.batch_size
                + self.current@.len()
            &&& forall|i: int|
                0 <= i < self.batches@.len() ==> (#[trigger] self.batches@[i]).len()
                    == self.batch_size
        }
        &&& self.input_done ==> {
            &&& self.batches@.len() == batch_count(self.records@.len(), self.batch_size as nat)
            &&& forall|i: int|
                0 <= i < self.batches@.len() - 1 ==> (#[trigger] self.batches@[i]).len()
                    == self.batch_size
            &&& self.batches@.len() > 0 ==> self.batches@.last().len() == last_batch_size(
                self.records@.len(),
                self.batch_size as nat,
            )
        }
    }

    /// Whether the read loop should fetch another record: the input is
    /// still open and the record cap, if set, is not reached.
    pub open spec fn can_read(&self) -> bool {
        &&& !self.input_done
        &&& self.limit matches Some(l) ==> self.lines_read < l
    }

    pub fn new(batch_size: usize, max_pending: usize, limit: Option<usize>) -> (s: Self)
        requires
            batch_size >= 1,
            max_pending >= 1,
        ensures
            s.wf(),
            s.batch_size == batch_size,
            s.max_pending == max_pending,
            s.limit == limit,
            s.lines_read == 0,
            s.pending == 0,
            s.records@ == Seq::<Seq<char>>::empty(),
            s.batches@ == Seq::<Seq<Seq<char>>>::empty(),
            !s.input_done,
    {
        let s = Orchestrator {
            batch_size,
            max_pending,
            limit,
            lines_read: 0,
            pending: 0,
            current: Vec::new(),
            input_done: false,
            records: Ghost(Seq::empty()),
            batches: Ghost(Seq::empty()),
        };
        proof {
            assert(s.batches@.flatten() + s.current.deep_view() =~= s.records@);
        }
        s
    }

    pub fn wants_line(&self) -> (r: bool)
        ensures
            r == self.can_read(),
    {
        if self.input_done {
            return false;
        }
        match self.limit {
            Some(l) => self.lines_read < l,
            None => true,
        }
    }

    /// Whether the caller must wait for an outstanding task to resolve
    /// before offering more records.
    pub fn must_wait(&self) -> (r: bool)
        ensures
            r == (self.pending >= self.max_pending),
    {
        self.pending >= self.max_pending
    }

    pub fn pending_count(&self) -> (r: usize)
        ensures
            r == self.pending,
    {
        self.pending
    }

    /// Whether the pipeline is fully drained: input closed and every
    /// emitted batch resolved.
    pub fn is_drained(&self) -> (r: bool)
        ensures
            r == (self.input_done && self.pending == 0),
    {
        self.input_done && self.pending == 0
    }

    /// Accept one record. When it fills the current batch, that batch is
    /// emitted — exactly the records offered since the previous emission, in
    /// order — and counts against the backpressure ceiling until its task
    /// resolves.
    pub fn offer_line(&mut self, line: String) -> (out: Option<Vec<String>>)
        requires
            old(self).wf(),
            old(self).can_read(),
            old(self).pending < old(self).max_pending,
            old(self).lines_read < usize::MAX,
        ensures
            final(self).wf(),
            final(self).batch_size == old(self).batch_size,
            final(self).max_pending == old(self).max_pending,
            final(self).limit == old(self).limit,
            !final(self).input_done,
            final(self).records@ == old(self).records@.push(line@),
            final(self).lines_read == old(self).lines_read + 1,
            (out is Some) <==> old(self).current@.len() + 1 == old(self).batch_size,
            out matches Some(batch) ==> {
                &&& batch.deep_view() == old(self).current.deep_view().push(line@)
                &&& batch@.len() == old(self).batch_size
                &&& final(self).current@.len() == 0
                &&& final(self).pending == old(self).pending + 1
                &&& final(self).batches@ == old(self).batches@.push(batch.deep_view())
            },
            out is None ==> {
                &&& final(self).current.deep_view() == old(self).current.deep_view().push(line@)
                &&& final(self).pending == old(self).pending
                &&& final(self).batches@ == old(self).batches@
            },
    {
        self.current.push(line);
        self.lines_read = self.lines_read + 1;
        proof {
            self.records@ = self.records@.push(self.current@.last()@);
            assert(self.current.deep_view() =~= old(self).current.deep_view().push(
                self.current@.last()@,
            ));
        }
        if self.current.len() >= self.batch_size {
            let mut batch: Vec<String> = Vec::new();
            core::mem::swap(&mut self.current, &mut batch);
            self.pending = self.pending + 1;
            proof {
                let k = old(self).batches@.len();
                let b = self.batch_size as nat;
                self.batches@ = self.batches@.push(batch.deep_view());
                assert((k + 1) * b == k * b + b) by (nonlinear_arith);
                old(self).batches@.lemma_flatten_push(batch.deep_view());
                assert(self.batches@.flatten() + self.current.deep_view() =~= self.records@);
            }
            Some(batch)
        } else {
            proof {
                assert(self.batches@.flatten() + self.current.deep_view() =~= self.records@);
            }
            None
        }
    }

    /// Close the input. A final partial batch, if any, is emitted. After
    /// this call the total number of emitted batches is exactly
    /// `batch_count` of the records offered — the ceiling of N over the
    /// batch size — and the final batch, when the record count does not
    /// divide evenly, holds the remainder.
    pub fn end_input(&mut self) -> (out: Option<Vec<String>>)
        requires
            old(self).wf(),
            !old(self).input_done,
            old(self).pending < old(self).max_pending,
        ensures
            final(self).wf(),
            final(self).batch_size == old(self).batch_size,
            final(self).max_pending == old(self).max_pending,
            final(self).limit == old(self).limit,
            final(self).input_done,
            final(self).records@ == old(self).records@,
            final(self).lines_read == old(self).lines_read,
            final(self).batches@.len() == batch_count(
                old(self).records@.len(),
                old(self).batch_size as nat,
            ),
            (out is Some) <==> old(self).records@.len() % (old(self).batch_size as nat) != 0,
            out matches Some(batch) ==> {
                &&& batch.deep_view() == old(self).current.deep_view()
                &&& batch@.len() == old(self).records@.len() % (old(self).batch_size as nat)
                &&& final(self).pending == old(self).pending + 1
                &&& final(self).batches@ == old(self).batches@.push(batch.deep_view())
            },
            out is None ==> {
                &&& final(self).pending == old(self).pending
                &&& final(self).batches@ == old(self).batches@
            },
    {
        proof {
            lemma_fundamental_div_mod_converse_div(
                self.records@.len() as int,
                self.batch_size as int,
                self.batches@.len() as int,
                self.current@.len() as int,
            );
            lemma_fundamental_div_mod_converse_mod(
                self.records@.len() as int,
                self.batch_size as int,
                self.batches@.len() as int,
                self.current@.len() as int,
            );
        }
        self.input_done = true;
        if self.current.len() > 0 {
            let mut batch: Vec<String> = Vec::new();
            core::mem::swap(&mut self.current, &mut batch);
            self.pending = self.pending + 1;
            proof {
                self.batches@ = self.batches@.push(batch.deep_view());
                old(self).batches@.lemma_flatten_push(batch.deep_view());
                assert(batch.deep_view() =~= old(self).current.deep_view());
                assert(self.batches@.flatten() + self.current.deep_view() =~= self.records@);
            }
            Some(batch)
        } else {
            proof {
                assert(self.current.deep_view() =~= Seq::<Seq<char>>::empty());
            }
            None
        }
    }

    /// Record that one outstanding upload task resolved, releasing its slot
    /// under the backpressure ceiling.
    pub fn task_resolved(&mut self)
        requires
            old(self).wf(),
            old(self).pending > 0,
        ensures
            final(self).wf(),
            *final(self) == (Orchestrator { pending: (old(self).pending - 1) as usize, ..*old(self) }),
    {
        self.pending = self.pending - 1;
    }
}

/// Backpressure invariant: in every well-formed orchestrator state, the
/// Pending Task Set size is at most the configured ceiling.
pub proof fn lemma_backpressure(o: &Orchestrator)
    requires
        o.wf(),
    ensures
        o.pending <= o.max_pending,
{
}

/// Batch partition: once the input is closed, the emitted batches
/// concatenate to exactly the records offered, in order — no record lost,
/// duplicated or reordered. Their number is the ceiling of N over the batch
/// size; every batch but the last is full, and the last holds the remainder
/// — a full batch when the batch size divides N evenly.
pub proof fn lemma_batch_partition(o: &Orchestrator)
    requires
        o.wf(),
        o.input_done,
    ensures
        o.batches@.flatten() == o.records@,
        o.batches@.len() == batch_count(o.records@.len(), o.batch_size as nat),
        forall|i: int|
            0 <= i < o.batches@.len() - 1 ==> (#[trigger] o.batches@[i]).len() == o.batch_size,
        o.batches@.len() > 0 ==> o.batches@.last().len() == last_batch_size(
            o.records@.len(),
            o.batch_size as nat,
        ),
{
    assert(o.batches@.flatten() =~= o.records@);
}

} // verus!
