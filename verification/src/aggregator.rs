//! Order-preserving aggregation of fetched batches.
//!
//! The aggregate buffer is the one piece of growing state in the engine.
//! Batches are committed strictly in submission order, one at a time, on
//! the submitting control flow — so the final sequence always equals the
//! concatenation of the batches in the exact order their pages were
//! fetched, whatever bookkeeping runs beside it.

use vstd::prelude::*;
use crate::action::ChatAction;

verus! {

/// Collects the per-page batches into one ordered sequence of records.
pub struct Aggregator {
    buffer: Vec<ChatAction>,
    history: Ghost<Seq<Seq<ChatAction>>>,
}

impl Aggregator {
    /// The batches submitted so far, in submission order.
    pub closed spec fn batches(&self) -> Seq<Seq<ChatAction>> {
        self.history@
    }

    /// The buffer holds exactly the concatenation of the submitted
    /// batches in submission order.
    pub closed spec fn wf(&self) -> bool {
        self.buffer@ == self.batches().flatten()
    }

    /// An empty aggregate, with no batch submitted yet.
    pub fn new() -> (r: Aggregator)
        ensures
            r.wf(),
            r.batches() == Seq::<Seq<ChatAction>>::empty(),
    {
        Aggregator { buffer: Vec::new(), history: Ghost(Seq::empty()) }
    }

    /// The number of records aggregated so far.
    pub fn len(&self) -> (r: usize)
        requires
            self.wf(),
        ensures
            r == self.batches().flatten().len(),
    {
        self.buffer.len()
    }

    /// Commits one batch at the end of the aggregate. Appending happens
    /// here, on the submitting control flow, so no scheduling of other
    /// work can reorder batches relative to submission order.
    pub fn submit(&mut self, batch: Vec<ChatAction>)
        requires
            old(self).wf(),
        ensures
            final(self).wf(),
            final(self).batches() == old(self).batches().push(batch@),
    {
        let ghost b = batch@;
        let mut batch = batch;
        self.buffer.append(&mut batch);
        proof {
            self.history@ = self.history@.push(b);
            self.history@.drop_last().lemma_flatten_push(b);
            assert(self.history@.drop_last() =~= old(self).batches());
        }
    }

    /// Returns the aggregate: every submitted batch, none lost and none
    /// duplicated, concatenated in submission order.
    pub fn finalize(self) -> (r: Vec<ChatAction>)
        requires
            self.wf(),
        ensures
            r@ == self.batches().flatten(),
    {
        self.buffer
    }
}

/// Law: the aggregate grows by whole batches, in order. After the first
/// `i + 1` submissions the aggregate equals the aggregate after the first
/// `i` submissions followed by the `i`-th batch, so batch boundaries and
/// batch order both survive aggregation.
pub proof fn lemma_order_preservation(batches: Seq<Seq<ChatAction>>, i: int)
    requires
        0 <= i < batches.len(),
    ensures
        batches.subrange(0, i + 1).flatten() == batches.subrange(0, i).flatten() + batches[i],
{
    let prefix = batches.subrange(0, i);
    assert(batches.subrange(0, i + 1) =~= prefix.push(batches[i]));
    prefix.lemma_flatten_push(batches[i]);
}

} // verus!
