//! The batch: a fixed number of check tasks run side by side, and every
//! outcome is collected in the order in which the tasks end.

use vstd::prelude::*;
use crate::failure::Failure;
use crate::failure::Outcome;

verus! {

/// Number of check tasks in the standard batch.
pub const BATCH_SIZE: usize = 10;

/// What a joined task stands for: its own outcome, or a fault where the
/// task broke down before it could report one.
pub open spec fn settled(joined: Option<Outcome>) -> Outcome {
    match joined {
        Some(outcome) => outcome,
        None => Outcome::Failed(Failure::Fault),
    }
}

/// A batch as a mathematical value.
pub struct BatchView {
    pub size: nat,
    pub outcomes: Seq<Outcome>,
}

impl BatchView {
    /// A batch of `size` tasks, none of which has ended.
    pub open spec fn fresh(size: nat) -> BatchView {
        BatchView { size, outcomes: Seq::empty() }
    }

    /// No more outcomes than tasks.
    pub open spec fn wf(self) -> bool {
        self.outcomes.len() <= self.size
    }

    /// Every task has ended.
    pub open spec fn complete(self) -> bool {
        self.outcomes.len() >= self.size
    }

    /// The batch after one more task was joined. A complete batch takes
    /// nothing more.
    pub open spec fn record(self, joined: Option<Outcome>) -> BatchView {
        if self.complete() {
            self
        } else {
            BatchView { size: self.size, outcomes: self.outcomes.push(settled(joined)) }
        }
    }

    /// The batch after each of `joined` was recorded in turn.
    pub open spec fn record_all(self, joined: Seq<Option<Outcome>>) -> BatchView
        decreases joined.len(),
    {
        if joined.len() == 0 {
            self
        } else {
            self.record_all(joined.drop_last()).record(joined.last())
        }
    }
}

/// The collector of one batch.
pub struct Batch {
    size: usize,
    outcomes: Vec<Outcome>,
}

impl View for Batch {
    type V = BatchView;

    closed spec fn view(&self) -> BatchView {
        BatchView { size: self.size as nat, outcomes: self.outcomes@ }
    }
}

impl Batch {
    /// A batch of `size` tasks, none of which has ended.
    pub fn new(size: usize) -> (r: Batch)
        ensures
            r@ == BatchView::fresh(size as nat),
    {
        Batch { size, outcomes: Vec::new() }
    }

    /// Number of tasks in the batch.
    pub fn size(&self) -> (r: usize)
        ensures
            r == self@.size,
    {
        self.size
    }

    /// Number of tasks that have not ended yet.
    pub fn remaining(&self) -> (r: usize)
        ensures
            r == if self@.complete() {
                0
            } else {
                self@.size - self@.outcomes.len()
            },
    {
        if self.outcomes.len() >= self.size {
            0
        } else {
            self.size - self.outcomes.len()
        }
    }

    /// Whether every task has ended.
    pub fn is_complete(&self) -> (r: bool)
        ensures
            r == self@.complete(),
    {
        self.outcomes.len() >= self.size
    }

    /// Records the task that ended next: its outcome, or `None` where the
    /// task broke down, which is recorded as a fault. Says whether the batch
    /// took it: a complete batch takes nothing more.
    pub fn record(&mut self, joined: Option<Outcome>) -> (taken: bool)
        ensures
            final(self)@ == old(self)@.record(joined),
            taken == !old(self)@.complete(),
    {
        if self.outcomes.len() >= self.size {
            return false;
        }
        let outcome = match joined {
            Some(outcome) => outcome,
            None => Outcome::Failed(Failure::Fault),
        };
        self.outcomes.push(outcome);
        true
    }

    /// The outcomes collected so far, in the order in which the tasks ended.
    pub fn outcomes(&self) -> (r: &Vec<Outcome>)
        ensures
            r@ == self@.outcomes,
    {
        &self.outcomes
    }
}

/// Every task's outcome is collected on its own and in the order of
/// completion: after as many tasks as the batch has room for were joined,
/// the batch holds exactly their outcomes, a fault for each task that broke
/// down, and it is complete exactly when all have ended.
pub proof fn law_batch_collects_all(size: nat, joined: Seq<Option<Outcome>>)
    requires
        joined.len() <= size,
    ensures
        BatchView::fresh(size).record_all(joined).size == size,
        BatchView::fresh(size).record_all(joined).outcomes == joined.map_values(
            |j: Option<Outcome>| settled(j),
        ),
        BatchView::fresh(size).record_all(joined).complete() <==> joined.len() == size,
    decreases joined.len(),
{
    let mapped = joined.map_values(|j: Option<Outcome>| settled(j));
    if joined.len() == 0 {
        assert(mapped =~= Seq::empty());
    } else {
        let front = joined.drop_last();
        law_batch_collects_all(size, front);
        assert(mapped =~= front.map_values(|j: Option<Outcome>| settled(j)).push(
            settled(joined.last()),
        ));
    }
}

/// Recording never breaks the batch: it holds no more outcomes than tasks.
pub proof fn law_record_keeps_wf(b: BatchView, joined: Option<Outcome>)
    requires
        b.wf(),
    ensures
        b.record(joined).wf(),
        b.record(joined).size == b.size,
{
}

} // verus!
