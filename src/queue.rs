use vstd::prelude::*;
use std::collections::VecDeque;
use crate::models::TestTask;

verus! {

/// The queue after `ts` were added to `q` one by one, first element first.
pub open spec fn after_adds(q: Seq<TestTask>, ts: Seq<TestTask>) -> Seq<TestTask>
    decreases ts.len(),
{
    if ts.len() == 0 {
        q
    } else {
        after_adds(q.push(ts[0]), ts.drop_first())
    }
}

/// The jobs that successive removals take out of `q` until it is empty, in
/// the order they come out.
pub open spec fn removal_order(q: Seq<TestTask>) -> Seq<TestTask>
    decreases q.len(),
{
    if q.len() == 0 {
        Seq::empty()
    } else {
        seq![q[0]] + removal_order(q.subrange(1, q.len() as int))
    }
}

/// Jobs waiting to be evaluated, oldest first.
pub struct TestQueue {
    tasks: VecDeque<TestTask>,
}

impl View for TestQueue {
    type V = Seq<TestTask>;

    closed spec fn view(&self) -> Seq<TestTask> {
        self.tasks@
    }
}

impl TestQueue {
    /// An empty queue.
    pub fn new() -> (r: TestQueue)
        ensures
            r@ == Seq::<TestTask>::empty(),
    {
        TestQueue { tasks: VecDeque::new() }
    }

    /// Appends `task` at the tail; never refuses.
    pub fn add_task(&mut self, task: TestTask)
        ensures
            final(self)@ == old(self)@.push(task),
    {
        self.tasks.push_back(task);
    }

    /// Removes and returns the head, or `None` when the queue is empty.
    pub fn pop_task(&mut self) -> (r: Option<TestTask>)
        ensures
            old(self)@.len() == 0 ==> r is None && final(self)@ == old(self)@,
            old(self)@.len() > 0 ==> r == Some(old(self)@[0]) && final(self)@ == old(self)@.subrange(
                1,
                old(self)@.len() as int,
            ),
    {
        self.tasks.pop_front()
    }

    /// Number of waiting jobs.
    pub fn len(&self) -> (r: usize)
        ensures
            r == self@.len(),
    {
        self.tasks.len()
    }

    /// Whether no job is waiting.
    pub fn is_empty(&self) -> (r: bool)
        ensures
            r == (self@.len() == 0),
    {
        self.tasks.len() == 0
    }
}

/// Adding jobs to a queue appends them at its tail, in order.
pub proof fn lemma_after_adds(q: Seq<TestTask>, ts: Seq<TestTask>)
    ensures
        after_adds(q, ts) == q + ts,
    decreases ts.len(),
{
    if ts.len() > 0 {
        lemma_after_adds(q.push(ts[0]), ts.drop_first());
        assert(q.push(ts[0]) + ts.drop_first() =~= q + ts);
    } else {
        assert(q + ts =~= q);
    }
}

/// Removing from a queue until it is empty yields its jobs in queue order.
pub proof fn lemma_removal_order(q: Seq<TestTask>)
    ensures
        removal_order(q) == q,
    decreases q.len(),
{
    if q.len() > 0 {
        lemma_removal_order(q.subrange(1, q.len() as int));
        assert(seq![q[0]] + q.subrange(1, q.len() as int) =~= q);
    } else {
        assert(q =~= Seq::<TestTask>::empty());
    }
}

/// First in, first out: jobs added one by one to a queue come out, after the
/// jobs already waiting, in the order in which they were added.
pub proof fn lemma_fifo(q: Seq<TestTask>, ts: Seq<TestTask>)
    ensures
        removal_order(after_adds(q, ts)) == q + ts,
{
    lemma_after_adds(q, ts);
    lemma_removal_order(q + ts);
}

} // verus!
