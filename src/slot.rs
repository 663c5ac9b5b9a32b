//! A tracker for one logical data need with at most one task in flight.
//!
//! The slot decides; its owner acts. Each redraw the owner reports whether its
//! running task (if any) has finished, and the slot answers with what to do.
use vstd::prelude::*;

verus! {

/// What the owner of a slot must do after polling it.
#[derive(Clone, Copy, PartialEq, Eq, Structural, Debug)]
pub enum PollStep {
    /// Nothing was running: start the task now; the slot counts it as in flight.
    Start,
    /// The running task has not finished: leave the displayed data as it is.
    Wait,
    /// The running task has finished: take its result, this once.
    Collect,
}

/// The step a poll answers, given whether a task is in flight and whether the
/// owner saw it finished.
pub open spec fn step_of(busy: bool, finished: bool) -> PollStep {
    if !busy {
        PollStep::Start
    } else if finished {
        PollStep::Collect
    } else {
        PollStep::Wait
    }
}

/// Whether a task is in flight after such a poll.
pub open spec fn busy_after_poll(busy: bool, finished: bool) -> bool {
    !busy || !finished
}

/// Whether a task is in flight after a run of polls, one per observation.
pub open spec fn busy_after(busy: bool, seen: Seq<bool>) -> bool
    decreases seen.len(),
{
    if seen.len() == 0 {
        busy
    } else {
        busy_after(busy_after_poll(busy, seen[0]), seen.drop_first())
    }
}

/// How many times a run of polls answers `step`.
pub open spec fn count_steps(busy: bool, seen: Seq<bool>, step: PollStep) -> nat
    decreases seen.len(),
{
    if seen.len() == 0 {
        0
    } else {
        (if step_of(busy, seen[0]) == step { 1nat } else { 0nat }) + count_steps(
            busy_after_poll(busy, seen[0]),
            seen.drop_first(),
            step,
        )
    }
}

pub struct FetchSlot {
    in_flight: bool,
}

impl FetchSlot {
    /// Whether a task is in flight.
    pub closed spec fn busy(&self) -> bool {
        self.in_flight
    }

    /// An idle slot.
    pub fn new() -> (r: FetchSlot)
        ensures
            !r.busy(),
    {
        FetchSlot { in_flight: false }
    }

    /// Whether a task is in flight.
    pub fn is_busy(&self) -> (r: bool)
        ensures
            r == self.busy(),
    {
        self.in_flight
    }

    /// Polls the slot; `finished` says whether the running task, if any, has
    /// finished. Starts a task only when none runs, and hands a finished one
    /// over exactly once.
    pub fn poll(&mut self, finished: bool) -> (step: PollStep)
        ensures
            step == step_of(old(self).busy(), finished),
            final(self).busy() == busy_after_poll(old(self).busy(), finished),
    {
        if !self.in_flight {
            self.in_flight = true;
            PollStep::Start
        } else if finished {
            self.in_flight = false;
            PollStep::Collect
        } else {
            PollStep::Wait
        }
    }
}

/// Polling any number of times before the task started by the first poll
/// finishes starts exactly one task and collects none.
pub proof fn lemma_one_task_while_pending(seen: Seq<bool>)
    requires
        seen.len() >= 1,
        forall|i: int| 1 <= i < seen.len() ==> !#[trigger] seen[i],
    ensures
        count_steps(false, seen, PollStep::Start) == 1,
        count_steps(false, seen, PollStep::Collect) == 0,
        busy_after(false, seen),
{
    lemma_pending_stays(seen.drop_first());
}

/// From a busy slot, polls that never see the task finished only wait.
proof fn lemma_pending_stays(seen: Seq<bool>)
    requires
        forall|i: int| 0 <= i < seen.len() ==> !#[trigger] seen[i],
    ensures
        count_steps(true, seen, PollStep::Start) == 0,
        count_steps(true, seen, PollStep::Collect) == 0,
        busy_after(true, seen),
    decreases seen.len(),
{
    if seen.len() > 0 {
        assert(!seen[0]);
        let rest = seen.drop_first();
        assert forall|i: int| 0 <= i < rest.len() implies !#[trigger] rest[i] by {
            assert(rest[i] == seen[i + 1]);
        }
        lemma_pending_stays(rest);
    }
}

/// Every run of polls keeps account: the tasks in flight at the end are those
/// at the start plus those started less those collected. So no result is ever
/// collected twice: collections never outnumber the tasks started (plus the
/// one already running).
pub proof fn lemma_collect_accounting(busy: bool, seen: Seq<bool>)
    ensures
        (if busy_after(busy, seen) { 1int } else { 0int }) == (if busy { 1int } else { 0int })
            + count_steps(busy, seen, PollStep::Start) - count_steps(
            busy,
            seen,
            PollStep::Collect,
        ),
        count_steps(busy, seen, PollStep::Collect) <= count_steps(busy, seen, PollStep::Start)
            + (if busy { 1int } else { 0int }),
    decreases seen.len(),
{
    if seen.len() > 0 {
        lemma_collect_accounting(busy_after_poll(busy, seen[0]), seen.drop_first());
    }
}

/// Once the running task has finished, the next poll collects it, and the poll
/// after that starts a new task rather than collecting again.
pub proof fn lemma_collected_once(first: bool, second: bool)
    requires
        first,
    ensures
        step_of(true, first) == PollStep::Collect,
        step_of(busy_after_poll(true, first), second) == PollStep::Start,
{
}

} // verus!
