//! Bookkeeping for the one background job that prepares the next picture.
//!
//! The scheduler holds a flag that says whether a job is under way and a
//! slot for the job's result. It starts nothing itself: a request answers
//! with the item to work on, and whoever runs the job hands the result back
//! through [`PrefetchScheduler::complete`].

use crate::pipeline::ProcessedImage;
use vstd::prelude::*;

verus! {

/// Flag and handoff slot of the prefetch.
pub struct PrefetchScheduler {
    in_flight: bool,
    slot: Option<ProcessedImage>,
}

/// The state of a [`PrefetchScheduler`].
pub struct SchedulerView {
    /// A job has been handed out and its result has not been seen yet.
    pub in_flight: bool,
    /// The result that waits to be taken, if any.
    pub slot: Option<ProcessedImage>,
}

/// The state after a request for `total` items in all: untouched while a job
/// is in flight or there is nothing else to show, marked in flight otherwise.
pub open spec fn requested(state: SchedulerView, total: nat) -> SchedulerView {
    if state.in_flight || total <= 1 {
        state
    } else {
        SchedulerView { in_flight: true, slot: state.slot }
    }
}

/// Whether a request in this state hands out a job.
pub open spec fn request_dispatches(state: SchedulerView, total: nat) -> bool {
    !state.in_flight && total > 1
}

/// The state after a poll: the flag is cleared once a result has landed.
pub open spec fn polled(state: SchedulerView) -> SchedulerView {
    SchedulerView { in_flight: state.in_flight && state.slot is None, slot: state.slot }
}

/// The state after a job's result was handed in.
pub open spec fn completed(state: SchedulerView, result: ProcessedImage) -> SchedulerView {
    SchedulerView { in_flight: state.in_flight, slot: Some(result) }
}

/// The state after the slot was emptied.
pub open spec fn taken(state: SchedulerView) -> SchedulerView {
    SchedulerView { in_flight: state.in_flight, slot: None }
}

/// While a job is in flight a request changes nothing and hands out
/// nothing: there is never a second job.
pub proof fn lemma_request_while_in_flight(state: SchedulerView, total: nat)
    requires
        state.in_flight,
    ensures
        requested(state, total) == state,
        requested(state, total).in_flight,
        !request_dispatches(state, total),
{
}

/// A request hands out a job exactly when it marks the scheduler in flight
/// anew, and it never touches the slot.
pub proof fn lemma_request_marks_in_flight(state: SchedulerView, total: nat)
    ensures
        request_dispatches(state, total) <==> (!state.in_flight && requested(
            state,
            total,
        ).in_flight),
        requested(state, total).slot == state.slot,
        total <= 1 ==> requested(state, total) == state,
{
}

/// Taking from an empty slot changes nothing, so it is safe on every frame.
pub proof fn lemma_take_from_empty(state: SchedulerView)
    requires
        state.slot is None,
    ensures
        taken(state) == state,
{
}

impl View for PrefetchScheduler {
    type V = SchedulerView;

    closed spec fn view(&self) -> SchedulerView {
        SchedulerView { in_flight: self.in_flight, slot: self.slot }
    }
}

impl PrefetchScheduler {
    /// A scheduler with no job under way and an empty slot.
    pub fn new() -> (out: Self)
        ensures
            !out@.in_flight,
            out@.slot is None,
    {
        PrefetchScheduler { in_flight: false, slot: None }
    }

    /// Asks for `next_item` to be prepared, `total` being the number of items
    /// in all. While a job is in flight, or with no more than one item,
    /// nothing happens and nothing is handed out. Otherwise the scheduler is
    /// marked in flight and the answer is the item for which the caller has
    /// to start a job.
    pub fn request_prefetch(&mut self, next_item: usize, total: usize) -> (dispatched: Option<usize>)
        ensures
            final(self)@ == requested(old(self)@, total as nat),
            dispatched == if request_dispatches(old(self)@, total as nat) {
                Some(next_item)
            } else {
                None
            },
            old(self)@.in_flight ==> dispatched is None && final(self)@ == old(self)@,
        no_unwind
    {
        if self.in_flight || total <= 1 {
            None
        } else {
            self.in_flight = true;
            Some(next_item)
        }
    }

    /// Hands in the result of a job. It replaces whatever the slot held.
    pub fn complete(&mut self, result: ProcessedImage)
        ensures
            final(self)@ == completed(old(self)@, result),
        no_unwind
    {
        self.slot = Some(result);
    }

    /// Clears the flag once a result has landed in the slot.
    pub fn poll(&mut self)
        ensures
            final(self)@ == polled(old(self)@),
        no_unwind
    {
        let landed: bool = match &self.slot {
            Some(_) => true,
            None => false,
        };
        if self.in_flight && landed {
            self.in_flight = false;
        }
    }

    /// Removes the result from the slot and returns it, if there is one.
    /// With an empty slot nothing changes.
    pub fn take_if_ready(&mut self) -> (out: Option<ProcessedImage>)
        ensures
            out == old(self)@.slot,
            final(self)@ == taken(old(self)@),
        no_unwind
    {
        let mut out: Option<ProcessedImage> = None;
        std::mem::swap(&mut self.slot, &mut out);
        out
    }

    /// Whether a job has been handed out whose result has not been seen.
    pub fn is_in_flight(&self) -> (out: bool)
        ensures
            out == self@.in_flight,
    {
        self.in_flight
    }

    /// Whether a result waits in the slot.
    pub fn is_ready(&self) -> (out: bool)
        ensures
            out == self@.slot is Some,
    {
        self.slot.is_some()
    }
}

} // verus!
