//! The one place a running pipeline lives. A process has at most one
//! pipeline; a new one is only started once the old one is torn down.

use vstd::prelude::*;

verus! {

/// Holder of the process's only pipeline handle. `H` is whatever owns the
/// open streams; dropping it closes them.
pub struct PipelineSlot<H> {
    active: Option<H>,
}

impl<H> View for PipelineSlot<H> {
    type V = Option<H>;

    closed spec fn view(&self) -> Option<H> {
        self.active
    }
}

/// What a stop leaves in the slot: nothing.
pub open spec fn after_stop<H>(slot: Option<H>) -> Option<H> {
    None
}

/// What a stop hands to the caller for teardown: whatever was running.
pub open spec fn released_by_stop<H>(slot: Option<H>) -> Option<H> {
    slot
}

/// What an install leaves in the slot: the new pipeline alone.
pub open spec fn after_install<H>(slot: Option<H>, handle: H) -> Option<H> {
    Some(handle)
}

/// What an install finds in its way and hands back.
pub open spec fn evicted_by_install<H>(slot: Option<H>) -> Option<H> {
    slot
}

impl<H> PipelineSlot<H> {
    /// An empty slot: no pipeline runs.
    pub fn new() -> (slot: Self)
        ensures
            slot@ is None,
    {
        PipelineSlot { active: None }
    }

    pub fn is_active(&self) -> (r: bool)
        ensures
            r == (self@ is Some),
    {
        self.active.is_some()
    }

    /// The running pipeline, if any.
    pub fn active(&self) -> (r: Option<&H>)
        ensures
            r is Some == self@ is Some,
            r matches Some(h) ==> self@ == Some(*h),
    {
        self.active.as_ref()
    }

    /// Empties the slot and hands out what it held, for the caller to tear
    /// down. Safe on an empty slot.
    pub fn stop(&mut self) -> (released: Option<H>)
        ensures
            final(self)@ == after_stop(old(self)@),
            released == released_by_stop(old(self)@),
    {
        self.active.take()
    }

    /// Puts a freshly started pipeline into the slot. The slot is meant to
    /// have been emptied first; a handle still found there is handed back,
    /// so it is never kept beside the new one.
    pub fn install(&mut self, handle: H) -> (evicted: Option<H>)
        ensures
            final(self)@ == after_install(old(self)@, handle),
            evicted == evicted_by_install(old(self)@),
    {
        let evicted = self.active.take();
        self.active = Some(handle);
        evicted
    }
}

/// Restarting in two steps, stop and then install, never has two pipelines
/// alive: the stop releases whatever ran, the install then finds the slot
/// empty, and afterwards the slot holds the new pipeline alone.
pub proof fn lemma_restart_never_overlaps<H>(running: Option<H>, handle: H)
    ensures
        released_by_stop(running) == running,
        evicted_by_install(after_stop(running)) is None,
        after_install(after_stop(running), handle) == Some(handle),
{
}

} // verus!
