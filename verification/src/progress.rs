//! The progress-reporting contract: a sink that accepts a one-time total
//! (the denominator shown to an observer) and a stream of opaque completion
//! events, one per completed or skipped task.

use vstd::prelude::*;
use crate::task::DownloadResult;

verus! {

/// One unit of progress. `Unit` is the opaque marker sent for a task that
/// was satisfied without a transfer (integrity skip); `Finished` wraps the
/// outcome of a task that was actually driven to completion, the way a
/// mapped sender adapts a raw result channel into the sink's event type.
#[derive(Debug, PartialEq, Eq)]
pub enum ProgressEvent {
    Unit,
    Finished(DownloadResult),
}

/// The verified model of a progress sink: it records the announced total and
/// every event, in delivery order. An unverified driver drains `events` into
/// whatever transport (channel, UI callback) the observer uses.
#[derive(Debug)]
pub struct ProgressLog {
    total: Option<u32>,
    events: Vec<ProgressEvent>,
}

impl ProgressLog {
    pub closed spec fn spec_total(&self) -> Option<u32> {
        self.total
    }

    pub closed spec fn spec_events(&self) -> Seq<ProgressEvent> {
        self.events@
    }

    pub fn new() -> (log: Self)
        ensures
            log.spec_total() is None,
            log.spec_events() == Seq::<ProgressEvent>::empty(),
    {
        ProgressLog { total: None, events: Vec::new() }
    }

    /// Announce the denominator. Called once per batch, before work begins;
    /// the total must never change after work begins.
    pub fn set_total(&mut self, total: u32)
        ensures
            final(self).spec_total() == Some(total),
            final(self).spec_events() == old(self).spec_events(),
    {
        self.total = Some(total);
    }

    /// Deliver one event. Events are appended in delivery order and none is
    /// ever lost or duplicated by the sink.
    pub fn send(&mut self, event: ProgressEvent)
        ensures
            final(self).spec_events() == old(self).spec_events().push(event),
            final(self).spec_total() == old(self).spec_total(),
    {
        self.events.push(event);
    }

    /// Deliver the outcome of one completed task, wrapped as an event.
    pub fn send_result(&mut self, result: DownloadResult)
        ensures
            final(self).spec_events() == old(self).spec_events().push(
                ProgressEvent::Finished(result),
            ),
            final(self).spec_total() == old(self).spec_total(),
    {
        self.send(ProgressEvent::Finished(result));
    }

    pub fn total(&self) -> (r: Option<u32>)
        ensures
            r == self.spec_total(),
    {
        self.total
    }

    /// How many events have been delivered so far.
    pub fn event_count(&self) -> (n: usize)
        ensures
            n == self.spec_events().len(),
    {
        self.events.len()
    }

    pub fn events(&self) -> (r: &Vec<ProgressEvent>)
        ensures
            r@ == self.spec_events(),
    {
        &self.events
    }
}

} // verus!
