//! The event recorder.
//!
//! Given a set of (label, event-source) subscriptions, the recorder
//! appends every event emitted by a subscribed source to a single
//! ordered log, tagged with its label and the step at which it was
//! observed. No subscribed event is dropped; the flush is explicit and
//! hands the log out for persistence.

use vstd::prelude::*;
use crate::errors::SimulationError;
use crate::ledger::{EventSource, LedgerEvent};

verus! {

/// One (label, event-source) pair the recorder listens on.
#[derive(Clone, Debug, PartialEq)]
pub struct Subscription {
    pub label: String,
    pub source: EventSource,
}

/// One captured event: its subscription label, the step at which it was
/// observed, and the event itself.
#[derive(Clone, Debug, PartialEq)]
pub struct RecordedEvent {
    pub label: String,
    pub step: u64,
    pub event: LedgerEvent,
}

/// The mathematical content of a captured event.
pub open spec fn spec_entry(e: RecordedEvent) -> (Seq<char>, int, LedgerEvent) {
    (e.label@, e.step as int, e.event)
}

/// The label of the first subscription listening on `src`, if any.
pub open spec fn spec_label_for(subs: Seq<Subscription>, src: EventSource) -> Option<Seq<char>>
    decreases subs.len(),
{
    if subs.len() == 0 {
        None
    } else if subs[0].source == src {
        Some(subs[0].label@)
    } else {
        spec_label_for(subs.drop_first(), src)
    }
}

/// What one step's batch of events adds to the log: every event from a
/// subscribed source, in emission order, tagged with its label and the
/// step; events from unsubscribed sources are not captured.
pub open spec fn spec_captured(
    subs: Seq<Subscription>,
    step: int,
    events: Seq<LedgerEvent>,
) -> Seq<(Seq<char>, int, LedgerEvent)>
    decreases events.len(),
{
    if events.len() == 0 {
        Seq::empty()
    } else {
        let rest = spec_captured(subs, step, events.drop_last());
        match spec_label_for(subs, events.last().source) {
            Some(l) => rest.push((l, step, events.last())),
            None => rest,
        }
    }
}

/// An append-only, labeled log of state-change events.
pub struct EventRecorder {
    pub subscriptions: Vec<Subscription>,
    pub log: Vec<RecordedEvent>,
    pub flushed: bool,
}

impl EventRecorder {
    /// The log as mathematical entries, oldest first.
    pub open spec fn view_log(self) -> Seq<(Seq<char>, int, LedgerEvent)> {
        self.log@.map_values(|e: RecordedEvent| spec_entry(e))
    }

    /// A recorder listening on the given subscriptions, with an empty log.
    pub fn new(subscriptions: Vec<Subscription>) -> (r: EventRecorder)
        ensures
            r.subscriptions == subscriptions,
            r.log@ == Seq::<RecordedEvent>::empty(),
            !r.flushed,
    {
        EventRecorder { subscriptions, log: Vec::new(), flushed: false }
    }

    /// The label of the first subscription listening on `source`.
    fn label_for(&self, source: EventSource) -> (r: Option<String>)
        ensures
            match r {
                Some(l) => spec_label_for(self.subscriptions@, source) == Some(l@),
                None => spec_label_for(self.subscriptions@, source) is None,
            },
    {
        let n: usize = self.subscriptions.len();
        let mut i: usize = 0;
        proof {
            assert(self.subscriptions@.skip(0) =~= self.subscriptions@);
        }
        while i < n
            invariant
                i <= n,
                n == self.subscriptions@.len(),
                spec_label_for(self.subscriptions@, source) == spec_label_for(
                    self.subscriptions@.skip(i as int),
                    source,
                ),
            decreases n - i,
        {
            let sub: &Subscription = &self.subscriptions[i];
            proof {
                assert(self.subscriptions@.skip(i as int)[0] == self.subscriptions@[i as int]);
                assert(self.subscriptions@.skip(i as int).drop_first() =~= self.subscriptions@.skip(
                    i as int + 1,
                ));
            }
            if source_eq(sub.source, source) {
                return Some(sub.label.clone());
            }
            i = i + 1;
        }
        None
    }

    /// Append every subscribed event of one step's batch to the log,
    /// tagged with its label and the step number. Unsubscribed events
    /// are skipped; nothing already logged is touched.
    pub fn record_step(&mut self, step: u64, events: &Vec<LedgerEvent>)
        ensures
            final(self).view_log() == old(self).view_log() + spec_captured(
                old(self).subscriptions@,
                step as int,
                events@,
            ),
            final(self).subscriptions == old(self).subscriptions,
            final(self).flushed == old(self).flushed,
    {
        let n: usize = events.len();
        let mut i: usize = 0;
        while i < n
            invariant
                i <= n,
                n == events@.len(),
                self.subscriptions == old(self).subscriptions,
                self.flushed == old(self).flushed,
                self.view_log() == old(self).view_log() + spec_captured(
                    old(self).subscriptions@,
                    step as int,
                    events@.take(i as int),
                ),
            decreases n - i,
        {
            let event: LedgerEvent = events[i];
            proof {
                assert(events@.take(i as int + 1).drop_last() =~= events@.take(i as int));
                assert(events@.take(i as int + 1).last() == events@[i as int]);
            }
            match self.label_for(event.source) {
                Some(label) => {
                    let ghost before: Seq<RecordedEvent> = self.log@;
                    self.log.push(RecordedEvent { label, step, event });
                    proof {
                        assert(self.log@.map_values(|e: RecordedEvent| spec_entry(e))
                            =~= before.map_values(|e: RecordedEvent| spec_entry(e)).push(
                            spec_entry(self.log@.last()),
                        ));
                    }
                },
                None => (),
            }
            i = i + 1;
        }
        proof {
            assert(events@.take(n as int) =~= events@);
        }
    }

    /// Hand the whole log out for persistence and mark the recorder
    /// flushed. Flushing twice is refused with a `Recorder` error.
    pub fn flush(&mut self) -> (r: Result<Vec<RecordedEvent>, SimulationError>)
        ensures
            r is Ok <==> !old(self).flushed,
            r is Ok ==> ({
                &&& r->Ok_0@ == old(self).log@
                &&& final(self).log@ == Seq::<RecordedEvent>::empty()
                &&& final(self).flushed
                &&& final(self).subscriptions == old(self).subscriptions
            }),
            r is Err ==> r->Err_0 == SimulationError::Recorder && *final(self) == *old(self),
    {
        if self.flushed {
            return Err(SimulationError::Recorder);
        }
        let mut drained: Vec<RecordedEvent> = Vec::new();
        std::mem::swap(&mut drained, &mut self.log);
        self.flushed = true;
        Ok(drained)
    }

    /// Number of captured events.
    pub fn len(&self) -> (r: usize)
        ensures
            r == self.log@.len(),
    {
        self.log.len()
    }
}

/// Whether two event sources are the same contract.
fn source_eq(a: EventSource, b: EventSource) -> (r: bool)
    ensures
        r <==> a == b,
{
    match (a, b) {
        (EventSource::Lex, EventSource::Lex) => true,
        (EventSource::Pool, EventSource::Pool) => true,
        _ => false,
    }
}

} // verus!
