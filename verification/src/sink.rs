//! The event sink: an unbounded first-in first-out queue of events with an
//! open/closed state. Every job unit of a batch delivers its single event
//! here; the consumer drains it incrementally. A send to a closed sink fails
//! without disturbing the queued events, and the failure is reported as data,
//! never as a fault.

use vstd::prelude::*;
use crate::event::{EventModel, OCREvent};

verus! {

/// The sink refused an event because its consuming side is gone.
#[derive(Clone, Copy, Debug)]
pub struct SendFailure {}

/// An ordered buffer of events shared by the job units of one batch.
/// Sends append, the consumer pops from the front, and closing the sink
/// makes every later send fail while keeping what was already queued.
pub struct EventSink {
    events: Vec<OCREvent>,
    open: bool,
}

impl EventSink {
    /// The events queued and not yet consumed, oldest first.
    pub closed spec fn queue(&self) -> Seq<EventModel> {
        self.events@.map_values(|e: OCREvent| e@)
    }

    /// Whether the sink still accepts events.
    pub closed spec fn is_open(&self) -> bool {
        self.open
    }

    /// A fresh, empty, open sink.
    pub fn new() -> (sink: EventSink)
        ensures
            sink.is_open(),
            sink.queue() == Seq::<EventModel>::empty(),
    {
        let sink = EventSink { events: Vec::new(), open: true };
        proof {
            assert(sink.queue() =~= Seq::<EventModel>::empty());
        }
        sink
    }

    /// Appends one event if the sink is open; reports `SendFailure` and
    /// leaves the queue untouched if it is closed. Never panics, so a
    /// delivery failure cannot spread to sibling jobs.
    pub fn send(&mut self, event: OCREvent) -> (r: Result<(), SendFailure>)
        ensures
            old(self).is_open() ==> {
                &&& final(self).is_open()
                &&& final(self).queue() == old(self).queue().push(event@)
                &&& r is Ok
            },
            !old(self).is_open() ==> {
                &&& !final(self).is_open()
                &&& final(self).queue() == old(self).queue()
                &&& r is Err
            },
    {
        if self.open {
            let ghost prior = self.events@;
            self.events.push(event);
            proof {
                assert(self.queue() =~= old(self).queue().push(event@));
            }
            Ok(())
        } else {
            Err(SendFailure {})
        }
    }

    /// Pops the oldest queued event, or `None` when the queue is empty.
    /// Consumption does not change whether the sink is open.
    pub fn recv(&mut self) -> (r: Option<OCREvent>)
        ensures
            final(self).is_open() == old(self).is_open(),
            old(self).queue().len() > 0 ==> {
                &&& r matches Some(e) && e@ == old(self).queue()[0]
                &&& final(self).queue() == old(self).queue().drop_first()
            },
            old(self).queue().len() == 0 ==> {
                &&& r is None
                &&& final(self).queue() == old(self).queue()
            },
    {
        if self.events.len() == 0 {
            None
        } else {
            let e = self.events.remove(0);
            proof {
                assert(self.queue() =~= old(self).queue().drop_first());
            }
            Some(e)
        }
    }

    /// How many events are queued and not yet consumed.
    pub fn len(&self) -> (n: usize)
        ensures
            n == self.queue().len(),
    {
        self.events.len()
    }

    /// Drops the consuming side: every later send fails, and what was
    /// already queued stays readable.
    pub fn close(&mut self)
        ensures
            !final(self).is_open(),
            final(self).queue() == old(self).queue(),
    {
        self.open = false;
    }
}

} // verus!
