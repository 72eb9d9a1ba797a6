//! The event channel: the ordered, unbounded, single-producer /
//! single-consumer handoff path between the measurement side and the
//! reconciliation side.
//!
//! While both ends are open, no event is duplicated or dropped, and events
//! come out in exactly the order they were sent.  Once the consumer closes
//! the channel, a send fails with `ChannelClosed` and the producer must take
//! that as its stop signal.

use std::collections::VecDeque;
use vstd::prelude::*;
use crate::event::{Event, EventModel};

verus! {

/// A send found the channel closed by the consumer.
#[derive(Clone, Copy, PartialEq, Eq, Structural, Debug)]
pub struct ChannelClosed;

/// The in-process event channel.
pub struct EventChannel {
    queue: VecDeque<Event>,
    closed: bool,
}

impl EventChannel {
    /// The events sent but not yet received, oldest first.
    pub closed spec fn pending(&self) -> Seq<EventModel> {
        self.queue@.map(|i: int, e: Event| e@)
    }

    /// Whether the consumer has closed the channel.
    pub closed spec fn is_closed(&self) -> bool {
        self.closed
    }

    /// An open channel with nothing pending.
    pub fn new() -> (c: EventChannel)
        ensures
            c.pending() == Seq::<EventModel>::empty(),
            !c.is_closed(),
    {
        let c = EventChannel { queue: VecDeque::new(), closed: false };
        proof {
            assert(c.pending() =~= Seq::<EventModel>::empty());
        }
        c
    }

    /// How many events are pending.
    pub fn len(&self) -> (n: usize)
        ensures
            n == self.pending().len(),
    {
        self.queue.len()
    }

    /// Sends an event: appends it behind everything already pending.  Fails,
    /// changing nothing, exactly when the channel is closed.
    pub fn send(&mut self, ev: Event) -> (r: Result<(), ChannelClosed>)
        ensures
            old(self).is_closed() ==> r == Err::<(), ChannelClosed>(ChannelClosed)
                && final(self).pending() == old(self).pending(),
            !old(self).is_closed() ==> r == Ok::<(), ChannelClosed>(())
                && final(self).pending() == old(self).pending().push(ev@),
            final(self).is_closed() == old(self).is_closed(),
    {
        if self.closed {
            Err(ChannelClosed)
        } else {
            self.queue.push_back(ev);
            proof {
                assert(self.pending() =~= old(self).pending().push(ev@));
            }
            Ok(())
        }
    }

    /// Receives the oldest pending event, or `None` when nothing is pending.
    pub fn recv(&mut self) -> (r: Option<Event>)
        ensures
            old(self).pending().len() == 0 ==> r is None
                && final(self).pending() == old(self).pending(),
            old(self).pending().len() > 0 ==> (r matches Some(e)
                && e@ == old(self).pending()[0]
                && final(self).pending() == old(self).pending().drop_first()),
            final(self).is_closed() == old(self).is_closed(),
    {
        let r = self.queue.pop_front();
        proof {
            if old(self).pending().len() > 0 {
                assert(self.pending() =~= old(self).pending().drop_first());
            } else {
                assert(self.pending() =~= old(self).pending());
            }
        }
        r
    }

    /// Closes the channel from the consumer side; what is already pending
    /// stays readable, and every later send fails.
    pub fn close(&mut self)
        ensures
            final(self).is_closed(),
            final(self).pending() == old(self).pending(),
    {
        self.closed = true;
    }
}

} // verus!
