//! The event channel: one ordered queue from the workers to the render loop.
//!
//! This is the queue itself, without the waiting. Callers that share it
//! between threads keep it behind a lock; a blocking receive is a `poll` that
//! is repeated, after a wake-up, for as long as it answers `Empty`.
//!
//! The channel is also the way on which a worker's fatal condition reaches
//! the render loop: the worker closes the channel with its reason, and the
//! loop finds the channel closed at its next wait.

use std::collections::VecDeque;
use vstd::prelude::*;
use crate::event::AppEvent;
use crate::event::Fatal;
use crate::event::Received;

verus! {

/// The queue of events that were sent and not yet received, with the number
/// of senders that are still alive and the reason for which a worker closed
/// the channel, if one did.
///
/// Events leave in the order in which they were sent. The queue is bounded
/// only by memory, so sending never has to wait.
pub struct EventChannel {
    queue: VecDeque<AppEvent>,
    senders: usize,
    closed_by: Option<Fatal>,
}

impl View for EventChannel {
    type V = Seq<AppEvent>;

    /// The events that are queued, oldest first.
    closed spec fn view(&self) -> Seq<AppEvent> {
        self.queue@
    }
}

impl EventChannel {
    /// The number of senders that are still alive.
    pub closed spec fn spec_senders(&self) -> usize {
        self.senders
    }

    /// The reason for which a worker closed the channel, if one did.
    pub closed spec fn spec_closed_by(&self) -> Option<Fatal> {
        self.closed_by
    }

    /// What a poll answers: the oldest queued event if there is one;
    /// otherwise `Closed` with its reason if a worker closed the channel,
    /// `Closed` without a reason if every sender is gone, and `Empty` in any
    /// other case.
    pub open spec fn answer(
        queued: Seq<AppEvent>,
        senders: usize,
        closed_by: Option<Fatal>,
    ) -> Received {
        if queued.len() > 0 {
            Received::Event(queued.first())
        } else if closed_by is Some || senders == 0 {
            Received::Closed(closed_by)
        } else {
            Received::Empty
        }
    }

    /// An empty, open channel with this many senders.
    pub fn new(senders: usize) -> (channel: Self)
        ensures
            channel@ == Seq::<AppEvent>::empty(),
            channel.spec_senders() == senders,
            channel.spec_closed_by() == None::<Fatal>,
    {
        EventChannel { queue: VecDeque::new(), senders, closed_by: None }
    }

    /// The number of senders that are still alive.
    pub fn senders(&self) -> (senders: usize)
        ensures
            senders == self.spec_senders(),
    {
        self.senders
    }

    /// The number of events that are queued.
    pub fn len(&self) -> (len: usize)
        ensures
            len == self@.len(),
    {
        self.queue.len()
    }

    /// The reason for which a worker closed the channel, if one did.
    pub fn closed_by(&self) -> (cause: Option<Fatal>)
        ensures
            cause == self.spec_closed_by(),
    {
        self.closed_by
    }

    /// Queues an event behind all that are queued already.
    pub fn send(&mut self, event: AppEvent)
        ensures
            final(self)@ == old(self)@.push(event),
            final(self).spec_senders() == old(self).spec_senders(),
            final(self).spec_closed_by() == old(self).spec_closed_by(),
    {
        self.queue.push_back(event);
    }

    /// Records that one sender is gone. What is queued stays queued.
    pub fn sender_gone(&mut self)
        ensures
            final(self)@ == old(self)@,
            final(self).spec_senders() == if old(self).spec_senders() > 0 {
                (old(self).spec_senders() - 1) as usize
            } else {
                0usize
            },
            final(self).spec_closed_by() == old(self).spec_closed_by(),
    {
        if self.senders > 0 {
            self.senders = self.senders - 1;
        }
    }

    /// Closes the channel on behalf of a worker that cannot go on. What is
    /// queued stays queued and is still delivered; after it the receiver is
    /// told the reason. The reason given first is the one that stays.
    pub fn close(&mut self, cause: Fatal)
        ensures
            final(self)@ == old(self)@,
            final(self).spec_senders() == old(self).spec_senders(),
            final(self).spec_closed_by() == match old(self).spec_closed_by() {
                Some(first) => Some(first),
                None => Some(cause),
            },
    {
        if self.closed_by.is_none() {
            self.closed_by = Some(cause);
        }
    }

    /// Takes the oldest queued event, without waiting.
    ///
    /// With nothing queued the answer tells a quiet channel (`Empty`) from a
    /// dead one (`Closed`); events that were queued before the channel was
    /// closed or the last sender went are still delivered first.
    pub fn poll(&mut self) -> (received: Received)
        ensures
            received == Self::answer(
                old(self)@,
                old(self).spec_senders(),
                old(self).spec_closed_by(),
            ),
            final(self)@ == if old(self)@.len() > 0 {
                old(self)@.drop_first()
            } else {
                old(self)@
            },
            final(self).spec_senders() == old(self).spec_senders(),
            final(self).spec_closed_by() == old(self).spec_closed_by(),
    {
        match self.queue.pop_front() {
            Some(event) => Received::Event(event),
            None => {
                if self.closed_by.is_some() || self.senders == 0 {
                    Received::Closed(self.closed_by)
                } else {
                    Received::Empty
                }
            },
        }
    }
}

} // verus!
