//! A bounded queue between one producer and one consumer, as a state
//! machine: sending to a full queue and receiving from an empty one are
//! refused, and whoever runs the queue waits and tries again.

use std::collections::VecDeque;
use vstd::prelude::*;

verus! {

/// Why an item was not taken. The item comes back unchanged.
pub enum TrySendError<T> {
    /// The queue holds as many items as it may.
    Full(T),
    /// The consumer has gone.
    Disconnected(T),
}

/// Why no item was handed out.
#[derive(Clone, Copy, Debug, PartialEq, Eq, Structural)]
pub enum TryRecvError {
    /// The queue is empty and the producer may still send.
    Empty,
    /// The queue is empty and the producer has gone.
    Disconnected,
}

/// The most items that a queue of the given capacity ever holds. A queue of
/// capacity zero takes one item, and only while the consumer waits for it.
pub open spec fn occupancy_bound(capacity: usize) -> nat {
    if capacity == 0 {
        1
    } else {
        capacity as nat
    }
}

/// A bounded first-in first-out queue with a record of all it was sent.
pub struct Channel<T> {
    buffer: VecDeque<T>,
    capacity: usize,
    sender_alive: bool,
    receiver_alive: bool,
    receiver_waiting: bool,
    sent: Ghost<Seq<T>>,
    received: Ghost<nat>,
}

impl<T> Channel<T> {
    /// Every item sent so far, in the order of sending.
    pub closed spec fn sent(&self) -> Seq<T> {
        self.sent@
    }

    /// The number of items handed out so far.
    pub closed spec fn received(&self) -> nat {
        self.received@
    }

    /// The number of items that the queue may hold.
    pub closed spec fn capacity(&self) -> usize {
        self.capacity
    }

    /// The producer has not hung up.
    pub closed spec fn sender_alive(&self) -> bool {
        self.sender_alive
    }

    /// The consumer has not hung up.
    pub closed spec fn receiver_alive(&self) -> bool {
        self.receiver_alive
    }

    /// The consumer found the queue empty and has been handed nothing
    /// since.
    pub closed spec fn receiver_waiting(&self) -> bool {
        self.receiver_waiting
    }

    /// The items sent and not yet handed out, oldest first.
    pub open spec fn buffered(&self) -> Seq<T> {
        self.sent().subrange(self.received() as int, self.sent().len() as int)
    }

    /// The queue holds what was sent and not yet handed out, and no more
    /// than it may.
    pub closed spec fn wf(&self) -> bool {
        &&& self.received@ <= self.sent@.len()
        &&& self.buffer@ == self.sent@.subrange(self.received@ as int, self.sent@.len() as int)
        &&& self.buffer@.len() <= occupancy_bound(self.capacity)
    }

    /// The queue would take one more item.
    pub open spec fn has_room(&self) -> bool {
        ||| self.buffered().len() < self.capacity()
        ||| (self.capacity() == 0 && self.receiver_waiting() && self.buffered().len() == 0)
    }

    /// A queue never holds more than its bound.
    pub proof fn lemma_bounded(&self)
        requires
            self.wf(),
        ensures
            self.buffered().len() <= occupancy_bound(self.capacity()),
            self.received() <= self.sent().len(),
    {
    }

    /// Appends an item unless the consumer has gone or the queue has no
    /// room; then the item comes back and nothing changes.
    pub fn send(&mut self, t: T) -> (r: Result<(), TrySendError<T>>)
        requires
            old(self).wf(),
        ensures
            final(self).wf(),
            final(self).capacity() == old(self).capacity(),
            final(self).sender_alive() == old(self).sender_alive(),
            final(self).receiver_alive() == old(self).receiver_alive(),
            final(self).receiver_waiting() == old(self).receiver_waiting(),
            final(self).received() == old(self).received(),
            match r {
                Ok(()) => {
                    &&& old(self).receiver_alive()
                    &&& old(self).has_room()
                    &&& final(self).sent() == old(self).sent().push(t)
                },
                Err(TrySendError::Disconnected(back)) => {
                    &&& !old(self).receiver_alive()
                    &&& back == t
                    &&& final(self).sent() == old(self).sent()
                },
                Err(TrySendError::Full(back)) => {
                    &&& old(self).receiver_alive()
                    &&& !old(self).has_room()
                    &&& back == t
                    &&& final(self).sent() == old(self).sent()
                },
            },
    {
        if !self.receiver_alive {
            return Err(TrySendError::Disconnected(t));
        }
        let held = self.buffer.len();
        let room = held < self.capacity || (self.capacity == 0 && self.receiver_waiting && held
            == 0);
        if !room {
            return Err(TrySendError::Full(t));
        }
        self.buffer.push_back(t);
        proof {
            let before = self.sent@;
            self.sent@ = before.push(t);
            assert(self.buffer@ =~= self.sent@.subrange(
                self.received@ as int,
                self.sent@.len() as int,
            ));
        }
        Ok(())
    }

    /// Hands out the oldest item. An empty queue hands out nothing: the
    /// consumer is then waiting, unless the producer has gone.
    pub fn recv(&mut self) -> (r: Result<T, TryRecvError>)
        requires
            old(self).wf(),
        ensures
            final(self).wf(),
            final(self).capacity() == old(self).capacity(),
            final(self).sender_alive() == old(self).sender_alive(),
            final(self).receiver_alive() == old(self).receiver_alive(),
            final(self).sent() == old(self).sent(),
            match r {
                Ok(item) => {
                    &&& old(self).received() < old(self).sent().len()
                    &&& item == old(self).sent()[old(self).received() as int]
                    &&& final(self).received() == old(self).received() + 1
                    &&& !final(self).receiver_waiting()
                },
                Err(TryRecvError::Empty) => {
                    &&& old(self).received() == old(self).sent().len()
                    &&& old(self).sender_alive()
                    &&& final(self).received() == old(self).received()
                    &&& final(self).receiver_waiting()
                },
                Err(TryRecvError::Disconnected) => {
                    &&& old(self).received() == old(self).sent().len()
                    &&& !old(self).sender_alive()
                    &&& final(self).received() == old(self).received()
                    &&& final(self).receiver_waiting() == old(self).receiver_waiting()
                },
            },
    {
        match self.buffer.pop_front() {
            Some(item) => {
                self.receiver_waiting = false;
                proof {
                    self.received@ = self.received@ + 1;
                    assert(self.buffer@ =~= self.sent@.subrange(
                        self.received@ as int,
                        self.sent@.len() as int,
                    ));
                }
                Ok(item)
            },
            None => {
                if self.sender_alive {
                    self.receiver_waiting = true;
                    Err(TryRecvError::Empty)
                } else {
                    Err(TryRecvError::Disconnected)
                }
            },
        }
    }

    /// The number of items sent and not yet handed out.
    pub fn current_len(&self) -> (n: usize)
        requires
            self.wf(),
        ensures
            n == self.buffered().len(),
            n <= occupancy_bound(self.capacity()),
    {
        self.buffer.len()
    }

    /// The producer hangs up: what it sent stays, and nothing more comes.
    pub fn hang_up(&mut self)
        requires
            old(self).wf(),
        ensures
            final(self).wf(),
            !final(self).sender_alive(),
            final(self).capacity() == old(self).capacity(),
            final(self).receiver_alive() == old(self).receiver_alive(),
            final(self).receiver_waiting() == old(self).receiver_waiting(),
            final(self).sent() == old(self).sent(),
            final(self).received() == old(self).received(),
    {
        self.sender_alive = false;
    }

    /// The consumer hangs up: every later send is refused.
    pub fn close(&mut self)
        requires
            old(self).wf(),
        ensures
            final(self).wf(),
            !final(self).receiver_alive(),
            final(self).capacity() == old(self).capacity(),
            final(self).sender_alive() == old(self).sender_alive(),
            final(self).receiver_waiting() == old(self).receiver_waiting(),
            final(self).sent() == old(self).sent(),
            final(self).received() == old(self).received(),
    {
        self.receiver_alive = false;
    }
}

/// An empty queue that holds up to `channel_len` items.
pub fn sync_channel<T>(channel_len: usize) -> (c: Channel<T>)
    ensures
        c.wf(),
        c.sent() == Seq::<T>::empty(),
        c.received() == 0,
        c.capacity() == channel_len,
        c.sender_alive(),
        c.receiver_alive(),
        !c.receiver_waiting(),
{
    let c = Channel {
        buffer: VecDeque::new(),
        capacity: channel_len,
        sender_alive: true,
        receiver_alive: true,
        receiver_waiting: false,
        sent: Ghost(Seq::empty()),
        received: Ghost(0),
    };
    assert(c.buffer@ =~= c.sent@.subrange(0, 0));
    c
}

} // verus!
