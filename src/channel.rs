//! A bounded first-in first-out hand-off between one producer and one
//! consumer. The queue decides; the caller blocks and retries on `Full` and
//! `Empty`. Closing the receiving side is the cancellation signal.
use vstd::prelude::*;

use std::collections::VecDeque;

verus! {

/// Why a send did not take place. The item is handed back: nothing is dropped.
pub enum SendError<T> {
    /// The queue holds `capacity` items; try again after a receive.
    Full(T),
    /// The receiving side is closed; the producer should stop.
    Closed(T),
}

/// Why a receive returned no item.
#[derive(Clone, Copy, Debug, PartialEq, Eq, Structural)]
pub enum RecvError {
    /// Nothing is queued yet; try again after a send.
    Empty,
    /// Nothing is queued and the sending side is closed: the stream ended.
    Closed,
}

/// A bounded FIFO queue of capacity at least one.
pub struct FrameQueue<T> {
    items: VecDeque<T>,
    capacity: usize,
    receiver_closed: bool,
    sender_closed: bool,
}

impl<T> FrameQueue<T> {
    /// The items in flight, oldest first.
    pub closed spec fn items(&self) -> Seq<T> {
        self.items@
    }

    /// The most items the queue ever holds.
    pub closed spec fn capacity_spec(&self) -> nat {
        self.capacity as nat
    }

    /// The receiving side has been closed.
    pub closed spec fn receiver_closed_spec(&self) -> bool {
        self.receiver_closed
    }

    /// The sending side has been closed.
    pub closed spec fn sender_closed_spec(&self) -> bool {
        self.sender_closed
    }

    /// Capacity at least one, and never more items in flight than capacity.
    pub open spec fn wf(&self) -> bool {
        &&& self.capacity_spec() >= 1
        &&& self.items().len() <= self.capacity_spec()
    }

    /// An open, empty queue that holds at most `capacity` items.
    pub fn new(capacity: usize) -> (q: Self)
        requires
            capacity >= 1,
        ensures
            q.wf(),
            q.items() == Seq::<T>::empty(),
            q.capacity_spec() == capacity,
            !q.receiver_closed_spec(),
            !q.sender_closed_spec(),
    {
        FrameQueue { items: VecDeque::new(), capacity, receiver_closed: false, sender_closed: false }
    }

    pub fn capacity(&self) -> (r: usize)
        ensures
            r == self.capacity_spec(),
    {
        self.capacity
    }

    pub fn len(&self) -> (r: usize)
        ensures
            r == self.items().len(),
    {
        self.items.len()
    }

    pub fn is_receiver_closed(&self) -> (r: bool)
        ensures
            r == self.receiver_closed_spec(),
    {
        self.receiver_closed
    }

    pub fn is_sender_closed(&self) -> (r: bool)
        ensures
            r == self.sender_closed_spec(),
    {
        self.sender_closed
    }

    /// Queues `item` at the back. Fails at once with `Closed` once the
    /// receiving side is closed, and with `Full` while `capacity` items are in
    /// flight; either way the item comes back and the queue is unchanged.
    pub fn try_send(&mut self, item: T) -> (r: Result<(), SendError<T>>)
        requires
            old(self).wf(),
        ensures
            final(self).wf(),
            final(self).capacity_spec() == old(self).capacity_spec(),
            final(self).receiver_closed_spec() == old(self).receiver_closed_spec(),
            final(self).sender_closed_spec() == old(self).sender_closed_spec(),
            old(self).receiver_closed_spec() ==> r == Err::<(), SendError<T>>(SendError::Closed(item))
                && final(self).items() == old(self).items(),
            !old(self).receiver_closed_spec() && old(self).items().len() == old(self).capacity_spec()
                ==> r == Err::<(), SendError<T>>(SendError::Full(item)) && final(self).items() == old(
                self,
            ).items(),
            !old(self).receiver_closed_spec() && old(self).items().len() < old(self).capacity_spec()
                ==> r is Ok && final(self).items() == old(self).items().push(item),
    {
        if self.receiver_closed {
            Err(SendError::Closed(item))
        } else if self.items.len() >= self.capacity {
            Err(SendError::Full(item))
        } else {
            self.items.push_back(item);
            Ok(())
        }
    }

    /// Takes the oldest item. Items queued before the sending side closed are
    /// still delivered; `Closed` comes only once none is left.
    pub fn try_recv(&mut self) -> (r: Result<T, RecvError>)
        requires
            old(self).wf(),
        ensures
            final(self).wf(),
            final(self).capacity_spec() == old(self).capacity_spec(),
            final(self).receiver_closed_spec() == old(self).receiver_closed_spec(),
            final(self).sender_closed_spec() == old(self).sender_closed_spec(),
            old(self).items().len() > 0 ==> r == Ok::<T, RecvError>(old(self).items()[0])
                && final(self).items() == old(self).items().drop_first(),
            old(self).items().len() == 0 ==> final(self).items() == old(self).items() && r == Err::<
                T,
                RecvError,
            >(if old(self).sender_closed_spec() {
                RecvError::Closed
            } else {
                RecvError::Empty
            }),
    {
        match self.items.pop_front() {
            Some(item) => Ok(item),
            None => {
                if self.sender_closed {
                    Err(RecvError::Closed)
                } else {
                    Err(RecvError::Empty)
                }
            },
        }
    }

    /// Closes the receiving side: queued items are discarded and every later
    /// send fails with `Closed`.
    pub fn close_receiver(&mut self)
        requires
            old(self).wf(),
        ensures
            final(self).wf(),
            final(self).receiver_closed_spec(),
            final(self).items() == Seq::<T>::empty(),
            final(self).capacity_spec() == old(self).capacity_spec(),
            final(self).sender_closed_spec() == old(self).sender_closed_spec(),
    {
        self.receiver_closed = true;
        self.items.clear();
    }

    /// Closes the sending side: the consumer drains what is queued, then
    /// receives `Closed`.
    pub fn close_sender(&mut self)
        requires
            old(self).wf(),
        ensures
            final(self).wf(),
            final(self).sender_closed_spec(),
            final(self).items() == old(self).items(),
            final(self).capacity_spec() == old(self).capacity_spec(),
            final(self).receiver_closed_spec() == old(self).receiver_closed_spec(),
    {
        self.sender_closed = true;
    }
}

} // verus!
