//! A bounded first-in first-out queue between one producer side and one consumer.

use std::collections::VecDeque;

use vstd::prelude::*;

verus! {

/// Why a value could not be queued; the value comes back to the sender.
#[derive(Debug, PartialEq, Eq)]
pub enum TrySendError<T> {
    /// The queue already holds as many values as its capacity.
    Full(T),
    /// The consumer is gone.
    Disconnected(T),
}

/// What a bounded queue holds, oldest value first.
pub struct ChannelModel<T> {
    pub capacity: nat,
    pub items: Seq<T>,
    pub connected: bool,
}

impl<T> ChannelModel<T> {
    pub open spec fn wf(self) -> bool {
        self.items.len() <= self.capacity
    }

    pub open spec fn accepts(self) -> bool {
        self.connected && self.items.len() < self.capacity
    }

    pub open spec fn pushed(self, value: T) -> ChannelModel<T> {
        ChannelModel { capacity: self.capacity, items: self.items.push(value), connected: self.connected }
    }

    pub open spec fn drained(self) -> ChannelModel<T> {
        ChannelModel { capacity: self.capacity, items: Seq::empty(), connected: self.connected }
    }

    /// The outcome of offering `value`: delivered, or handed back with the reason.
    pub open spec fn send_result(self, value: T) -> Result<(), TrySendError<T>> {
        if !self.connected {
            Err(TrySendError::Disconnected(value))
        } else if self.items.len() >= self.capacity {
            Err(TrySendError::Full(value))
        } else {
            Ok(())
        }
    }

    /// The queue after offering `value`.
    pub open spec fn offered(self, value: T) -> ChannelModel<T> {
        if self.accepts() {
            self.pushed(value)
        } else {
            self
        }
    }
}

/// A running count after one more; it starts over after the last number.
pub open spec fn next_count(count: u64) -> u64 {
    if count < u64::MAX {
        (count + 1) as u64
    } else {
        0
    }
}

/// A running count after one more; it starts over after the last number.
pub fn count_up(count: u64) -> (next: u64)
    ensures
        next == next_count(count),
{
    if count < u64::MAX {
        count + 1
    } else {
        0
    }
}

/// The sum of two counters; it starts over after the last number.
pub open spec fn joined(count: u64, more: u64) -> u64 {
    if count + more <= u64::MAX {
        (count + more) as u64
    } else {
        (count + more - u64::MAX - 1) as u64
    }
}

/// The sum of two counters.
pub fn join_counts(count: u64, more: u64) -> (sum: u64)
    ensures
        sum == joined(count, more),
{
    let room: u64 = u64::MAX - count;
    if more <= room {
        count + more
    } else {
        more - room - 1
    }
}

/// A queue that refuses values beyond its capacity instead of blocking.
#[derive(Debug)]
pub struct BoundedChannel<T> {
    capacity: usize,
    items: VecDeque<T>,
    connected: bool,
}

impl<T> View for BoundedChannel<T> {
    type V = ChannelModel<T>;

    closed spec fn view(&self) -> ChannelModel<T> {
        ChannelModel {
            capacity: self.capacity as nat,
            items: self.items@,
            connected: self.connected,
        }
    }
}

impl<T> BoundedChannel<T> {
    /// An empty connected queue with room for `capacity` values.
    pub fn new(capacity: usize) -> (channel: Self)
        ensures
            channel@ == (ChannelModel { capacity: capacity as nat, items: Seq::<T>::empty(), connected: true }),
            channel@.wf(),
    {
        BoundedChannel { capacity, items: VecDeque::new(), connected: true }
    }

    /// Queues `value`, or hands it back when the queue is full or abandoned.
    pub fn try_send(&mut self, value: T) -> (sent: Result<(), TrySendError<T>>)
        requires
            old(self)@.wf(),
        ensures
            final(self)@ == old(self)@.offered(value),
            final(self)@.wf(),
            sent == old(self)@.send_result(value),
    {
        if !self.connected {
            Err(TrySendError::Disconnected(value))
        } else if self.items.len() >= self.capacity {
            Err(TrySendError::Full(value))
        } else {
            self.items.push_back(value);
            Ok(())
        }
    }

    /// Takes the oldest queued value.
    pub fn try_recv(&mut self) -> (received: Option<T>)
        requires
            old(self)@.wf(),
        ensures
            final(self)@.wf(),
            final(self)@.capacity == old(self)@.capacity,
            final(self)@.connected == old(self)@.connected,
            old(self)@.items.len() == 0 ==> received is None && final(self)@.items == old(self)@.items,
            old(self)@.items.len() > 0 ==> received == Some(old(self)@.items[0])
                && final(self)@.items == old(self)@.items.drop_first(),
    {
        let received = self.items.pop_front();
        assert(old(self)@.items.len() > 0 ==> self.items@ =~= old(self)@.items.drop_first());
        received
    }

    /// Takes every queued value, oldest first.
    pub fn drain(&mut self) -> (received: VecDeque<T>)
        requires
            old(self)@.wf(),
        ensures
            received@ == old(self)@.items,
            final(self)@ == old(self)@.drained(),
            final(self)@.wf(),
    {
        let mut received: VecDeque<T> = VecDeque::new();
        received.append(&mut self.items);
        assert(received@ =~= old(self)@.items);
        assert(self.items@ =~= Seq::<T>::empty());
        received
    }

    /// Marks the consumer as gone: every later send is handed back.
    pub fn disconnect(&mut self)
        requires
            old(self)@.wf(),
        ensures
            final(self)@ == (ChannelModel { connected: false, ..old(self)@ }),
            final(self)@.wf(),
    {
        self.connected = false;
    }

    /// How many values wait in the queue.
    pub fn len(&self) -> (count: usize)
        ensures
            count == self@.items.len(),
    {
        self.items.len()
    }
}

/// A queue never holds more than its capacity, whatever is offered to it.
pub proof fn law_offer_never_exceeds_capacity<T>(queue: ChannelModel<T>, value: T)
    requires
        queue.wf(),
    ensures
        queue.offered(value).wf(),
        queue.send_result(value) is Ok <==> queue.offered(value).items == queue.items.push(value),
        queue.send_result(value) is Err <==> queue.offered(value) == queue,
{
    assert(queue.items.push(value).len() == queue.items.len() + 1);
}

/// A connected queue with room takes a value last and tells so; any other hands the
/// value back and stays as it is: as full where it is connected, as gone where not.
pub proof fn law_a_queue_keeps_its_order<T>(queue: ChannelModel<T>, value: T)
    ensures
        queue.send_result(value) is Ok <==> queue.connected && queue.items.len() < queue.capacity,
        queue.send_result(value) is Ok ==> queue.offered(value).items == queue.items.push(value),
        queue.send_result(value) is Err ==> queue.offered(value) == queue,
        queue.send_result(value) matches Err(TrySendError::Full(back)) ==> back == value
            && queue.connected,
        queue.send_result(value) matches Err(TrySendError::Disconnected(back)) ==> back == value
            && !queue.connected,
        queue.offered(value).capacity == queue.capacity,
        queue.offered(value).connected == queue.connected,
        queue.drained().items.len() == 0,
        queue.drained().capacity == queue.capacity,
        queue.drained().connected == queue.connected,
{
}

/// Counts run on past their last number as if they had no bound.
pub proof fn law_counts_wrap(count: u64, more: u64, next: u64, sum: u64)
    requires
        call_ensures(count_up, (count,), next),
        call_ensures(join_counts, (count, more), sum),
    ensures
        next as int == (count + 1) % 0x1_0000_0000_0000_0000,
        sum as int == (count + more) % 0x1_0000_0000_0000_0000,
{
}

} // verus!
