//! The output channel: a single-producer, single-consumer, bounded,
//! ordered queue of text messages. Messages leave in the order they
//! entered; a full channel refuses the message so the producer can wait.

use vstd::prelude::*;

verus! {

/// The bound chosen for each session's channel: enough for bursts of
/// output, small enough that a slow client cannot cause unbounded
/// memory growth.
pub const SESSION_CHANNEL_CAPACITY: usize = 100;

/// A bounded FIFO queue of outbound messages for one session.
pub struct OutputChannel {
    queue: Vec<String>,
    capacity: usize,
}

impl OutputChannel {
    /// The queue never grows past its capacity, and the capacity is
    /// positive.
    pub open spec fn wf(&self) -> bool {
        1 <= self.spec_capacity() && self@.len() <= self.spec_capacity()
    }

    /// The bound the channel was created with.
    pub closed spec fn spec_capacity(&self) -> nat {
        self.capacity as nat
    }

    /// An empty channel with the given bound.
    pub fn new(capacity: usize) -> (r: Self)
        requires
            capacity >= 1,
        ensures
            r.wf(),
            r@ == Seq::<String>::empty(),
            r.spec_capacity() == capacity,
    {
        OutputChannel { queue: Vec::new(), capacity }
    }

    /// Appends a message if there is room; a full channel refuses it and
    /// is left unchanged.
    pub fn try_send(&mut self, message: String) -> (accepted: bool)
        requires
            old(self).wf(),
        ensures
            final(self).wf(),
            final(self).spec_capacity() == old(self).spec_capacity(),
            accepted <==> old(self)@.len() < old(self).spec_capacity(),
            accepted ==> final(self)@ == old(self)@.push(message),
            !accepted ==> final(self)@ == old(self)@,
    {
        if self.queue.len() < self.capacity {
            self.queue.push(message);
            true
        } else {
            false
        }
    }

    /// Removes and returns the oldest pending message, if any.
    pub fn recv(&mut self) -> (r: Option<String>)
        requires
            old(self).wf(),
        ensures
            final(self).wf(),
            final(self).spec_capacity() == old(self).spec_capacity(),
            match r {
                Some(m) => old(self)@.len() > 0 && m == old(self)@[0] && final(self)@ == old(
                    self,
                )@.drop_first(),
                None => old(self)@.len() == 0 && final(self)@ == old(self)@,
            },
    {
        if self.queue.len() > 0 {
            Some(self.queue.remove(0))
        } else {
            None
        }
    }

    /// How many messages are pending.
    pub fn len(&self) -> (r: usize)
        ensures
            r == self@.len(),
    {
        self.queue.len()
    }
}

impl View for OutputChannel {
    type V = Seq<String>;

    closed spec fn view(&self) -> Seq<String> {
        self.queue@
    }
}

} // verus!
