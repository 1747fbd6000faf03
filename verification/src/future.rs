//! The request/reply correlation primitive both event loops use: a
//! single-use cell that one side fills with the reply and the other side
//! polls. The waker half lives with the runtime; what is verified here is
//! the cell's protocol: the reply is set at most once, and the waiter takes
//! exactly the value that was set.

use vstd::prelude::*;

verus! {

/// A single-use reply cell. `set_reply` fills it once; polling takes the
/// value out once.
pub struct ButtplugFutureState<T> {
    pub reply: Option<T>,
    pub taken: bool,
}

impl<T> ButtplugFutureState<T> {
    /// An empty cell: no reply yet, nothing taken.
    pub fn new() -> (r: ButtplugFutureState<T>)
        ensures
            r.reply is None,
            !r.taken,
    {
        ButtplugFutureState { reply: None, taken: false }
    }

    /// Whether a reply is waiting to be taken.
    pub open spec fn has_reply(self) -> bool {
        self.reply is Some
    }

    /// Stores the reply and would wake the waiter. A cell's reply is set
    /// at most once, and never after the waiter took it.
    pub fn set_reply(&mut self, reply: T)
        requires
            !old(self).has_reply(),
            !old(self).taken,
        ensures
            final(self).reply == Some(reply),
            !final(self).taken,
    {
        self.reply = Some(reply);
    }

    /// One poll of the waiting side: with the reply set, completes with
    /// exactly the value that was set and consumes the cell; without it,
    /// yields nothing (the runtime installs the waker and suspends). A
    /// consumed cell is never polled again.
    pub fn take_reply(&mut self) -> (r: Option<T>)
        requires
            !old(self).taken,
        ensures
            old(self).has_reply() ==> r == old(self).reply && final(self).reply is None
                && final(self).taken,
            !old(self).has_reply() ==> r is None && *final(self) == *old(self),
    {
        match self.reply.take() {
            Some(v) => {
                self.taken = true;
                Some(v)
            },
            None => None,
        }
    }
}

} // verus!
