//! Affinity-tagged channel halves: a producer or consumer handle that is
//! either confined or shared, dispatched by an exhaustive match so that
//! orchestration code is written once for both affinities and no operation
//! silently coerces one affinity into the other.

use vstd::prelude::*;
use crate::chan_state::{RecvOutcome, SendOutcome};
use crate::local_channel::{LocalReceiver, LocalSender};
use crate::shared_channel::{SharedReceiver, SharedSender};

verus! {

/// A producer handle tagged with its affinity.
#[verifier::reject_recursive_types(T)]
pub enum Sender<T> {
    /// Confined-affinity producer: must stay on the context it was made on.
    Local(LocalSender<T>),
    /// Shared-affinity producer: safe to hand across contexts.
    Shared(SharedSender<T>),
}

/// A consumer handle tagged with its affinity.
#[verifier::reject_recursive_types(T)]
pub enum Receiver<T> {
    /// Confined-affinity consumer: must stay on the context it was made on.
    Local(LocalReceiver<T>),
    /// Shared-affinity consumer: safe to hand across contexts.
    Shared(SharedReceiver<T>),
}

impl<T> Sender<T> {
    /// True on the confined-affinity variant.
    pub open spec fn is_local(self) -> bool {
        self is Local
    }

    /// Reports the handle's affinity tag: true exactly on the confined
    /// variant.
    pub fn is_confined(&self) -> (r: bool)
        ensures
            r == self.is_local(),
    {
        match self {
            Sender::Local(_) => true,
            Sender::Shared(_) => false,
        }
    }

    /// Offers a message to the underlying channel, whichever affinity it
    /// has. No outcome drops the message: when the queue is at capacity or
    /// the consumer half is gone, the message comes back unmodified.
    pub fn try_send(&self, v: T) -> (r: SendOutcome<T>)
        ensures
            (r matches SendOutcome::Full(u) ==> u == v),
            (r matches SendOutcome::Closed(u) ==> u == v),
    {
        match self {
            Sender::Local(s) => s.try_send(v),
            Sender::Shared(s) => s.try_send(v),
        }
    }

    /// Clones the producer handle. The clone feeds the same channel and
    /// carries the same affinity tag as the handle it was cloned from.
    pub fn duplicate(&self) -> (r: Sender<T>)
        ensures
            r.is_local() == self.is_local(),
            (self matches Sender::Local(h) ==> (r matches Sender::Local(g) && g.chan() == h.chan()
                && g.spec_capacity() == h.spec_capacity())),
            (self matches Sender::Shared(h) ==> (r matches Sender::Shared(g) && g.chan() == h.chan()
                && g.spec_capacity() == h.spec_capacity())),
    {
        match self {
            Sender::Local(s) => Sender::Local(s.duplicate()),
            Sender::Shared(s) => Sender::Shared(s.duplicate()),
        }
    }

    /// Retires this producer handle. Once every producer handle of the
    /// channel is retired, the consumer sees closure after draining.
    /// Dropping the handle without this call leaves the channel open.
    pub fn close(self) {
        match self {
            Sender::Local(s) => s.close(),
            Sender::Shared(s) => s.close(),
        }
    }
}

impl<T> Receiver<T> {
    /// True on the confined-affinity variant.
    pub open spec fn is_local(self) -> bool {
        self is Local
    }

    /// Reports the handle's affinity tag: true exactly on the confined
    /// variant.
    pub fn is_confined(&self) -> (r: bool)
        ensures
            r == self.is_local(),
    {
        match self {
            Receiver::Local(_) => true,
            Receiver::Shared(_) => false,
        }
    }

    /// Asks the underlying channel for the oldest queued message, whichever
    /// affinity it has. Reports closure only when the queue is empty and no
    /// producer handle is left. The handle itself is untouched.
    pub fn try_recv(&mut self) -> (r: RecvOutcome<T>)
        ensures
            *final(self) == *old(self),
    {
        match self {
            Receiver::Local(c) => c.try_recv(),
            Receiver::Shared(c) => c.try_recv(),
        }
    }

    /// Retires the consumer half: later sends report closure to producers.
    /// Dropping the handle without this call leaves the channel open.
    pub fn close(self) {
        match self {
            Receiver::Local(c) => c.close(),
            Receiver::Shared(c) => c.close(),
        }
    }
}

} // verus!
