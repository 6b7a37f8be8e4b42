//! Confined-affinity channel handles: producer and consumer halves sharing
//! one verified `ChannelState` behind a reference-counted cell. Holding an
//! `Rc` pins both handles to the execution context they were created on,
//! which is exactly the confinement the affinity demands: the handles
//! cannot be handed to another context.
//!
//! Every handle operation takes the state out of the cell, performs one
//! verified transition of the channel state machine on it, and puts it
//! back; the only trusted pieces are the cell plumbing itself (build,
//! share, exchange), which runs no logic of its own.
//!
//! Closure is an explicit protocol: a handle is retired with `close`, and a
//! handle that is merely dropped leaves the channel open. Every owner of a
//! handle — the wrapper's start operation included — must retire it when it
//! is done, or its counterpart will keep waiting on a channel nobody serves.

use vstd::prelude::*;
use core::cell::RefCell;
use std::rc::Rc;
use crate::chan_state::{ChannelState, RecvOutcome, SendOutcome};

verus! {

#[verifier::external_type_specification]
#[verifier::external_body]
#[verifier::reject_recursive_types(T)]
pub struct ExRefCell<T: ?Sized>(RefCell<T>);

/// Relies on core::cell::RefCell::new to build a cell that two handles of
/// a confined-affinity object will share.
#[verifier::external_body]
pub(crate) fn cell_new<T>(value: T) -> (c: RefCell<T>) {
    RefCell::new(value)
}

/// Relies on std::rc::Rc::clone: hands out one more reference to the same
/// underlying value.
#[verifier::external_body]
pub(crate) fn rc_dup<T>(cell: &Rc<T>) -> (r: Rc<T>)
    ensures
        r == *cell,
{
    Rc::clone(cell)
}

/// Relies on core::cell::RefCell::replace: exchanges the stored value for
/// the given one and returns what was stored. This is the only access path
/// to a confined cell: verified code takes the state out through it, runs a
/// verified transition, and puts the state back.
#[verifier::external_body]
pub(crate) fn cell_swap<T>(cell: &RefCell<T>, value: T) -> (r: T) {
    cell.replace(value)
}

/// Producer half of a confined-affinity channel.
#[verifier::reject_recursive_types(T)]
pub struct LocalSender<T> {
    cell: Rc<RefCell<ChannelState<T>>>,
    capacity: Ghost<nat>,
}

/// Consumer half of a confined-affinity channel.
#[verifier::reject_recursive_types(T)]
pub struct LocalReceiver<T> {
    cell: Rc<RefCell<ChannelState<T>>>,
    capacity: Ghost<nat>,
}

/// Builds a confined-affinity channel of the given capacity and returns its
/// producer and consumer halves: two handles onto one fresh channel state.
pub fn local_channel<T>(capacity: usize) -> (r: (LocalSender<T>, LocalReceiver<T>))
    requires
        capacity >= 1,
    ensures
        r.0.chan() == r.1.chan(),
        r.0.spec_capacity() == capacity as nat,
        r.1.spec_capacity() == capacity as nat,
{
    let state = ChannelState::new(capacity);
    let cell = Rc::new(cell_new(state));
    let cell2 = rc_dup(&cell);
    (
        LocalSender { cell, capacity: Ghost(capacity as nat) },
        LocalReceiver { cell: cell2, capacity: Ghost(capacity as nat) },
    )
}

impl<T> LocalSender<T> {
    /// The shared cell this handle feeds: two handles with equal `chan`
    /// operate on one channel.
    pub closed spec fn chan(&self) -> Rc<RefCell<ChannelState<T>>> {
        self.cell
    }

    /// The capacity the channel was created with; fixed thereafter.
    pub closed spec fn spec_capacity(&self) -> nat {
        self.capacity@
    }

    /// Offers a message to the channel: one verified send transition on the
    /// shared state. No outcome drops the message: when the queue is at
    /// capacity or the consumer half is gone, the message comes back to the
    /// caller unmodified.
    pub fn try_send(&self, v: T) -> (r: SendOutcome<T>)
        ensures
            (r matches SendOutcome::Full(u) ==> u == v),
            (r matches SendOutcome::Closed(u) ==> u == v),
    {
        let mut state = cell_swap(&self.cell, ChannelState::new(1));
        let r = state.try_send(v);
        let _ = cell_swap(&self.cell, state);
        r
    }

    /// Clones the producer handle: both handles feed the same queue, and
    /// the channel counts one more live producer.
    pub fn duplicate(&self) -> (r: LocalSender<T>)
        ensures
            r.chan() == self.chan(),
            r.spec_capacity() == self.spec_capacity(),
    {
        let mut state = cell_swap(&self.cell, ChannelState::new(1));
        state.add_sender();
        let _ = cell_swap(&self.cell, state);
        LocalSender { cell: rc_dup(&self.cell), capacity: self.capacity }
    }

    /// Retires this producer handle. Once every producer handle is retired,
    /// the consumer sees closure after draining what is queued. Dropping
    /// the handle without this call leaves the channel open.
    pub fn close(self) {
        let mut state = cell_swap(&self.cell, ChannelState::new(1));
        state.drop_sender();
        let _ = cell_swap(&self.cell, state);
    }
}

impl<T> LocalReceiver<T> {
    /// The shared cell this handle drains: two handles with equal `chan`
    /// operate on one channel.
    pub closed spec fn chan(&self) -> Rc<RefCell<ChannelState<T>>> {
        self.cell
    }

    /// The capacity the channel was created with; fixed thereafter.
    pub closed spec fn spec_capacity(&self) -> nat {
        self.capacity@
    }

    /// Asks the channel for the oldest queued message: one verified receive
    /// transition on the shared state. Reports closure only when the queue
    /// is empty and no producer handle is left; an empty queue with live
    /// producers is a suspension point for the caller's cooperative loop.
    pub fn try_recv(&mut self) -> (r: RecvOutcome<T>)
        ensures
            *final(self) == *old(self),
    {
        let mut state = cell_swap(&self.cell, ChannelState::new(1));
        let r = state.try_recv();
        let _ = cell_swap(&self.cell, state);
        r
    }

    /// Retires the consumer half: later sends report closure to producers.
    /// Dropping the handle without this call leaves the channel open.
    pub fn close(self) {
        let mut state = cell_swap(&self.cell, ChannelState::new(1));
        state.drop_receiver();
        let _ = cell_swap(&self.cell, state);
    }
}

} // verus!

