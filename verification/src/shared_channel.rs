//! Shared-affinity channel handles: producer and consumer halves sharing
//! one verified `ChannelState` behind an atomically reference-counted,
//! verified reader-writer lock. Both halves are safe to hand across
//! execution contexts; the lock, not the callers, serializes concurrent
//! operations.
//!
//! Every handle operation acquires the lock, performs one verified
//! transition of the channel state machine while holding it, and releases;
//! the lock itself is vstd's verified `RwLock`, so the only trusted piece
//! left is sharing the reference count.
//!
//! Closure is an explicit protocol: a handle is retired with `close`, and a
//! handle that is merely dropped leaves the channel open. Every owner of a
//! handle — the wrapper's start operation included — must retire it when it
//! is done, or its counterpart will keep waiting on a channel nobody serves.

use vstd::prelude::*;
use std::sync::Arc;
use vstd::rwlock::RwLock;
use vstd::rwlock::RwLockPredicate;
use crate::chan_state::{ChannelState, RecvOutcome, SendOutcome};

verus! {

/// Lock predicate of a shared channel: every state may be stored, since the
/// channel transitions are total.
pub struct AnyState;

impl<T> RwLockPredicate<ChannelState<T>> for AnyState {
    open spec fn inv(self, v: ChannelState<T>) -> bool {
        true
    }
}

/// Relies on std::sync::Arc::clone: hands out one more reference to the
/// same underlying value.
#[verifier::external_body]
pub(crate) fn arc_dup<T>(cell: &Arc<T>) -> (r: Arc<T>)
    ensures
        r == *cell,
{
    Arc::clone(cell)
}

/// Producer half of a shared-affinity channel.
#[verifier::reject_recursive_types(T)]
pub struct SharedSender<T> {
    cell: Arc<RwLock<ChannelState<T>, AnyState>>,
    capacity: Ghost<nat>,
}

/// Consumer half of a shared-affinity channel.
#[verifier::reject_recursive_types(T)]
pub struct SharedReceiver<T> {
    cell: Arc<RwLock<ChannelState<T>, AnyState>>,
    capacity: Ghost<nat>,
}

/// Builds a shared-affinity channel of the given capacity and returns its
/// producer and consumer halves: two handles onto one fresh channel state.
pub fn shared_channel<T>(capacity: usize) -> (r: (SharedSender<T>, SharedReceiver<T>))
    requires
        capacity >= 1,
    ensures
        r.0.chan() == r.1.chan(),
        r.0.spec_capacity() == capacity as nat,
        r.1.spec_capacity() == capacity as nat,
{
    let state = ChannelState::new(capacity);
    let cell = Arc::new(RwLock::new(state, Ghost(AnyState)));
    let cell2 = arc_dup(&cell);
    (
        SharedSender { cell, capacity: Ghost(capacity as nat) },
        SharedReceiver { cell: cell2, capacity: Ghost(capacity as nat) },
    )
}

impl<T> SharedSender<T> {
    /// The shared lock this handle feeds: two handles with equal `chan`
    /// operate on one channel.
    pub closed spec fn chan(&self) -> Arc<RwLock<ChannelState<T>, AnyState>> {
        self.cell
    }

    /// The capacity the channel was created with; fixed thereafter.
    pub closed spec fn spec_capacity(&self) -> nat {
        self.capacity@
    }

    /// Offers a message to the channel: one verified send transition,
    /// performed under the lock. No outcome drops the message: when the
    /// queue is at capacity or the consumer half is gone, the message comes
    /// back to the caller unmodified.
    pub fn try_send(&self, v: T) -> (r: SendOutcome<T>)
        ensures
            (r matches SendOutcome::Full(u) ==> u == v),
            (r matches SendOutcome::Closed(u) ==> u == v),
    {
        let (mut state, handle) = self.cell.acquire_write();
        let r = state.try_send(v);
        handle.release_write(state);
        r
    }

    /// Clones the producer handle: both handles feed the same queue, and
    /// the channel counts one more live producer.
    pub fn duplicate(&self) -> (r: SharedSender<T>)
        ensures
            r.chan() == self.chan(),
            r.spec_capacity() == self.spec_capacity(),
    {
        let (mut state, handle) = self.cell.acquire_write();
        state.add_sender();
        handle.release_write(state);
        SharedSender { cell: arc_dup(&self.cell), capacity: self.capacity }
    }

    /// Retires this producer handle. Once every producer handle is retired,
    /// the consumer sees closure after draining what is queued. Dropping
    /// the handle without this call leaves the channel open.
    pub fn close(self) {
        let (mut state, handle) = self.cell.acquire_write();
        state.drop_sender();
        handle.release_write(state);
    }
}

impl<T> SharedReceiver<T> {
    /// The shared lock this handle drains: two handles with equal `chan`
    /// operate on one channel.
    pub closed spec fn chan(&self) -> Arc<RwLock<ChannelState<T>, AnyState>> {
        self.cell
    }

    /// The capacity the channel was created with; fixed thereafter.
    pub closed spec fn spec_capacity(&self) -> nat {
        self.capacity@
    }

    /// Asks the channel for the oldest queued message: one verified receive
    /// transition, performed under the lock. Reports closure only when the
    /// queue is empty and no producer handle is left; an empty queue with
    /// live producers is a suspension point for the caller's scheduling
    /// regime.
    pub fn try_recv(&mut self) -> (r: RecvOutcome<T>)
        ensures
            *final(self) == *old(self),
    {
        let (mut state, handle) = self.cell.acquire_write();
        let r = state.try_recv();
        handle.release_write(state);
        r
    }

    /// Retires the consumer half: later sends report closure to producers.
    /// Dropping the handle without this call leaves the channel open.
    pub fn close(self) {
        let (mut state, handle) = self.cell.acquire_write();
        state.drop_receiver();
        handle.release_write(state);
    }
}

} // verus!
