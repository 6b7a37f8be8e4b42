//! Verified state machine of a bounded multi-producer single-consumer
//! channel: a FIFO queue with a fixed capacity, a count of live producer
//! handles and a flag for the consumer half.
//!
//! This is the queue logic used by the confined-affinity channel: the
//! state sits behind a shared cell (see the channel handle module) and
//! every operation on a handle is one transition of this machine.

use vstd::prelude::*;

verus! {

/// Outcome of offering a message to a channel.
pub enum SendOutcome<T> {
    /// The message was enqueued.
    Accepted,
    /// The queue is at capacity; the message comes back to the caller
    /// unmodified, to be offered again once the consumer has drained.
    Full(T),
    /// The consumer half is gone; the message comes back to the caller.
    Closed(T),
}

/// Outcome of asking a channel for a message.
pub enum RecvOutcome<T> {
    /// The oldest queued message.
    Msg(T),
    /// Nothing is queued, but producers are still alive.
    Empty,
    /// Nothing is queued and every producer handle is gone.
    Closed,
}

/// Mathematical model of a channel: the queued messages in send order
/// (oldest first), the fixed capacity, the number of live producer handles
/// and whether the consumer half is still alive.
pub struct ChannelModel<T> {
    /// Queued messages, oldest first.
    pub queue: Seq<T>,
    /// Fixed capacity of the queue.
    pub capacity: nat,
    /// Number of live producer handles.
    pub senders: nat,
    /// Whether the consumer half is still alive.
    pub receiver_alive: bool,
}

impl<T> ChannelModel<T> {
    /// A model is well formed when the capacity is positive and the queue
    /// never exceeds it.
    pub open spec fn wf(self) -> bool {
        &&& self.capacity >= 1
        &&& self.queue.len() <= self.capacity
    }
}

/// What offering `v` to a channel in state `m` does: rejected with the
/// message handed back when the consumer is gone, held back unmodified when
/// the queue is at capacity, appended at the tail otherwise. No path drops
/// a message.
pub open spec fn send_transition<T>(m: ChannelModel<T>, v: T) -> (ChannelModel<T>, SendOutcome<T>) {
    if !m.receiver_alive {
        (m, SendOutcome::Closed(v))
    } else if m.queue.len() >= m.capacity {
        (m, SendOutcome::Full(v))
    } else {
        (ChannelModel { queue: m.queue.push(v), ..m }, SendOutcome::Accepted)
    }
}

/// What asking a channel in state `m` for a message does: the oldest queued
/// message leaves the head of the queue; an empty queue reports closure
/// exactly when no producer handle is left.
pub open spec fn recv_transition<T>(m: ChannelModel<T>) -> (ChannelModel<T>, RecvOutcome<T>) {
    if m.queue.len() > 0 {
        (ChannelModel { queue: m.queue.remove(0), ..m }, RecvOutcome::Msg(m.queue[0]))
    } else if m.senders == 0 {
        (m, RecvOutcome::Closed)
    } else {
        (m, RecvOutcome::Empty)
    }
}

/// Law (in-order, unmodified delivery): offering two messages to a channel
/// with room for both appends exactly those messages, unmodified and in
/// send order, behind everything already queued; nothing is dropped.
pub proof fn lemma_send_preserves_order<T>(m: ChannelModel<T>, a: T, b: T)
    requires
        m.wf(),
        m.receiver_alive,
        m.queue.len() + 2 <= m.capacity,
    ensures
        ({
            let (m1, r1) = send_transition(m, a);
            let (m2, r2) = send_transition(m1, b);
            &&& r1 is Accepted
            &&& r2 is Accepted
            &&& m2.queue == m.queue.push(a).push(b)
        }),
{
}

/// Law (round trip): a message offered to an idle channel is the very next
/// message the consumer sees, unmodified; two messages come back in send
/// order, and the queue is drained afterwards.
pub proof fn lemma_round_trip<T>(m: ChannelModel<T>, a: T, b: T)
    requires
        m.wf(),
        m.receiver_alive,
        m.capacity >= 2,
        m.queue.len() == 0,
    ensures
        ({
            let (m1, _) = send_transition(m, a);
            let (m2, _) = send_transition(m1, b);
            let (m3, r3) = recv_transition(m2);
            let (m4, r4) = recv_transition(m3);
            &&& r3 == RecvOutcome::Msg(a)
            &&& r4 == RecvOutcome::Msg(b)
            &&& m4.queue.len() == 0
        }),
{
    let (m1, _) = send_transition(m, a);
    let (m2, _) = send_transition(m1, b);
    assert(m2.queue == m.queue.push(a).push(b));
    assert(m2.queue.len() == 2);
    assert(m2.queue[0] == a);
    let (m3, r3) = recv_transition(m2);
    assert(m3.queue == m2.queue.remove(0));
    assert(m3.queue.len() == 1);
    assert(m3.queue[0] == b);
    let (m4, r4) = recv_transition(m3);
    assert(m4.queue.len() == 0);
}

/// Law (backpressure): offering a message to a full channel holds the
/// sender back with the message returned unmodified and the channel
/// untouched — nothing is dropped and nothing fails; as soon as the
/// consumer drains one message, a retry of the same send is accepted.
pub proof fn lemma_backpressure<T>(m: ChannelModel<T>, v: T)
    requires
        m.wf(),
        m.receiver_alive,
        m.queue.len() == m.capacity,
    ensures
        ({
            let (m1, r1) = send_transition(m, v);
            &&& r1 == SendOutcome::Full(v)
            &&& m1 == m
        }),
        ({
            let (m2, r2) = recv_transition(m);
            let (m3, r3) = send_transition(m2, v);
            &&& r2 == RecvOutcome::Msg(m.queue[0])
            &&& r3 is Accepted
            &&& m3.queue == m.queue.remove(0).push(v)
        }),
{
}

/// Runtime state of a channel; its view is the `ChannelModel`.
pub struct ChannelState<T> {
    /// Queued messages, oldest first.
    pub queue: Vec<T>,
    /// Fixed capacity of the queue.
    pub capacity: usize,
    /// Number of live producer handles.
    pub senders: usize,
    /// Whether the consumer half is still alive.
    pub receiver_alive: bool,
}

impl<T> View for ChannelState<T> {
    type V = ChannelModel<T>;

    open spec fn view(&self) -> ChannelModel<T> {
        ChannelModel {
            queue: self.queue@,
            capacity: self.capacity as nat,
            senders: self.senders as nat,
            receiver_alive: self.receiver_alive,
        }
    }
}

impl<T> ChannelState<T> {
    /// A state is well formed when its model is.
    pub open spec fn wf(self) -> bool {
        self@.wf()
    }

    /// Fresh channel state: empty queue, one producer handle, consumer alive.
    pub fn new(capacity: usize) -> (s: ChannelState<T>)
        requires
            capacity >= 1,
        ensures
            s.wf(),
            s@ == (ChannelModel::<T> {
                queue: Seq::empty(),
                capacity: capacity as nat,
                senders: 1,
                receiver_alive: true,
            }),
    {
        ChannelState { queue: Vec::new(), capacity, senders: 1, receiver_alive: true }
    }

    /// Offers a message; performs exactly the send transition of the model,
    /// whatever state the channel is in.
    pub fn try_send(&mut self, v: T) -> (r: SendOutcome<T>)
        ensures
            old(self).wf() ==> final(self).wf(),
            (final(self)@, r) == send_transition(old(self)@, v),
    {
        if !self.receiver_alive {
            SendOutcome::Closed(v)
        } else if self.queue.len() >= self.capacity {
            SendOutcome::Full(v)
        } else {
            self.queue.push(v);
            SendOutcome::Accepted
        }
    }

    /// Asks for a message; performs exactly the receive transition of the
    /// model, whatever state the channel is in.
    pub fn try_recv(&mut self) -> (r: RecvOutcome<T>)
        ensures
            old(self).wf() ==> final(self).wf(),
            (final(self)@, r) == recv_transition(old(self)@),
    {
        if self.queue.len() > 0 {
            let v = self.queue.remove(0);
            RecvOutcome::Msg(v)
        } else if self.senders == 0 {
            RecvOutcome::Closed
        } else {
            RecvOutcome::Empty
        }
    }

    /// Records one more live producer handle (a producer was cloned). The
    /// count sticks at its maximum instead of overflowing.
    pub fn add_sender(&mut self)
        ensures
            old(self).wf() ==> final(self).wf(),
            final(self)@ == (ChannelModel {
                senders: if old(self)@.senders < usize::MAX { old(self)@.senders + 1 } else {
                    old(self)@.senders
                },
                ..old(self)@
            }),
    {
        if self.senders < usize::MAX {
            self.senders = self.senders + 1;
        }
    }

    /// Records that one producer handle is gone. Messages already queued
    /// stay receivable: closure only stops new sends.
    pub fn drop_sender(&mut self)
        ensures
            old(self).wf() ==> final(self).wf(),
            final(self)@ == (ChannelModel {
                senders: if old(self)@.senders > 0 { (old(self)@.senders - 1) as nat } else { 0 },
                ..old(self)@
            }),
    {
        if self.senders > 0 {
            self.senders = self.senders - 1;
        }
    }

    /// Records that the consumer half is gone: later sends report closure.
    pub fn drop_receiver(&mut self)
        ensures
            old(self).wf() ==> final(self).wf(),
            final(self)@ == (ChannelModel { receiver_alive: false, ..old(self)@ }),
    {
        self.receiver_alive = false;
    }
}

} // verus!

