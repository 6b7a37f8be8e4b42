//! Control-plane messages: the closed set of lifecycle signals an
//! orchestrator sends to a running receiver, and the observability counters
//! a receiver keeps of the signals it has handled.

use vstd::prelude::*;
use core::cell::RefCell;
use std::rc::Rc;
use crate::local_channel::{cell_new, cell_swap, rc_dup};

verus! {

/// A lifecycle signal carried on the control channel.
pub enum ControlMsg {
    /// Push of a new configuration; the payload is opaque to this layer.
    Config {
        /// Serialized configuration payload.
        payload: String,
    },
    /// Periodic timer tick for housekeeping.
    TimerTick,
    /// Request to stop: the receiver must wind down within the grace
    /// deadline and return cleanly.
    Shutdown {
        /// Grace deadline, in milliseconds.
        deadline_ms: u64,
        /// Human-readable reason for the shutdown.
        reason: String,
    },
    /// Acknowledgment signal used by pipeline handshakes.
    Ack {
        /// Identifier of the acknowledged item.
        id: u64,
    },
}

impl ControlMsg {
    /// True exactly on the shutdown request.
    pub fn is_shutdown(&self) -> (r: bool)
        ensures
            r == (self is Shutdown),
    {
        match self {
            ControlMsg::Shutdown { .. } => true,
            _ => false,
        }
    }
}

/// Counters of the control messages a receiver has handled, one per message
/// kind. Updated by the receiver's run loop and inspected afterwards for
/// metrics and testing. Each counter sticks at its maximum instead of
/// wrapping.
#[derive(Clone, Copy, PartialEq, Eq, Structural, Debug)]
pub struct CtrlMsgCounters {
    /// Timer ticks handled.
    pub timer_tick_count: u64,
    /// Acknowledgments handled.
    pub ack_count: u64,
    /// Configuration pushes handled.
    pub config_count: u64,
    /// Shutdown requests handled.
    pub shutdown_count: u64,
}

/// One counter bumped by one, sticking at the maximum.
pub open spec fn bumped(c: u64) -> u64 {
    if c < u64::MAX { (c + 1) as u64 } else { c }
}

/// The counters after handling one control message: exactly the counter of
/// the message's kind is bumped, the others are untouched.
pub open spec fn counters_after(c: CtrlMsgCounters, msg: ControlMsg) -> CtrlMsgCounters {
    match msg {
        ControlMsg::TimerTick => CtrlMsgCounters { timer_tick_count: bumped(c.timer_tick_count), ..c },
        ControlMsg::Ack { .. } => CtrlMsgCounters { ack_count: bumped(c.ack_count), ..c },
        ControlMsg::Config { .. } => CtrlMsgCounters { config_count: bumped(c.config_count), ..c },
        ControlMsg::Shutdown { .. } => CtrlMsgCounters { shutdown_count: bumped(c.shutdown_count), ..c },
    }
}

impl CtrlMsgCounters {
    /// All counters at zero.
    pub fn new() -> (c: CtrlMsgCounters)
        ensures
            c == (CtrlMsgCounters {
                timer_tick_count: 0,
                ack_count: 0,
                config_count: 0,
                shutdown_count: 0,
            }),
    {
        CtrlMsgCounters { timer_tick_count: 0, ack_count: 0, config_count: 0, shutdown_count: 0 }
    }

    /// Records one handled control message: bumps exactly the counter of
    /// the message's kind.
    pub fn update_with(&mut self, msg: &ControlMsg)
        ensures
            *final(self) == counters_after(*old(self), *msg),
    {
        match msg {
            ControlMsg::TimerTick => {
                if self.timer_tick_count < u64::MAX {
                    self.timer_tick_count = self.timer_tick_count + 1;
                }
            },
            ControlMsg::Ack { .. } => {
                if self.ack_count < u64::MAX {
                    self.ack_count = self.ack_count + 1;
                }
            },
            ControlMsg::Config { .. } => {
                if self.config_count < u64::MAX {
                    self.config_count = self.config_count + 1;
                }
            },
            ControlMsg::Shutdown { .. } => {
                if self.shutdown_count < u64::MAX {
                    self.shutdown_count = self.shutdown_count + 1;
                }
            },
        }
    }

    /// True exactly when the four counters read the given values, in the
    /// order timer ticks, acknowledgments, configs, shutdowns.
    pub fn matches(&self, timer_tick: u64, ack: u64, config: u64, shutdown: u64) -> (r: bool)
        ensures
            r == (self.timer_tick_count == timer_tick && self.ack_count == ack
                && self.config_count == config && self.shutdown_count == shutdown),
    {
        self.timer_tick_count == timer_tick && self.ack_count == ack
            && self.config_count == config && self.shutdown_count == shutdown
    }

    /// Reads the timer-tick counter.
    pub fn get_timer_tick_count(&self) -> (r: u64)
        ensures
            r == self.timer_tick_count,
    {
        self.timer_tick_count
    }
}

/// The counters after handling a batch of control messages in order.
pub open spec fn counters_after_seq(c: CtrlMsgCounters, msgs: Seq<ControlMsg>) -> CtrlMsgCounters
    decreases msgs.len(),
{
    if msgs.len() == 0 {
        c
    } else {
        counters_after_seq(counters_after(c, msgs[0]), msgs.drop_first())
    }
}

/// Handling a message that is no shutdown request leaves the shutdown
/// counter untouched.
pub proof fn lemma_non_shutdown_keeps_shutdown_count(c: CtrlMsgCounters, msg: ControlMsg)
    requires
        !(msg is Shutdown),
    ensures
        counters_after(c, msg).shutdown_count == c.shutdown_count,
{
}

/// Law (shutdown observed exactly once): handling a batch of control
/// messages whose one and only shutdown request is the final message bumps
/// the shutdown counter exactly once.
pub proof fn lemma_single_shutdown_counted_once(c: CtrlMsgCounters, msgs: Seq<ControlMsg>)
    requires
        msgs.len() > 0,
        msgs.last() is Shutdown,
        forall|i: int| 0 <= i < msgs.len() - 1 ==> !(#[trigger] msgs[i] is Shutdown),
        c.shutdown_count < u64::MAX,
    ensures
        counters_after_seq(c, msgs).shutdown_count == c.shutdown_count + 1,
    decreases msgs.len(),
{
    let c1 = counters_after(c, msgs[0]);
    let rest = msgs.drop_first();
    assert(counters_after_seq(c, msgs) == counters_after_seq(c1, rest));
    if msgs.len() == 1 {
        assert(msgs[0] is Shutdown);
        assert(counters_after_seq(c1, rest) == c1);
    } else {
        assert(!(msgs[0] is Shutdown));
        assert(c1.shutdown_count == c.shutdown_count);
        assert(rest.last() == msgs.last());
        assert(forall|i: int| 0 <= i < rest.len() - 1 ==> !(#[trigger] rest[i] is Shutdown));
        lemma_single_shutdown_counted_once(c1, rest);
    }
}

/// What a receiver's run loop decides after handling one control message.
pub enum LoopDecision {
    /// Keep multiplexing over the event sources.
    Continue,
    /// Wind down and return cleanly: a shutdown request was observed.
    Stop,
}

/// The canonical control-message step of a receiver's run loop: records the
/// message in the counters and decides whether the loop stops. The loop
/// stops exactly on a shutdown request.
pub fn handle_control_msg(counters: &mut CtrlMsgCounters, msg: &ControlMsg) -> (d: LoopDecision)
    ensures
        *final(counters) == counters_after(*old(counters), *msg),
        (d is Stop) == (*msg is Shutdown),
{
    counters.update_with(msg);
    if msg.is_shutdown() {
        LoopDecision::Stop
    } else {
        LoopDecision::Continue
    }
}

/// Shareable handle to one set of control-message counters: the receiver's
/// run loop updates them through one clone while an observer inspects them
/// through another. Confined to one execution context, like the receivers
/// whose loops update it. Every access takes the counters out of the shared
/// cell, runs the verified update on them, and puts them back.
pub struct CountersHandle {
    cell: Rc<RefCell<CtrlMsgCounters>>,
}

impl CountersHandle {
    /// The shared cell behind this handle: two handles with equal `chan`
    /// read and update one set of counters.
    pub closed spec fn chan(&self) -> Rc<RefCell<CtrlMsgCounters>> {
        self.cell
    }

    /// Fresh handle over counters that all read zero.
    pub fn new() -> (h: CountersHandle) {
        CountersHandle { cell: Rc::new(cell_new(CtrlMsgCounters::new())) }
    }

    /// Another handle to the same counters.
    pub fn duplicate(&self) -> (h: CountersHandle)
        ensures
            h.chan() == self.chan(),
    {
        CountersHandle { cell: rc_dup(&self.cell) }
    }

    /// Records one handled control message, as the verified
    /// `CtrlMsgCounters::update_with` does: exactly the handled kind's
    /// counter is bumped.
    pub fn update_with(&self, msg: &ControlMsg) {
        let mut counters = cell_swap(&self.cell, CtrlMsgCounters::new());
        counters.update_with(msg);
        let _ = cell_swap(&self.cell, counters);
    }

    /// Reads the current counter values.
    pub fn snapshot(&self) -> (c: CtrlMsgCounters) {
        let counters = cell_swap(&self.cell, CtrlMsgCounters::new());
        let _ = cell_swap(&self.cell, counters);
        counters
    }
}

} // verus!
