//! Receiver wrapper: the single lifecycle surface the pipeline orchestrator
//! holds, whatever the concurrency affinity of the receiver implementation
//! inside. A tagged union over the two affinities, with every operation an
//! exhaustive match, so that one orchestrator code path supports both
//! without ever coercing one affinity into the other.

use vstd::prelude::*;
use crate::config::ReceiverConfig;
use crate::control::ControlMsg;
use crate::error::Error;
use crate::local;
use crate::local_channel::{local_channel, LocalReceiver, LocalSender};
use crate::message;
use crate::shared;
use crate::shared_channel::{shared_channel, SharedReceiver, SharedSender};

verus! {

/// A receiver packaged with its effect handler and channel halves, tagged
/// with its concurrency affinity. `L` is the confined receiver
/// implementation, `S` the shared one; an instance holds exactly one of
/// the two, fixed at construction.
#[verifier::reject_recursive_types(PData)]
#[verifier::reject_recursive_types(L)]
#[verifier::reject_recursive_types(S)]
pub enum ReceiverWrapper<PData, L, S> {
    /// A receiver confined to the execution context it is started on.
    Local {
        /// The receiver implementation.
        receiver: L,
        /// The effect handler the receiver will emit payloads through.
        effect_handler: local::EffectHandler<PData>,
        /// Producer half of the control channel, kept for cloning.
        control_sender: LocalSender<ControlMsg>,
        /// Consumer half of the control channel, handed to the run loop.
        control_receiver: LocalReceiver<ControlMsg>,
        /// Consumer half of the data channel, claimable exactly once.
        pdata_receiver: Option<message::Receiver<PData>>,
    },
    /// A receiver safe to run on any execution context.
    Shared {
        /// The receiver implementation.
        receiver: S,
        /// The effect handler the receiver will emit payloads through.
        effect_handler: shared::EffectHandler<PData>,
        /// Producer half of the control channel, kept for cloning.
        control_sender: SharedSender<ControlMsg>,
        /// Consumer half of the control channel, handed to the run loop.
        control_receiver: SharedReceiver<ControlMsg>,
        /// Consumer half of the data channel, claimable exactly once.
        pdata_receiver: Option<SharedReceiver<PData>>,
    },
}

impl<PData, L, S> ReceiverWrapper<PData, L, S> {
    /// True on the confined-affinity variant. The variant is fixed at
    /// construction: no operation ever changes it.
    pub open spec fn is_local(self) -> bool {
        self is Local
    }

    /// Reports the wrapper's affinity tag: true exactly on the confined
    /// variant.
    pub fn is_confined(&self) -> (r: bool)
        ensures
            r == self.is_local(),
    {
        match self {
            ReceiverWrapper::Local { .. } => true,
            ReceiverWrapper::Shared { .. } => false,
        }
    }

    /// True while the data-channel consumer is still unclaimed.
    pub open spec fn has_pdata_receiver(self) -> bool {
        match self {
            ReceiverWrapper::Local { pdata_receiver, .. } => pdata_receiver is Some,
            ReceiverWrapper::Shared { pdata_receiver, .. } => pdata_receiver is Some,
        }
    }

    /// The wrapper's channel wiring is consistent: the control halves pair
    /// one channel, a still-stored data consumer pairs the channel the
    /// effect handler feeds, and on the confined variant it is itself
    /// confined.
    pub open spec fn wf(self) -> bool {
        match self {
            ReceiverWrapper::Local {
                effect_handler,
                control_sender,
                control_receiver,
                pdata_receiver,
                ..
            } => {
                &&& control_sender.chan() == control_receiver.chan()
                &&& match pdata_receiver {
                    Some(rx) => rx matches message::Receiver::Local(lrx) && lrx.chan()
                        == effect_handler.spec_sender().chan(),
                    None => true,
                }
            },
            ReceiverWrapper::Shared {
                effect_handler,
                control_sender,
                control_receiver,
                pdata_receiver,
                ..
            } => {
                &&& control_sender.chan() == control_receiver.chan()
                &&& match pdata_receiver {
                    Some(rx) => rx.chan() == effect_handler.spec_sender().chan(),
                    None => true,
                }
            },
        }
    }

    /// Packages a confined receiver: builds a confined control channel and
    /// a confined data channel with the configured capacities, wires the
    /// effect handler to the data producer and stores the data consumer
    /// unclaimed, keeps the given receiver, and tags the instance confined.
    /// Construction cannot fail.
    pub fn local(receiver: L, config: &ReceiverConfig) -> (w: ReceiverWrapper<PData, L, S>)
        requires
            config.wf(),
        ensures
            w.is_local(),
            w.has_pdata_receiver(),
            w.wf(),
            (w matches ReceiverWrapper::Local {
                receiver: stored,
                effect_handler,
                control_sender,
                pdata_receiver,
                ..
            } ==> {
                &&& stored == receiver
                &&& effect_handler.spec_name() == config.name@
                &&& control_sender.spec_capacity() == config.control_channel.capacity as nat
                &&& effect_handler.spec_sender().spec_capacity()
                    == config.output_pdata_channel.capacity as nat
                &&& (pdata_receiver matches Some(message::Receiver::Local(rx)) && rx.spec_capacity()
                    == config.output_pdata_channel.capacity as nat)
            }),
    {
        let (control_sender, control_receiver) = local_channel(config.control_channel.capacity);
        let (pdata_sender, pdata_receiver) = local_channel(config.output_pdata_channel.capacity);

        ReceiverWrapper::Local {
            effect_handler: local::EffectHandler::new(config.name.clone(), pdata_sender),
            receiver,
            control_sender,
            control_receiver,
            pdata_receiver: Some(message::Receiver::Local(pdata_receiver)),
        }
    }

    /// Packages a shared receiver: the same contract as the confined
    /// constructor, but over context-transferable channel primitives, and
    /// tags the instance shared. Construction cannot fail.
    pub fn shared(receiver: S, config: &ReceiverConfig) -> (w: ReceiverWrapper<PData, L, S>)
        requires
            config.wf(),
        ensures
            !w.is_local(),
            w.has_pdata_receiver(),
            w.wf(),
            (w matches ReceiverWrapper::Shared {
                receiver: stored,
                effect_handler,
                control_sender,
                pdata_receiver,
                ..
            } ==> {
                &&& stored == receiver
                &&& effect_handler.spec_name() == config.name@
                &&& control_sender.spec_capacity() == config.control_channel.capacity as nat
                &&& effect_handler.spec_sender().spec_capacity()
                    == config.output_pdata_channel.capacity as nat
                &&& (pdata_receiver matches Some(rx) && rx.spec_capacity()
                    == config.output_pdata_channel.capacity as nat)
            }),
    {
        let (control_sender, control_receiver) = shared_channel(config.control_channel.capacity);
        let (pdata_sender, pdata_receiver) = shared_channel(config.output_pdata_channel.capacity);

        ReceiverWrapper::Shared {
            effect_handler: shared::EffectHandler::new(config.name.clone(), pdata_sender),
            receiver,
            control_sender,
            control_receiver,
            pdata_receiver: Some(pdata_receiver),
        }
    }

    /// Clones the control-channel producer: a handle that feeds exactly the
    /// control channel whose consumer the run loop will drain, tagged with
    /// the wrapper's own affinity. Callable any number of times; sending on
    /// a handle after the consumer is gone is reported as a closed channel,
    /// not a crash.
    pub fn control_sender(&self) -> (s: message::Sender<ControlMsg>)
        ensures
            s.is_local() == self.is_local(),
            (self matches ReceiverWrapper::Local { control_sender, .. } ==> (
            s matches message::Sender::Local(h) && h.chan() == control_sender.chan()
                && h.spec_capacity() == control_sender.spec_capacity())),
            (self matches ReceiverWrapper::Shared { control_sender, .. } ==> (
            s matches message::Sender::Shared(h) && h.chan() == control_sender.chan()
                && h.spec_capacity() == control_sender.spec_capacity())),
    {
        match self {
            ReceiverWrapper::Local { control_sender, .. } => message::Sender::Local(
                control_sender.duplicate(),
            ),
            ReceiverWrapper::Shared { control_sender, .. } => message::Sender::Shared(
                control_sender.duplicate(),
            ),
        }
    }

    /// Claims the data-channel consumer if it is still unclaimed: the first
    /// call returns exactly the consumer stored at construction, tagged
    /// with the wrapper's affinity, and every later call returns nothing.
    /// Nothing else in the wrapper changes: only the storage slot goes from
    /// claimed to empty.
    pub fn try_take_pdata_receiver(&mut self) -> (r: Option<message::Receiver<PData>>)
        ensures
            final(self).is_local() == old(self).is_local(),
            !final(self).has_pdata_receiver(),
            (r is Some) == old(self).has_pdata_receiver(),
            (*old(self) matches ReceiverWrapper::Local { pdata_receiver: Some(rx), .. } ==> r
                == Some(rx)),
            (*old(self) matches ReceiverWrapper::Shared { pdata_receiver: Some(rx), .. } ==> r
                == Some(message::Receiver::Shared(rx))),
            (*old(self) matches ReceiverWrapper::Local {
                receiver,
                effect_handler,
                control_sender,
                control_receiver,
                ..
            } ==> *final(self) == (ReceiverWrapper::<PData, L, S>::Local {
                receiver,
                effect_handler,
                control_sender,
                control_receiver,
                pdata_receiver: None,
            })),
            (*old(self) matches ReceiverWrapper::Shared {
                receiver,
                effect_handler,
                control_sender,
                control_receiver,
                ..
            } ==> *final(self) == (ReceiverWrapper::<PData, L, S>::Shared {
                receiver,
                effect_handler,
                control_sender,
                control_receiver,
                pdata_receiver: None,
            })),
    {
        match self {
            ReceiverWrapper::Local { pdata_receiver, .. } => pdata_receiver.take(),
            ReceiverWrapper::Shared { pdata_receiver, .. } => match pdata_receiver.take() {
                Some(rx) => Some(message::Receiver::Shared(rx)),
                None => None,
            },
        }
    }

    /// Claims the data-channel consumer: returns exactly the consumer
    /// stored at construction and empties the slot, leaving everything else
    /// in the wrapper untouched. Claiming twice is a programming error,
    /// excluded by the precondition: after one claim the wrapper holds no
    /// consumer any more.
    pub fn take_pdata_receiver(&mut self) -> (r: message::Receiver<PData>)
        requires
            old(self).has_pdata_receiver(),
        ensures
            final(self).is_local() == old(self).is_local(),
            !final(self).has_pdata_receiver(),
            (*old(self) matches ReceiverWrapper::Local { pdata_receiver: Some(rx), .. } ==> r == rx),
            (*old(self) matches ReceiverWrapper::Shared { pdata_receiver: Some(rx), .. } ==> r
                == message::Receiver::Shared(rx)),
            (*old(self) matches ReceiverWrapper::Local {
                receiver,
                effect_handler,
                control_sender,
                control_receiver,
                ..
            } ==> *final(self) == (ReceiverWrapper::<PData, L, S>::Local {
                receiver,
                effect_handler,
                control_sender,
                control_receiver,
                pdata_receiver: None,
            })),
            (*old(self) matches ReceiverWrapper::Shared {
                receiver,
                effect_handler,
                control_sender,
                control_receiver,
                ..
            } ==> *final(self) == (ReceiverWrapper::<PData, L, S>::Shared {
                receiver,
                effect_handler,
                control_sender,
                control_receiver,
                pdata_receiver: None,
            })),
    {
        self.try_take_pdata_receiver().unwrap()
    }
}

impl<PData, L: local::Receiver<PData>, S: shared::Receiver<PData>> ReceiverWrapper<PData, L, S> {
    /// Starts the receiver: consumes the wrapper, builds the
    /// affinity-appropriate control-channel consumer around the stored
    /// control receiver (`ControlChannel::new` fixes that it wraps exactly
    /// that handle), and hands it with the stored effect handler to the
    /// receiver's run entry point. The stored control producer is retired
    /// first, so the run loop sees closure once every handle given out by
    /// `control_sender` is retired too; an unclaimed data consumer is
    /// retired as well, so the run loop learns that no downstream stage
    /// will ever drain. Occupies the caller until the run loop returns, and
    /// returns the receiver's own result, about which the trait promises
    /// nothing — so this function has no `ensures` to state.
    pub fn start(self) -> (r: Result<(), Error>) {
        match self {
            ReceiverWrapper::Local {
                effect_handler,
                receiver,
                control_sender,
                control_receiver,
                pdata_receiver,
            } => {
                control_sender.close();
                match pdata_receiver {
                    Some(rx) => rx.close(),
                    None => {},
                }
                let ctrl_msg_chan = local::ControlChannel::new(control_receiver);
                receiver.start(ctrl_msg_chan, effect_handler)
            },
            ReceiverWrapper::Shared {
                effect_handler,
                receiver,
                control_sender,
                control_receiver,
                pdata_receiver,
            } => {
                control_sender.close();
                match pdata_receiver {
                    Some(rx) => rx.close(),
                    None => {},
                }
                let ctrl_msg_chan = shared::ControlChannel::new(control_receiver);
                receiver.start(ctrl_msg_chan, effect_handler)
            },
        }
    }
}

} // verus!

