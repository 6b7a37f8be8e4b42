//! Shared-affinity receiver API: the control channel a shared receiver
//! reads, the effect handler it emits payloads through, and the entry-point
//! capability any shared receiver implementation must provide. All handles
//! here are safe to move across execution contexts.

use vstd::prelude::*;
use crate::chan_state::{RecvOutcome, SendOutcome};
use crate::control::ControlMsg;
use crate::error::Error;
use crate::shared_channel::{SharedReceiver, SharedSender};

verus! {

/// Control-channel consumer handed to a shared receiver's run loop.
pub struct ControlChannel {
    receiver: SharedReceiver<ControlMsg>,
}

impl ControlChannel {
    /// The consumer half this control channel wraps.
    pub closed spec fn spec_receiver(&self) -> SharedReceiver<ControlMsg> {
        self.receiver
    }

    /// Wraps the consumer half of a shared control channel: exactly the
    /// given handle, nothing else, is what the run loop will drain.
    pub fn new(receiver: SharedReceiver<ControlMsg>) -> (c: ControlChannel)
        ensures
            c.spec_receiver() == receiver,
    {
        ControlChannel { receiver }
    }

    /// Asks for the oldest pending control message. `Empty` is the
    /// suspension point of the receiver's scheduling regime: nothing is
    /// pending, but producers are alive. `Closed` means every control
    /// producer is gone and is to be treated as an implicit shutdown
    /// signal. The wrapped consumer handle itself is untouched.
    pub fn recv(&mut self) -> (r: RecvOutcome<ControlMsg>)
        ensures
            *final(self) == *old(self),
    {
        self.receiver.try_recv()
    }

    /// Retires the control consumer when the run loop winds down: control
    /// producers still held elsewhere are then told the channel is closed
    /// instead of queueing signals nobody will read.
    pub fn close(self) {
        self.receiver.close();
    }
}

/// Effect handler of a shared receiver: the one capability through which
/// the receiver emits payload messages toward the next pipeline stage.
/// Holding a shared producer, it may be handed to any execution context.
#[verifier::reject_recursive_types(PData)]
pub struct EffectHandler<PData> {
    receiver_name: String,
    msg_sender: SharedSender<PData>,
}

impl<PData> EffectHandler<PData> {
    /// Name of the receiver instance, as the contracts speak of it.
    pub closed spec fn spec_name(&self) -> Seq<char> {
        self.receiver_name@
    }

    /// The data-channel producer this handler emits through.
    pub closed spec fn spec_sender(&self) -> SharedSender<PData> {
        self.msg_sender
    }

    /// Builds the handler for the named receiver over the producer half of
    /// its data channel.
    pub fn new(receiver_name: String, msg_sender: SharedSender<PData>) -> (h: EffectHandler<
        PData,
    >)
        ensures
            h.spec_name() == receiver_name@,
            h.spec_sender() == msg_sender,
    {
        EffectHandler { receiver_name, msg_sender }
    }

    /// Name of the receiver instance this handler belongs to.
    pub fn receiver_name(&self) -> (r: &String)
        ensures
            r@ == self.spec_name(),
    {
        &self.receiver_name
    }

    /// Offers a payload message to the data channel. No outcome drops the
    /// message: `Full` is the backpressure suspension point — the caller
    /// must yield to its scheduling regime and offer the returned message
    /// again once the consumer has drained — and `Closed` hands the message
    /// back because the downstream stage is gone, for the receiver to
    /// decide whether to terminate.
    pub fn send_message(&self, data: PData) -> (r: SendOutcome<PData>)
        ensures
            (r matches SendOutcome::Full(u) ==> u == data),
            (r matches SendOutcome::Closed(u) ==> u == data),
    {
        self.msg_sender.try_send(data)
    }

    /// Clones the handler so work spawned inside the receiver can emit
    /// payloads independently; every clone feeds the same data channel.
    pub fn duplicate(&self) -> (h: EffectHandler<PData>)
        ensures
            h.spec_name() == self.spec_name(),
            h.spec_sender().chan() == self.spec_sender().chan(),
            h.spec_sender().spec_capacity() == self.spec_sender().spec_capacity(),
    {
        EffectHandler {
            receiver_name: self.receiver_name.clone(),
            msg_sender: self.msg_sender.duplicate(),
        }
    }
}

/// Entry-point capability of a shared receiver implementation: given
/// ownership of its control channel and effect handler, run until a
/// shutdown control message is observed (return `Ok`) or an unrecoverable
/// error occurs (return it). The loop must multiplex control messages with
/// its other event sources rather than drain either to completion, and must
/// retire the control channel with `close` when it returns, so producers
/// still held elsewhere learn that nobody reads any more.
pub trait Receiver<PData> {
    /// Runs the receiver until shutdown or failure.
    fn start(self, ctrl_msg_recv: ControlChannel, effect_handler: EffectHandler<PData>) -> Result<
        (),
        Error,
    >;
}

} // verus!
