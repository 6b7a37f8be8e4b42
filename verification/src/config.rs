//! Construction-time configuration for a receiver instance: a display name
//! and the capacities of its control and data channels.

use vstd::prelude::*;

verus! {

/// Configuration of one bounded channel: its capacity, fixed at
/// construction time and never resized.
pub struct ChannelConfig {
    /// Maximum number of messages the channel holds before senders are
    /// subjected to backpressure. Always at least one.
    pub capacity: usize,
}

impl ChannelConfig {
    /// A channel configuration is well formed when its capacity is positive:
    /// a zero-capacity bounded channel could never accept a message.
    pub open spec fn wf(self) -> bool {
        self.capacity >= 1
    }

    /// Builds a channel configuration with the given capacity.
    pub fn new(capacity: usize) -> (c: ChannelConfig)
        requires
            capacity >= 1,
        ensures
            c.wf(),
            c.capacity == capacity,
    {
        ChannelConfig { capacity }
    }
}

/// Configuration consumed when a receiver wrapper is constructed.
pub struct ReceiverConfig {
    /// Display name of the receiver instance.
    pub name: String,
    /// Capacity of the control channel (orchestrator to receiver).
    pub control_channel: ChannelConfig,
    /// Capacity of the data channel (receiver to the next pipeline stage).
    pub output_pdata_channel: ChannelConfig,
}

impl ReceiverConfig {
    /// A receiver configuration is well formed when both channel
    /// configurations are.
    pub open spec fn wf(self) -> bool {
        self.control_channel.wf() && self.output_pdata_channel.wf()
    }

    /// Builds a receiver configuration from a name and the two channel
    /// capacities.
    pub fn new(name: String, control_capacity: usize, pdata_capacity: usize) -> (c: ReceiverConfig)
        requires
            control_capacity >= 1,
            pdata_capacity >= 1,
        ensures
            c.wf(),
            c.name@ == name@,
            c.control_channel.capacity == control_capacity,
            c.output_pdata_channel.capacity == pdata_capacity,
    {
        ReceiverConfig {
            name,
            control_channel: ChannelConfig::new(control_capacity),
            output_pdata_channel: ChannelConfig::new(pdata_capacity),
        }
    }
}

} // verus!
