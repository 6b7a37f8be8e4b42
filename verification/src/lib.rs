//! Receiver abstraction layer of a telemetry pipeline engine.
//!
//! A receiver admits external data into the pipeline. Concrete receiver
//! implementations differ in their concurrency affinity: some must stay
//! confined to the execution context they were started on, others may be
//! handed freely across contexts. This crate packages any such receiver
//! behind one uniform wrapper that owns the receiver, its control channel
//! (orchestrator to receiver) and its data channel (receiver to the next
//! pipeline stage), picking the affinity-appropriate channel primitives
//! while exposing a single lifecycle surface.
//!
//! Channel closure is an explicit protocol throughout: every producer,
//! consumer and control-channel handle is retired with its `close`
//! operation, and a handle that is merely dropped leaves its channel open.
//! The wrapper's start operation retires what it owns; everything it hands
//! out carries the same obligation.

pub mod chan_state;
pub mod config;
pub mod control;
pub mod error;
pub mod local;
pub mod local_channel;
pub mod message;
pub mod receiver;
pub mod shared;
pub mod shared_channel;
