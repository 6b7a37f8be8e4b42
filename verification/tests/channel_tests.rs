//! Exercises of the bounded channels underneath the wrapper: in-order
//! unmodified delivery, backpressure without loss, closure signalling, the
//! effect handlers, and the control-message counters.

use receiver_core::chan_state::{ChannelState, RecvOutcome, SendOutcome};
use receiver_core::config::{ChannelConfig, ReceiverConfig};
use receiver_core::control::{ControlMsg, CtrlMsgCounters, LoopDecision, handle_control_msg};
use receiver_core::local;
use receiver_core::local_channel::local_channel;
use receiver_core::shared;
use receiver_core::shared_channel::shared_channel;

fn accepted<T>(r: SendOutcome<T>) {
    match r {
        SendOutcome::Accepted => {},
        _ => panic!("expected the send to be accepted"),
    }
}

fn msg<T>(r: RecvOutcome<T>) -> T {
    match r {
        RecvOutcome::Msg(m) => m,
        _ => panic!("expected a queued message"),
    }
}

/// Payloads cross the confined channel unmodified and in send order; after
/// draining, the consumer sees the empty (not closed) signal while a
/// producer is alive, and closure once the producer is retired.
#[test]
fn test_local_round_trip_in_order() {
    let (tx, mut rx) = local_channel::<String>(4);
    accepted(tx.try_send("first".to_string()));
    accepted(tx.try_send("second".to_string()));
    assert_eq!(msg(rx.try_recv()), "first");
    assert_eq!(msg(rx.try_recv()), "second");
    assert!(matches!(rx.try_recv(), RecvOutcome::Empty));
    tx.close();
    assert!(matches!(rx.try_recv(), RecvOutcome::Closed));
}

/// The same delivery discipline on the shared channel.
#[test]
fn test_shared_round_trip_in_order() {
    let (tx, mut rx) = shared_channel::<String>(4);
    accepted(tx.try_send("first".to_string()));
    accepted(tx.try_send("second".to_string()));
    assert_eq!(msg(rx.try_recv()), "first");
    assert_eq!(msg(rx.try_recv()), "second");
    assert!(matches!(rx.try_recv(), RecvOutcome::Empty));
    tx.close();
    assert!(matches!(rx.try_recv(), RecvOutcome::Closed));
}

/// Backpressure: a send beyond the capacity is held back with the message
/// returned unmodified — neither dropped nor an error — and is accepted as
/// soon as the consumer drains one item.
#[test]
fn test_backpressure_holds_and_resumes() {
    let (tx, mut rx) = shared_channel::<u64>(2);
    accepted(tx.try_send(10));
    accepted(tx.try_send(20));
    let held = match tx.try_send(30) {
        SendOutcome::Full(v) => v,
        _ => panic!("expected the full-channel outcome"),
    };
    assert_eq!(held, 30);
    assert_eq!(msg(rx.try_recv()), 10);
    accepted(tx.try_send(held));
    assert_eq!(msg(rx.try_recv()), 20);
    assert_eq!(msg(rx.try_recv()), 30);
}

/// A retired consumer turns every later send into the closed outcome, with
/// the message handed back.
#[test]
fn test_send_after_consumer_gone() {
    let (tx, rx) = local_channel::<u64>(2);
    rx.close();
    match tx.try_send(7) {
        SendOutcome::Closed(v) => assert_eq!(v, 7),
        _ => panic!("expected the closed-channel outcome"),
    }
}

/// Queued messages stay receivable after the producers are gone: closure is
/// reported only once the queue is drained.
#[test]
fn test_graceful_drain_after_close() {
    let (tx, mut rx) = shared_channel::<u64>(4);
    accepted(tx.try_send(1));
    accepted(tx.try_send(2));
    tx.close();
    assert_eq!(msg(rx.try_recv()), 1);
    assert_eq!(msg(rx.try_recv()), 2);
    assert!(matches!(rx.try_recv(), RecvOutcome::Closed));
}

/// A cloned producer feeds the same queue; the channel closes only after
/// every producer handle is retired.
#[test]
fn test_cloned_producers_share_queue() {
    let (tx, mut rx) = local_channel::<u64>(4);
    let tx2 = tx.duplicate();
    accepted(tx.try_send(1));
    accepted(tx2.try_send(2));
    tx.close();
    assert_eq!(msg(rx.try_recv()), 1);
    assert_eq!(msg(rx.try_recv()), 2);
    assert!(matches!(rx.try_recv(), RecvOutcome::Empty));
    tx2.close();
    assert!(matches!(rx.try_recv(), RecvOutcome::Closed));
}

/// The effect handlers hand payloads to the data channel unmodified, and a
/// duplicated handler feeds the same channel.
#[test]
fn test_effect_handler_shares_data_channel() {
    let (tx, mut rx) = local_channel::<String>(4);
    let handler = local::EffectHandler::new("conn_handler".to_string(), tx);
    assert_eq!(handler.receiver_name(), "conn_handler");
    let clone = handler.duplicate();
    assert_eq!(clone.receiver_name(), "conn_handler");
    accepted(handler.send_message("from the loop".to_string()));
    accepted(clone.send_message("from a spawned task".to_string()));
    assert_eq!(msg(rx.try_recv()), "from the loop");
    assert_eq!(msg(rx.try_recv()), "from a spawned task");

    let (stx, mut srx) = shared_channel::<String>(4);
    let shandler = shared::EffectHandler::new("conn_handler".to_string(), stx);
    accepted(shandler.duplicate().send_message("shared".to_string()));
    assert_eq!(msg(srx.try_recv()), "shared");
}

/// The counters bump exactly the handled kind, and the canonical control
/// step stops the loop exactly on a shutdown request.
#[test]
fn test_counters_and_control_step() {
    let mut counters = CtrlMsgCounters::new();
    assert!(counters.matches(0, 0, 0, 0));
    assert!(matches!(
        handle_control_msg(&mut counters, &ControlMsg::TimerTick),
        LoopDecision::Continue
    ));
    assert!(matches!(
        handle_control_msg(&mut counters, &ControlMsg::Ack { id: 1 }),
        LoopDecision::Continue
    ));
    assert!(matches!(
        handle_control_msg(&mut counters, &ControlMsg::Config { payload: "p".to_string() }),
        LoopDecision::Continue
    ));
    assert!(matches!(
        handle_control_msg(
            &mut counters,
            &ControlMsg::Shutdown { deadline_ms: 5, reason: "r".to_string() }
        ),
        LoopDecision::Stop
    ));
    assert!(counters.matches(1, 1, 1, 1));
    assert_eq!(counters.get_timer_tick_count(), 1);
}

/// Channel state transitions directly: capacity is respected and the queue
/// length never exceeds it.
#[test]
fn test_channel_state_capacity() {
    let mut st = ChannelState::<u64>::new(1);
    assert!(matches!(st.try_send(5), SendOutcome::Accepted));
    assert!(matches!(st.try_send(6), SendOutcome::Full(6)));
    assert!(matches!(st.try_recv(), RecvOutcome::Msg(5)));
    assert!(matches!(st.try_recv(), RecvOutcome::Empty));
}

/// Configuration carries the name and the two capacities.
#[test]
fn test_receiver_config() {
    let c = ReceiverConfig::new("otlp".to_string(), 3, 9);
    assert_eq!(c.name, "otlp");
    assert_eq!(c.control_channel.capacity, 3);
    assert_eq!(c.output_pdata_channel.capacity, 9);
    let ch = ChannelConfig::new(4);
    assert_eq!(ch.capacity, 4);
}
