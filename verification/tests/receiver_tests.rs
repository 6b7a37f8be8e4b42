//! End-to-end exercises of the receiver wrapper: both affinities, the
//! take-once data consumer, control-sender cloning, and the counter
//! snapshot after a full control-message scenario.

use receiver_core::chan_state::{RecvOutcome, SendOutcome};
use receiver_core::config::ReceiverConfig;
use receiver_core::control::{ControlMsg, CountersHandle};
use receiver_core::error::{ChannelKind, Error};
use receiver_core::local;
use receiver_core::message;
use receiver_core::receiver::ReceiverWrapper;
use receiver_core::shared;

/// Payload unit used by the test receivers.
#[derive(Debug, PartialEq)]
pub struct TestMsg(pub String);

/// A test receiver that emits one payload at startup, then handles control
/// messages until it observes a shutdown request, counting what it handled.
pub struct TestReceiver {
    counters: CountersHandle,
    greeting: String,
}

impl TestReceiver {
    pub fn new(counters: CountersHandle, greeting: &str) -> TestReceiver {
        TestReceiver { counters, greeting: greeting.to_string() }
    }

    fn run_loop(
        counters: CountersHandle,
        greeting: String,
        recv_ctrl: &mut dyn FnMut() -> RecvOutcome<ControlMsg>,
        emit: &dyn Fn(TestMsg) -> SendOutcome<TestMsg>,
    ) -> Result<(), Error> {
        match emit(TestMsg(greeting)) {
            SendOutcome::Accepted => {},
            _ => panic!("emitting the greeting failed"),
        }
        loop {
            match recv_ctrl() {
                RecvOutcome::Msg(msg) => {
                    counters.update_with(&msg);
                    if msg.is_shutdown() {
                        return Ok(());
                    }
                },
                RecvOutcome::Empty => panic!("control channel ran dry before shutdown"),
                RecvOutcome::Closed => return Ok(()),
            }
        }
    }
}

impl local::Receiver<TestMsg> for TestReceiver {
    fn start(
        self,
        mut ctrl_msg_recv: local::ControlChannel,
        effect_handler: local::EffectHandler<TestMsg>,
    ) -> Result<(), Error> {
        let result = TestReceiver::run_loop(
            self.counters,
            self.greeting,
            &mut || ctrl_msg_recv.recv(),
            &|m| effect_handler.send_message(m),
        );
        ctrl_msg_recv.close();
        result
    }
}

impl shared::Receiver<TestMsg> for TestReceiver {
    fn start(
        self,
        mut ctrl_msg_recv: shared::ControlChannel,
        effect_handler: shared::EffectHandler<TestMsg>,
    ) -> Result<(), Error> {
        let result = TestReceiver::run_loop(
            self.counters,
            self.greeting,
            &mut || ctrl_msg_recv.recv(),
            &|m| effect_handler.send_message(m),
        );
        ctrl_msg_recv.close();
        result
    }
}

type TestWrapper = ReceiverWrapper<TestMsg, TestReceiver, TestReceiver>;

fn test_config() -> ReceiverConfig {
    ReceiverConfig::new("test_receiver".to_string(), 8, 8)
}

fn send_all(sender: &message::Sender<ControlMsg>, msgs: Vec<ControlMsg>) {
    for msg in msgs {
        match sender.try_send(msg) {
            SendOutcome::Accepted => {},
            _ => panic!("control send failed"),
        }
    }
}

fn scenario_msgs() -> Vec<ControlMsg> {
    vec![
        ControlMsg::TimerTick,
        ControlMsg::TimerTick,
        ControlMsg::TimerTick,
        ControlMsg::Config { payload: "null".to_string() },
        ControlMsg::Shutdown { deadline_ms: 200, reason: "Test".to_string() },
    ]
}

fn drain_one(rx: &mut message::Receiver<TestMsg>) -> TestMsg {
    match rx.try_recv() {
        RecvOutcome::Msg(m) => m,
        _ => panic!("expected a payload message"),
    }
}

/// Scenario on the confined path: the receiver emits one payload, handles
/// 3 timer ticks, 1 config push and 1 shutdown, and the counters read
/// (3, 0, 1, 1).
#[test]
fn test_receiver_local() {
    let counters = CountersHandle::new();
    let receiver = TestReceiver::new(counters.duplicate(), "Hello from test client");
    let mut wrapper: TestWrapper = ReceiverWrapper::local(receiver, &test_config());

    let ctrl = wrapper.control_sender();
    send_all(&ctrl, scenario_msgs());
    ctrl.close();

    let mut pdata_rx = wrapper.take_pdata_receiver();
    let result = wrapper.start();
    assert!(result.is_ok());

    let received = drain_one(&mut pdata_rx);
    assert!(matches!(received, TestMsg(msg) if msg == "Hello from test client"));
    let snap = counters.snapshot();
    assert!(snap.matches(3, 0, 1, 1));
}

/// The same scenario on the shared path.
#[test]
fn test_receiver_shared() {
    let counters = CountersHandle::new();
    let receiver = TestReceiver::new(counters.duplicate(), "Hello from test client");
    let mut wrapper: TestWrapper = ReceiverWrapper::shared(receiver, &test_config());

    let ctrl = wrapper.control_sender();
    send_all(&ctrl, scenario_msgs());
    ctrl.close();

    let mut pdata_rx = wrapper.take_pdata_receiver();
    let result = wrapper.start();
    assert!(result.is_ok());

    let received = drain_one(&mut pdata_rx);
    assert!(matches!(received, TestMsg(msg) if msg == "Hello from test client"));
    let snap = counters.snapshot();
    assert!(snap.matches(3, 0, 1, 1));
}

/// The data-channel consumer is claimable exactly once, on both paths.
#[test]
fn test_take_pdata_receiver_once() {
    let counters = CountersHandle::new();
    let receiver = TestReceiver::new(counters.duplicate(), "x");
    let mut wrapper: TestWrapper = ReceiverWrapper::local(receiver, &test_config());
    assert!(wrapper.try_take_pdata_receiver().is_some());
    assert!(wrapper.try_take_pdata_receiver().is_none());

    let receiver2 = TestReceiver::new(counters.duplicate(), "x");
    let mut wrapper2: TestWrapper = ReceiverWrapper::shared(receiver2, &test_config());
    assert!(wrapper2.try_take_pdata_receiver().is_some());
    assert!(wrapper2.try_take_pdata_receiver().is_none());
}

/// Affinity tagging is preserved end-to-end: the confined constructor hands
/// out confined handles only, the shared constructor shared handles only.
#[test]
fn test_affinity_preserved() {
    let counters = CountersHandle::new();
    let receiver = TestReceiver::new(counters.duplicate(), "x");
    let mut wrapper: TestWrapper = ReceiverWrapper::local(receiver, &test_config());
    assert!(wrapper.is_confined());
    assert!(wrapper.control_sender().is_confined());
    assert!(wrapper.take_pdata_receiver().is_confined());

    let receiver2 = TestReceiver::new(counters.duplicate(), "x");
    let mut wrapper2: TestWrapper = ReceiverWrapper::shared(receiver2, &test_config());
    assert!(!wrapper2.is_confined());
    assert!(!wrapper2.control_sender().is_confined());
    assert!(!wrapper2.take_pdata_receiver().is_confined());
}

/// The control producer can be cloned any number of times and each handle
/// feeds the same channel; sending after the consumer is gone reports a
/// closed channel instead of crashing.
#[test]
fn test_control_sender_clones() {
    let counters = CountersHandle::new();
    let receiver = TestReceiver::new(counters.duplicate(), "Hello from test client");
    let mut wrapper: TestWrapper = ReceiverWrapper::local(receiver, &test_config());

    let ctrl_a = wrapper.control_sender();
    let ctrl_b = wrapper.control_sender();
    let ctrl_c = ctrl_a.duplicate();
    assert!(ctrl_c.is_confined());

    send_all(&ctrl_a, vec![ControlMsg::TimerTick]);
    send_all(&ctrl_b, vec![ControlMsg::TimerTick, ControlMsg::TimerTick]);
    send_all(
        &ctrl_c,
        vec![
            ControlMsg::Config { payload: "null".to_string() },
            ControlMsg::Shutdown { deadline_ms: 200, reason: "Test".to_string() },
        ],
    );
    ctrl_a.close();
    ctrl_b.close();

    let _pdata_rx = wrapper.take_pdata_receiver();
    assert!(wrapper.start().is_ok());
    assert!(counters.snapshot().matches(3, 0, 1, 1));

    // The run loop has returned: the control consumer is dropped, so a
    // still-live producer handle is told the channel is closed.
    match ctrl_c.try_send(ControlMsg::TimerTick) {
        SendOutcome::Closed(ControlMsg::TimerTick) => {},
        _ => panic!("expected the closed-channel outcome"),
    }
}

/// A shutdown request alone terminates the run loop cleanly and is counted
/// exactly once.
#[test]
fn test_shutdown_terminates_cleanly() {
    let counters = CountersHandle::new();
    let receiver = TestReceiver::new(counters.duplicate(), "x");
    let mut wrapper: TestWrapper = ReceiverWrapper::shared(receiver, &test_config());

    let ctrl = wrapper.control_sender();
    send_all(
        &ctrl,
        vec![ControlMsg::Shutdown { deadline_ms: 50, reason: "bye".to_string() }],
    );
    ctrl.close();
    let _pdata_rx = wrapper.take_pdata_receiver();
    assert!(wrapper.start().is_ok());
    assert!(counters.snapshot().matches(0, 0, 0, 1));
}

/// Closing every control producer is an implicit shutdown: the run loop
/// returns cleanly without a shutdown message.
#[test]
fn test_control_closed_is_implicit_shutdown() {
    let counters = CountersHandle::new();
    let receiver = TestReceiver::new(counters.duplicate(), "x");
    let mut wrapper: TestWrapper = ReceiverWrapper::local(receiver, &test_config());

    let ctrl = wrapper.control_sender();
    send_all(&ctrl, vec![ControlMsg::TimerTick]);
    ctrl.close();
    let _pdata_rx = wrapper.take_pdata_receiver();
    assert!(wrapper.start().is_ok());
    assert!(counters.snapshot().matches(1, 0, 0, 0));
}

/// The error taxonomy: the closed-channel error is recognizable and carries
/// the channel it was observed on.
#[test]
fn test_error_taxonomy() {
    let e = Error::closed(ChannelKind::Data);
    assert!(e.is_channel_closed());
    let f = Error::ReceiverError { receiver: "r".to_string(), detail: "boom".to_string() };
    assert!(!f.is_channel_closed());
    let g = Error::ResourceFailure {
        receiver: "r".to_string(),
        detail: "address in use".to_string(),
    };
    assert!(!g.is_channel_closed());
}

/// Control messages expose the shutdown predicate.
#[test]
fn test_is_shutdown_predicate() {
    assert!(ControlMsg::Shutdown { deadline_ms: 1, reason: "r".to_string() }.is_shutdown());
    assert!(!ControlMsg::TimerTick.is_shutdown());
    assert!(!ControlMsg::Config { payload: "p".to_string() }.is_shutdown());
    assert!(!ControlMsg::Ack { id: 7 }.is_shutdown());
}
