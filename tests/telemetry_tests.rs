use smart_pot::error::{SmartPotError, Stage};
use smart_pot::mqtt::Qos;
use smart_pot::telemetry::{OutboundAction, OutboundConfig, OutboundEvent, OutboundPhase, OutboundTask};

fn config(sensors: usize, abort: bool) -> OutboundConfig {
    OutboundConfig {
        sensor_count: sensors,
        max_attempts: 3,
        retry_delay_ms: 100,
        interval_ms: 5000,
        abort_on_publish_error: abort,
    }
}

fn task(sensors: usize, abort: bool) -> OutboundTask {
    OutboundTask::new(config(sensors, abort), String::from("devices/dev1/messages/events/"))
}

fn expect_read(a: OutboundAction, s: usize, delay: u64) {
    match a {
        OutboundAction::Read { sensor, delay_ms } => {
            assert_eq!(sensor, s);
            assert_eq!(delay_ms, delay);
        }
        other => panic!("expected a read, got {:?}", other),
    }
}

fn expect_sleep(a: OutboundAction, delay: u64) {
    match a {
        OutboundAction::Sleep { delay_ms } => assert_eq!(delay_ms, delay),
        other => panic!("expected a sleep, got {:?}", other),
    }
}

#[test]
fn failing_sensor_does_not_block_the_rest() {
    let mut t = task(3, false);
    expect_read(t.start(), 0, 0);
    expect_read(t.handle(OutboundEvent::ReadFailed), 0, 100);
    expect_read(t.handle(OutboundEvent::ReadFailed), 0, 100);
    expect_read(t.handle(OutboundEvent::ReadFailed), 1, 0);
    match t.handle(OutboundEvent::Encoded { payload: b"{\"t\":21.5}".to_vec() }) {
        OutboundAction::Publish { sensor, envelope } => {
            assert_eq!(sensor, 1);
            assert_eq!(envelope.topic, "devices/dev1/messages/events/");
            assert_eq!(envelope.payload, b"{\"t\":21.5}".to_vec());
            assert_eq!(envelope.qos, Qos::AtLeastOnce);
        }
        other => panic!("expected a publish, got {:?}", other),
    }
    expect_read(t.handle(OutboundEvent::Published), 2, 0);
    expect_sleep(t.handle(OutboundEvent::EncodeFailed), 5000);
    expect_read(t.handle(OutboundEvent::Slept), 0, 0);
}

#[test]
fn read_succeeds_on_a_retry() {
    let mut t = task(1, false);
    t.start();
    expect_read(t.handle(OutboundEvent::ReadFailed), 0, 100);
    assert!(matches!(t.handle(OutboundEvent::Encoded { payload: vec![1] }), OutboundAction::Publish { sensor: 0, .. }));
    expect_sleep(t.handle(OutboundEvent::Published), 5000);
}

#[test]
fn publish_failure_is_skipped_when_configured() {
    let mut t = task(2, false);
    t.start();
    t.handle(OutboundEvent::Encoded { payload: vec![1] });
    expect_read(t.handle(OutboundEvent::PublishFailed), 1, 0);
}

#[test]
fn publish_failure_stops_when_configured() {
    let mut t = task(2, true);
    t.start();
    t.handle(OutboundEvent::Encoded { payload: vec![1] });
    match t.handle(OutboundEvent::PublishFailed) {
        OutboundAction::Stop { error } => assert_eq!(error, SmartPotError::NetworkError(Stage::Outbound)),
        other => panic!("expected a stop, got {:?}", other),
    }
    assert_eq!(t.phase(), OutboundPhase::Stopped);
    assert!(matches!(t.handle(OutboundEvent::Slept), OutboundAction::Idle));
}

#[test]
fn no_sensors_only_sleeps() {
    let mut t = task(0, false);
    expect_sleep(t.start(), 5000);
    expect_sleep(t.handle(OutboundEvent::Slept), 5000);
}

#[test]
fn out_of_step_event_is_idle() {
    let mut t = task(1, false);
    t.start();
    assert!(matches!(t.handle(OutboundEvent::Published), OutboundAction::Idle));
    assert_eq!(t.phase(), OutboundPhase::Reading { sensor: 0, attempt: 0 });
}

#[test]
fn actions_name_configured_sensors() {
    let mut t = task(2, false);
    let mut a = t.start();
    let events = [
        OutboundEvent::ReadFailed,
        OutboundEvent::ReadFailed,
        OutboundEvent::ReadFailed,
        OutboundEvent::Encoded { payload: vec![7] },
        OutboundEvent::PublishFailed,
        OutboundEvent::Slept,
    ];
    for e in events {
        match a {
            OutboundAction::Read { sensor, .. } | OutboundAction::Publish { sensor, .. } => assert!(sensor < 2),
            _ => {}
        }
        a = t.handle(e);
        assert!(!matches!(a, OutboundAction::Idle));
    }
}
