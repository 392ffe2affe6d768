use smart_pot::dps::{
    failure_error, status_code, FailureReason, ProvisioningAction, ProvisioningClient,
    ProvisioningEvent, RegistrationOperationStatus, RegistrationState, RegistrationStatus,
};
use smart_pot::error::{SmartPotError, Stage};
use smart_pot::mqtt::Qos;

const POLL_OP1: &str = "$dps/registrations/GET/iotdps-get-operationstatus/?$rid=req-1&operationId=op1";

fn client() -> ProvisioningClient {
    ProvisioningClient::new(String::from("req-1"), b"{\"registrationId\":\"pot-01\"}".to_vec(), 500, 250, 60_000)
}

fn body(op: Option<&str>, status: Option<&str>, state: Option<(Option<&str>, Option<&str>)>) -> Option<RegistrationOperationStatus> {
    Some(RegistrationOperationStatus {
        operation_id: op.map(String::from),
        status: status.map(String::from),
        registration_state: state.map(|(h, d)| RegistrationState {
            assigned_hub: h.map(String::from),
            device_id: d.map(String::from),
        }),
    })
}

fn answer(code: &str, b: Option<RegistrationOperationStatus>) -> ProvisioningEvent {
    ProvisioningEvent::Message { topic: format!("$dps/registrations/res/{}/?$rid=req-1", code), body: b }
}

fn expect_publish(a: ProvisioningAction, topic: &str, delay: u64) -> Vec<u8> {
    match a {
        ProvisioningAction::Publish { envelope, delay_ms } => {
            assert_eq!(envelope.topic, topic);
            assert_eq!(envelope.qos, Qos::AtMostOnce);
            assert_eq!(delay_ms, delay);
            envelope.payload
        }
        other => panic!("expected a publish, got {:?}", other),
    }
}

/// Subscribes, registers, and gets the 202 with operation `op1`.
fn pending_on_op1() -> ProvisioningClient {
    let mut c = client();
    c.handle(ProvisioningEvent::Subscribed, 0);
    let a = c.handle(answer("202", body(Some("op1"), Some("assigning"), None)), 10);
    expect_publish(a, POLL_OP1, 0);
    c
}

#[test]
fn subscribes_before_anything_else() {
    let c = client();
    match c.start() {
        ProvisioningAction::Subscribe { filter, delay_ms } => {
            assert_eq!(filter, "$dps/registrations/res/#");
            assert_eq!(delay_ms, 0);
        }
        other => panic!("expected a subscribe, got {:?}", other),
    }
}

#[test]
fn failed_subscription_is_retried_after_delay() {
    let mut c = client();
    match c.handle(ProvisioningEvent::SubscribeFailed, 0) {
        ProvisioningAction::Subscribe { filter, delay_ms } => {
            assert_eq!(filter, "$dps/registrations/res/#");
            assert_eq!(delay_ms, 250);
        }
        other => panic!("expected a subscribe, got {:?}", other),
    }
}

#[test]
fn registration_is_published_once_subscribed() {
    let mut c = client();
    let a = c.handle(ProvisioningEvent::Subscribed, 0);
    let payload = expect_publish(a, "$dps/registrations/PUT/iotdps-register/?$rid=req-1", 0);
    assert_eq!(payload, b"{\"registrationId\":\"pot-01\"}".to_vec());
    assert!(matches!(c.handle(ProvisioningEvent::Subscribed, 1), ProvisioningAction::Listen));
}

#[test]
fn poll_then_assignment() {
    let mut c = pending_on_op1();
    assert!(matches!(c.status(), RegistrationStatus::Pending { operation_id: Some(op) } if op == "op1"));
    let a = c.handle(answer("200", body(Some("op1"), Some("assigned"), Some((Some("h1"), Some("dev1"))))), 20);
    assert!(matches!(a, ProvisioningAction::Finished));
    match c.status() {
        RegistrationStatus::Assigned { hub_host, device_id } => {
            assert_eq!(hub_host, "h1");
            assert_eq!(device_id, "dev1");
        }
        other => panic!("expected an assignment, got {:?}", other),
    }
    assert!(c.is_finished());
}

#[test]
fn throttled_poll_reuses_operation_after_backoff() {
    let mut c = pending_on_op1();
    let a = c.handle(answer("429", body(None, None, None)), 30);
    let payload = expect_publish(a, POLL_OP1, 500);
    assert!(payload.is_empty());
    assert!(matches!(c.status(), RegistrationStatus::Pending { operation_id: Some(op) } if op == "op1"));
}

#[test]
fn throttled_registration_without_operation_waits() {
    let mut c = client();
    c.handle(ProvisioningEvent::Subscribed, 0);
    assert!(matches!(c.handle(answer("429", body(None, None, None)), 5), ProvisioningAction::Listen));
    assert!(!c.is_finished());
}

#[test]
fn unauthorized_fails_without_further_publishes() {
    let mut c = pending_on_op1();
    assert!(matches!(c.handle(answer("401", body(None, None, None)), 30), ProvisioningAction::Finished));
    assert!(matches!(c.status(), RegistrationStatus::Failed { reason: FailureReason::Unauthorized }));
    assert!(matches!(c.handle(answer("202", body(Some("op2"), None, None)), 40), ProvisioningAction::Finished));
    assert!(matches!(c.handle(ProvisioningEvent::Subscribed, 50), ProvisioningAction::Finished));
    assert!(matches!(c.status(), RegistrationStatus::Failed { reason: FailureReason::Unauthorized }));
}

#[test]
fn other_status_on_200_fails() {
    let mut c = pending_on_op1();
    c.handle(answer("200", body(None, Some("failed"), None)), 30);
    assert!(matches!(c.status(), RegistrationStatus::Failed { reason: FailureReason::UnexpectedStatus }));
}

#[test]
fn assignment_without_hub_is_incomplete() {
    let mut c = pending_on_op1();
    c.handle(answer("200", body(None, Some("assigned"), Some((None, Some("dev1"))))), 30);
    assert!(matches!(c.status(), RegistrationStatus::Failed { reason: FailureReason::IncompleteAssignment }));
}

#[test]
fn unexpected_code_fails() {
    let mut c = pending_on_op1();
    c.handle(answer("500", body(None, None, None)), 30);
    assert!(matches!(c.status(), RegistrationStatus::Failed { reason: FailureReason::UnexpectedCode(500) }));
}

#[test]
fn unparsable_body_is_ignored() {
    let mut c = pending_on_op1();
    assert!(matches!(c.handle(answer("401", None), 30), ProvisioningAction::Listen));
    assert!(!c.is_finished());
}

#[test]
fn missing_operation_id_on_202_is_ignored() {
    let mut c = client();
    c.handle(ProvisioningEvent::Subscribed, 0);
    assert!(matches!(c.handle(answer("202", body(None, None, None)), 5), ProvisioningAction::Listen));
    assert!(matches!(c.status(), RegistrationStatus::Pending { operation_id: None }));
}

#[test]
fn foreign_topic_is_ignored() {
    let mut c = pending_on_op1();
    let e = ProvisioningEvent::Message { topic: String::from("devices/dev1/messages/devicebound/"), body: body(None, None, None) };
    assert!(matches!(c.handle(e, 30), ProvisioningAction::Listen));
}

#[test]
fn deadline_gives_timeout() {
    let mut c = pending_on_op1();
    assert!(matches!(c.handle(ProvisioningEvent::Tick, 59_999), ProvisioningAction::Listen));
    assert!(matches!(c.handle(ProvisioningEvent::Tick, 60_000), ProvisioningAction::Finished));
    assert!(matches!(c.status(), RegistrationStatus::Failed { reason: FailureReason::Timeout }));
}

#[test]
fn lost_connection_fails() {
    let mut c = pending_on_op1();
    c.handle(ProvisioningEvent::ConnectionClosed, 30);
    assert!(matches!(c.status(), RegistrationStatus::Failed { reason: FailureReason::ConnectionLost }));
    let mut d = pending_on_op1();
    d.handle(ProvisioningEvent::PublishFailed, 30);
    assert!(matches!(d.status(), RegistrationStatus::Failed { reason: FailureReason::ConnectionLost }));
}

#[test]
fn status_codes_from_topics() {
    assert_eq!(status_code("$dps/registrations/res/202/?$rid=req-1&retry-after=3"), Some(202));
    assert_eq!(status_code("$dps/registrations/res/429"), Some(429));
    assert_eq!(status_code("$dps/registrations/res/65535/"), Some(65535));
    assert_eq!(status_code("$dps/registrations/res/65536/"), None);
    assert_eq!(status_code("$dps/registrations/res/2x0/"), None);
    assert_eq!(status_code("$dps/registrations/res//"), None);
    assert_eq!(status_code("$dps/registrations/res/"), None);
    assert_eq!(status_code("$dps/registrations/PUT/202/"), None);
    assert_eq!(status_code("devices/dev1"), None);
}

#[test]
fn failures_map_to_error_kinds() {
    assert_eq!(failure_error(FailureReason::Unauthorized), SmartPotError::AuthError);
    assert_eq!(failure_error(FailureReason::Timeout), SmartPotError::TimeoutError);
    assert_eq!(failure_error(FailureReason::ConnectionLost), SmartPotError::NetworkError(Stage::Provisioning));
    assert_eq!(failure_error(FailureReason::UnexpectedCode(500)), SmartPotError::ProtocolError);
    assert_eq!(failure_error(FailureReason::UnexpectedStatus), SmartPotError::ProtocolError);
}

#[test]
fn unreadable_status_code_fails_as_unexpected() {
    for code in ["abc", "", "70000", "2x0"] {
        let mut c = pending_on_op1();
        assert!(matches!(c.handle(answer(code, body(None, None, None)), 30), ProvisioningAction::Finished));
        assert!(matches!(c.status(), RegistrationStatus::Failed { reason: FailureReason::UnexpectedCode(0) }));
    }
}

#[test]
fn unreadable_status_code_without_body_is_ignored() {
    let mut c = pending_on_op1();
    assert!(matches!(c.handle(answer("abc", None), 30), ProvisioningAction::Listen));
    assert!(!c.is_finished());
}

#[test]
fn unauthorized_after_deadline_is_still_unauthorized() {
    let mut c = pending_on_op1();
    assert!(matches!(c.handle(answer("401", body(None, None, None)), 70_000), ProvisioningAction::Finished));
    assert!(matches!(c.status(), RegistrationStatus::Failed { reason: FailureReason::Unauthorized }));
}

#[test]
fn poll_answer_after_deadline_times_out() {
    let mut c = pending_on_op1();
    assert!(matches!(c.handle(answer("202", body(Some("op1"), None, None)), 60_000), ProvisioningAction::Finished));
    assert!(matches!(c.status(), RegistrationStatus::Failed { reason: FailureReason::Timeout }));
}

#[test]
fn answer_topic_prefix() {
    assert!(smart_pot::dps::is_response_topic("$dps/registrations/res/abc"));
    assert!(!smart_pot::dps::is_response_topic("$dps/registrations/re"));
    assert!(!smart_pot::dps::is_response_topic("devices/dev1/messages/devicebound/"));
}
