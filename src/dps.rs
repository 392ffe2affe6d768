//! The provisioning client: subscribe to the response topics, publish the
//! registration request, then follow the service's answers (poll while it
//! works, back off when it throttles) until the device is assigned to a hub or
//! the attempt fails.
//!
//! The client makes no I/O of its own. Its owner performs each
//! [`ProvisioningAction`] on the provisioning connection and hands back what
//! happened as a [`ProvisioningEvent`].

use std::collections::HashMap;
use vstd::prelude::*;
use vstd::string::*;

use crate::error::{SmartPotError, Stage};
use crate::mqtt::{EnvelopeView, PublishEnvelope, Qos};

verus! {

/// The device description sent with the registration request. The protocol
/// passes it through without reading it.
#[derive(Debug)]
pub struct DeviceRegistration {
    pub installation_id: String,
    pub expiration_time: String,
    pub tags: Vec<String>,
    pub platform: String,
    pub push_channel: String,
    pub templates: HashMap<String, Template>,
    pub secondary_tiles: HashMap<String, SecondaryTile>,
}

#[derive(Debug)]
pub struct Template {
    pub body: String,
    pub tags: Vec<String>,
    pub headers: Option<HashMap<String, String>>,
}

#[derive(Debug)]
pub struct SecondaryTile {
    pub push_channel: String,
    pub tags: Vec<String>,
    pub templates: HashMap<String, SecondaryTemplate>,
}

#[derive(Debug)]
pub struct SecondaryTemplate {
    pub body_template: String,
    pub tags: Vec<String>,
    pub headers: Option<HashMap<String, String>>,
}

/// The body of a response of the provisioning service.
#[derive(Debug)]
pub struct RegistrationOperationStatus {
    pub operation_id: Option<String>,
    pub status: Option<String>,
    pub registration_state: Option<RegistrationState>,
}

/// Where the service assigned the device.
#[derive(Debug)]
pub struct RegistrationState {
    pub assigned_hub: Option<String>,
    pub device_id: Option<String>,
}

/// Why a provisioning attempt failed.
#[derive(Debug, Clone, Copy, PartialEq, Eq, Structural)]
pub enum FailureReason {
    /// A 200 answer whose status is not `assigned`.
    UnexpectedStatus,
    /// A 200 `assigned` answer without both the hub and the device id.
    IncompleteAssignment,
    /// A 401 answer.
    Unauthorized,
    /// An answer with a code that the protocol does not expect.
    UnexpectedCode(u16),
    /// The deadline passed before the attempt ended.
    Timeout,
    /// A publish failed or the connection closed.
    ConnectionLost,
}

/// Where a registration stands.
#[derive(Debug)]
pub enum RegistrationStatus {
    Pending { operation_id: Option<String> },
    Assigned { hub_host: String, device_id: String },
    Failed { reason: FailureReason },
}

/// The plain-value model of a [`RegistrationStatus`].
pub enum StatusView {
    Pending { operation_id: Option<Seq<char>> },
    Assigned { hub_host: Seq<char>, device_id: Seq<char> },
    Failed { reason: FailureReason },
}

pub open spec fn opt_string_view(o: Option<String>) -> Option<Seq<char>> {
    match o {
        Some(s) => Some(s@),
        None => None,
    }
}

impl View for RegistrationStatus {
    type V = StatusView;

    open spec fn view(&self) -> StatusView {
        match self {
            RegistrationStatus::Pending { operation_id } => StatusView::Pending {
                operation_id: opt_string_view(*operation_id),
            },
            RegistrationStatus::Assigned { hub_host, device_id } => StatusView::Assigned {
                hub_host: hub_host@,
                device_id: device_id@,
            },
            RegistrationStatus::Failed { reason } => StatusView::Failed { reason: *reason },
        }
    }
}

/// The error that a failed attempt is reported as.
pub open spec fn failure_error_of(reason: FailureReason) -> SmartPotError {
    match reason {
        FailureReason::Unauthorized => SmartPotError::AuthError,
        FailureReason::Timeout => SmartPotError::TimeoutError,
        FailureReason::ConnectionLost => SmartPotError::NetworkError(Stage::Provisioning),
        _ => SmartPotError::ProtocolError,
    }
}

/// Maps why an attempt failed to the error kind that its caller sees.
pub fn failure_error(reason: FailureReason) -> (r: SmartPotError)
    ensures
        r == failure_error_of(reason),
{
    match reason {
        FailureReason::Unauthorized => SmartPotError::AuthError,
        FailureReason::Timeout => SmartPotError::TimeoutError,
        FailureReason::ConnectionLost => SmartPotError::NetworkError(Stage::Provisioning),
        _ => SmartPotError::ProtocolError,
    }
}

/// The topic filter under which the service answers.
pub open spec fn response_filter() -> Seq<char> {
    "$dps/registrations/res/#"@
}

/// The prefix of every answer topic, before the status code.
pub open spec fn response_prefix() -> Seq<char> {
    RESPONSE_PREFIX@
}

/// The prefix of every answer topic.
pub const RESPONSE_PREFIX: &'static str = "$dps/registrations/res/";

pub open spec fn register_topic_of(request_id: Seq<char>) -> Seq<char> {
    "$dps/registrations/PUT/iotdps-register/?$rid="@ + request_id
}

pub open spec fn poll_topic_of(request_id: Seq<char>, operation_id: Seq<char>) -> Seq<char> {
    "$dps/registrations/GET/iotdps-get-operationstatus/?$rid="@ + request_id + "&operationId="@
        + operation_id
}

/// The register request topic for `request_id`.
pub fn register_topic(request_id: &str) -> (r: String)
    ensures
        r@ == register_topic_of(request_id@),
{
    let mut t = String::from_str("$dps/registrations/PUT/iotdps-register/?$rid=");
    t.append(request_id);
    t
}

/// The operation-status poll topic for `request_id` and `operation_id`.
pub fn poll_topic(request_id: &str, operation_id: &str) -> (r: String)
    ensures
        r@ == poll_topic_of(request_id@, operation_id@),
{
    let mut t = String::from_str("$dps/registrations/GET/iotdps-get-operationstatus/?$rid=");
    t.append(request_id);
    t.append("&operationId=");
    t.append(operation_id);
    t
}

/// Index of the first `/` in `s` at or after `i`, or the length of `s`.
pub open spec fn segment_end(s: Seq<char>, i: int) -> int
    decreases s.len() - i,
{
    if i < 0 || i >= s.len() {
        s.len() as int
    } else if s[i] == '/' {
        i
    } else {
        segment_end(s, i + 1)
    }
}

pub open spec fn is_digit(c: char) -> bool {
    '0' <= c <= '9'
}

/// The number written by a sequence of decimal digits.
pub open spec fn digits_value(s: Seq<char>) -> nat
    decreases s.len(),
{
    if s.len() == 0 {
        0
    } else {
        digits_value(s.drop_last()) * 10 + (s.last() as u32 - '0' as u32) as nat
    }
}

/// The status code of an answer topic: the path segment right after the
/// answer prefix, where it is a decimal number that fits in 16 bits.
/// Whether a topic is an answer topic: it starts with the answer prefix.
pub open spec fn is_response_topic_of(topic: Seq<char>) -> bool {
    let p = response_prefix();
    topic.len() >= p.len() && topic.take(p.len() as int) == p
}

/// The code that an answer topic is handled with: its status code, or 0 where
/// the segment is not a decimal number that fits in 16 bits (0 is no code
/// the protocol expects, so such an answer fails the attempt).
pub open spec fn answer_code_of(topic: Seq<char>) -> u16 {
    match status_code_of(topic) {
        Some(code) => code,
        None => 0,
    }
}

pub open spec fn status_code_of(topic: Seq<char>) -> Option<u16> {
    let p = response_prefix();
    if is_response_topic_of(topic) {
        let rest = topic.skip(p.len() as int);
        let seg = rest.take(segment_end(rest, 0));
        if seg.len() > 0 && (forall|i: int| 0 <= i < seg.len() ==> is_digit(#[trigger] seg[i]))
            && digits_value(seg) <= 65535 {
            Some(digits_value(seg) as u16)
        } else {
            None
        }
    } else {
        None
    }
}

proof fn lemma_segment_end_bounds(s: Seq<char>, i: int)
    requires
        0 <= i <= s.len(),
    ensures
        i <= segment_end(s, i) <= s.len(),
        forall|k: int| i <= k < segment_end(s, i) ==> s[k] != '/',
        segment_end(s, i) < s.len() ==> s[segment_end(s, i)] == '/',
    decreases s.len() - i,
{
    if i < s.len() && s[i] != '/' {
        lemma_segment_end_bounds(s, i + 1);
    }
}

/// Reads the status code out of an answer topic.
/// Whether `topic` starts with the answer prefix.
pub fn is_response_topic(topic: &str) -> (r: bool)
    ensures
        r == is_response_topic_of(topic@),
{
    let prefix = RESPONSE_PREFIX;
    let plen = prefix.unicode_len();
    let tlen = topic.unicode_len();
    if tlen < plen {
        return false;
    }
    let mut i: usize = 0;
    while i < plen
        invariant
            plen == prefix@.len(),
            prefix@ == response_prefix(),
            tlen == topic@.len(),
            plen <= tlen,
            i <= plen,
            topic@.take(i as int) == prefix@.take(i as int),
        decreases plen - i,
    {
        if topic.get_char(i) != prefix.get_char(i) {
            assert(topic@.take(plen as int)[i as int] != prefix@[i as int]);
            assert(topic@.take(plen as int) != prefix@);
            return false;
        }
        assert(topic@.take(i + 1) =~= topic@.take(i as int).push(topic@[i as int]));
        assert(prefix@.take(i + 1) =~= prefix@.take(i as int).push(prefix@[i as int]));
        i = i + 1;
    }
    assert(prefix@.take(plen as int) =~= prefix@);
    true
}

/// Reads the status code out of an answer topic.
pub fn status_code(topic: &str) -> (r: Option<u16>)
    ensures
        r == status_code_of(topic@),
{
    if !is_response_topic(topic) {
        return None;
    }
    let prefix = RESPONSE_PREFIX;
    let plen = prefix.unicode_len();
    let tlen = topic.unicode_len();
    let ghost rest = topic@.skip(plen as int);
    proof {
        lemma_segment_end_bounds(rest, 0);
    }
    let mut j: usize = plen;
    let mut value: u32 = 0;
    let mut too_large = false;
    while j < tlen && topic.get_char(j) != '/'
        invariant
            plen <= j <= tlen,
            tlen == topic@.len(),
            plen == prefix@.len(),
            topic@.take(plen as int) == response_prefix(),
            rest == topic@.skip(plen as int),
            j - plen <= segment_end(rest, 0),
            forall|k: int| 0 <= k < j - plen ==> is_digit(#[trigger] rest[k]),
            !too_large ==> value == digits_value(rest.take(j - plen)) && value <= 65535,
            too_large ==> digits_value(rest.take(j - plen)) > 65535,
        decreases tlen - j,
    {
        let c = topic.get_char(j);
        let ghost k = j - plen;
        proof {
            lemma_segment_end_bounds(rest, 0);
        }
        assert(rest[k] == topic@[j as int]);
        assert(k < segment_end(rest, 0)) by {
            if k == segment_end(rest, 0) {
                assert(rest[segment_end(rest, 0)] == '/');
            }
        }
        if !('0' <= c && c <= '9') {
            proof {
                let seg = rest.take(segment_end(rest, 0));
                assert(seg[j - plen] == c);
            }
            return None;
        }
        assert(rest.take(k + 1).drop_last() =~= rest.take(k));
        assert(rest.take(k + 1).last() == c);
        if !too_large {
            let d = (c as u32) - ('0' as u32);
            let next = value * 10 + d;
            if next > 65535 {
                too_large = true;
            } else {
                value = next;
            }
        }
        j = j + 1;
    }
    let ghost seg = rest.take(segment_end(rest, 0));
    proof {
        lemma_segment_end_bounds(rest, 0);
    }
    assert(j - plen == segment_end(rest, 0)) by {
        if j < tlen {
            assert(rest[j - plen] == topic@[j as int]);
        }
    }
    assert(seg =~= rest.take(j - plen));
    if j == plen || too_large {
        None
    } else {
        Some(value as u16)
    }
}

/// The plain-value model of a [`ProvisioningClient`].
pub struct ClientModel {
    pub request_id: Seq<char>,
    pub payload: Seq<u8>,
    pub backoff_ms: u64,
    pub subscribe_retry_ms: u64,
    pub deadline_ms: u64,
    pub subscribed: bool,
    pub status: StatusView,
}

/// Something that happened on the provisioning connection.
#[derive(Debug)]
pub enum ProvisioningEvent {
    /// The subscription to the answer topics was confirmed.
    Subscribed,
    /// The subscription was refused or could not be sent.
    SubscribeFailed,
    /// An answer arrived; `body` is `None` where it was not valid JSON of
    /// the expected shape.
    Message { topic: String, body: Option<RegistrationOperationStatus> },
    /// A publish could not be sent.
    PublishFailed,
    /// The connection closed.
    ConnectionClosed,
    /// Nothing arrived; time passed.
    Tick,
}

/// What the owner of the connection is to do next.
#[derive(Debug)]
pub enum ProvisioningAction {
    /// Subscribe to `filter` after waiting `delay_ms`.
    Subscribe { filter: String, delay_ms: u64 },
    /// Publish `envelope` after waiting `delay_ms`.
    Publish { envelope: PublishEnvelope, delay_ms: u64 },
    /// Wait for the next event.
    Listen,
    /// The attempt is over; its outcome is the client's status.
    Finished,
}

/// The plain-value model of a [`ProvisioningAction`].
pub enum ActionView {
    Subscribe { filter: Seq<char>, delay_ms: u64 },
    Publish { envelope: EnvelopeView, delay_ms: u64 },
    Listen,
    Finished,
}

impl View for ProvisioningAction {
    type V = ActionView;

    open spec fn view(&self) -> ActionView {
        match self {
            ProvisioningAction::Subscribe { filter, delay_ms } => ActionView::Subscribe {
                filter: filter@,
                delay_ms: *delay_ms,
            },
            ProvisioningAction::Publish { envelope, delay_ms } => ActionView::Publish {
                envelope: envelope@,
                delay_ms: *delay_ms,
            },
            ProvisioningAction::Listen => ActionView::Listen,
            ProvisioningAction::Finished => ActionView::Finished,
        }
    }
}

pub open spec fn register_envelope(m: ClientModel) -> EnvelopeView {
    EnvelopeView {
        topic: register_topic_of(m.request_id),
        payload: m.payload,
        qos: Qos::AtMostOnce,
    }
}

pub open spec fn poll_envelope(request_id: Seq<char>, operation_id: Seq<char>) -> EnvelopeView {
    EnvelopeView {
        topic: poll_topic_of(request_id, operation_id),
        payload: seq![],
        qos: Qos::AtMostOnce,
    }
}

pub open spec fn with_status(m: ClientModel, s: StatusView) -> ClientModel {
    ClientModel { status: s, ..m }
}

pub open spec fn failed(m: ClientModel, reason: FailureReason) -> (ClientModel, ActionView) {
    (with_status(m, StatusView::Failed { reason }), ActionView::Finished)
}

/// The hub and device of an assignment, where the service gave both.
pub open spec fn assignment_of(state: Option<RegistrationState>) -> Option<(Seq<char>, Seq<char>)> {
    match state {
        Some(s) => match (s.assigned_hub, s.device_id) {
            (Some(h), Some(d)) => Some((h@, d@)),
            _ => None,
        },
        None => None,
    }
}

/// How a pending client answers a parsed answer with status `code`.
pub open spec fn on_answer(m: ClientModel, code: u16, body: RegistrationOperationStatus) -> (
    ClientModel,
    ActionView,
) {
    if code == 202 {
        match body.operation_id {
            Some(op) => (
                with_status(m, StatusView::Pending { operation_id: Some(op@) }),
                ActionView::Publish { envelope: poll_envelope(m.request_id, op@), delay_ms: 0 },
            ),
            None => (m, ActionView::Listen),
        }
    } else if code == 200 {
        if opt_string_view(body.status) == Some("assigned"@) {
            match assignment_of(body.registration_state) {
                Some((h, d)) => (
                    with_status(m, StatusView::Assigned { hub_host: h, device_id: d }),
                    ActionView::Finished,
                ),
                None => failed(m, FailureReason::IncompleteAssignment),
            }
        } else {
            failed(m, FailureReason::UnexpectedStatus)
        }
    } else if code == 429 {
        match m.status {
            StatusView::Pending { operation_id: Some(op) } => (
                m,
                ActionView::Publish {
                    envelope: poll_envelope(m.request_id, op),
                    delay_ms: m.backoff_ms,
                },
            ),
            _ => (m, ActionView::Listen),
        }
    } else if code == 401 {
        failed(m, FailureReason::Unauthorized)
    } else {
        failed(m, FailureReason::UnexpectedCode(code))
    }
}

/// How a pending client answers `event`, before its deadline is looked at.
pub open spec fn on_event(m: ClientModel, event: ProvisioningEvent) -> (ClientModel, ActionView) {
    match event {
        ProvisioningEvent::Subscribed => if m.subscribed {
            (m, ActionView::Listen)
        } else {
            (
                ClientModel { subscribed: true, ..m },
                ActionView::Publish { envelope: register_envelope(m), delay_ms: 0 },
            )
        },
        ProvisioningEvent::SubscribeFailed => if m.subscribed {
            (m, ActionView::Listen)
        } else {
            (m, ActionView::Subscribe { filter: response_filter(), delay_ms: m.subscribe_retry_ms })
        },
        ProvisioningEvent::Message { topic, body } => if !m.subscribed || !is_response_topic_of(
            topic@,
        ) {
            (m, ActionView::Listen)
        } else {
            match body {
                Some(b) => on_answer(m, answer_code_of(topic@), b),
                None => (m, ActionView::Listen),
            }
        },
        ProvisioningEvent::PublishFailed => failed(m, FailureReason::ConnectionLost),
        ProvisioningEvent::ConnectionClosed => failed(m, FailureReason::ConnectionLost),
        ProvisioningEvent::Tick => (m, ActionView::Listen),
    }
}

/// The transition of the client on `event` at time `now_ms`: the new model
/// and the action. An event that ends the attempt decides its outcome; an
/// attempt that would still be pending at or after the deadline times out.
pub open spec fn next_step(m: ClientModel, event: ProvisioningEvent, now_ms: u64) -> (
    ClientModel,
    ActionView,
) {
    if !(m.status is Pending) {
        (m, ActionView::Finished)
    } else {
        let (m1, a) = on_event(m, event);
        if m1.status is Pending && now_ms >= m.deadline_ms {
            failed(m1, FailureReason::Timeout)
        } else {
            (m1, a)
        }
    }
}

/// # ProvisioningClient
///
/// One registration attempt, from subscription to assignment or failure.
#[derive(Debug)]
pub struct ProvisioningClient {
    request_id: String,
    payload: Vec<u8>,
    backoff_ms: u64,
    subscribe_retry_ms: u64,
    deadline_ms: u64,
    subscribed: bool,
    status: RegistrationStatus,
}

impl View for ProvisioningClient {
    type V = ClientModel;

    closed spec fn view(&self) -> ClientModel {
        ClientModel {
            request_id: self.request_id@,
            payload: self.payload@,
            backoff_ms: self.backoff_ms,
            subscribe_retry_ms: self.subscribe_retry_ms,
            deadline_ms: self.deadline_ms,
            subscribed: self.subscribed,
            status: self.status@,
        }
    }
}

impl ProvisioningClient {
    /// A client for the attempt `request_id`, which registers with the JSON
    /// `payload`, waits `backoff_ms` after a throttled poll and
    /// `subscribe_retry_ms` after a failed subscription, and gives up at
    /// `deadline_ms` (on the owner's clock).
    pub fn new(
        request_id: String,
        payload: Vec<u8>,
        backoff_ms: u64,
        subscribe_retry_ms: u64,
        deadline_ms: u64,
    ) -> (r: Self)
        ensures
            r@ == (ClientModel {
                request_id: request_id@,
                payload: payload@,
                backoff_ms,
                subscribe_retry_ms,
                deadline_ms,
                subscribed: false,
                status: StatusView::Pending { operation_id: None },
            }),
    {
        ProvisioningClient {
            request_id,
            payload,
            backoff_ms,
            subscribe_retry_ms,
            deadline_ms,
            subscribed: false,
            status: RegistrationStatus::Pending { operation_id: None },
        }
    }

    /// The first action: subscribe to the answer topics, before anything else.
    pub fn start(&self) -> (a: ProvisioningAction)
        ensures
            a@ == (ActionView::Subscribe { filter: response_filter(), delay_ms: 0 }),
    {
        ProvisioningAction::Subscribe {
            filter: String::from_str("$dps/registrations/res/#"),
            delay_ms: 0,
        }
    }

    /// Where the attempt stands.
    pub fn status(&self) -> (r: &RegistrationStatus)
        ensures
            r@ == self@.status,
    {
        &self.status
    }

    /// Whether the attempt is over.
    pub fn is_finished(&self) -> (r: bool)
        ensures
            r == !(self@.status is Pending),
    {
        !matches!(self.status, RegistrationStatus::Pending { .. })
    }

    fn fail(&mut self, reason: FailureReason) -> (a: ProvisioningAction)
        ensures
            (final(self)@, a@) == failed(old(self)@, reason),
    {
        self.status = RegistrationStatus::Failed { reason };
        ProvisioningAction::Finished
    }

    fn poll_action(&self, operation_id: &str, delay_ms: u64) -> (a: ProvisioningAction)
        ensures
            a@ == (ActionView::Publish {
                envelope: poll_envelope(self@.request_id, operation_id@),
                delay_ms,
            }),
    {
        let envelope = PublishEnvelope {
            topic: poll_topic(self.request_id.as_str(), operation_id),
            payload: Vec::new(),
            qos: Qos::AtMostOnce,
        };
        assert(envelope.payload@ =~= Seq::<u8>::empty());
        ProvisioningAction::Publish { envelope, delay_ms }
    }

    fn on_answer(&mut self, code: u16, body: RegistrationOperationStatus) -> (a:
        ProvisioningAction)
        ensures
            (final(self)@, a@) == on_answer(old(self)@, code, body),
    {
        if code == 202 {
            match body.operation_id {
                Some(op) => {
                    let a = self.poll_action(op.as_str(), 0);
                    self.status = RegistrationStatus::Pending { operation_id: Some(op) };
                    a
                },
                None => ProvisioningAction::Listen,
            }
        } else if code == 200 {
            let assigned = match body.status {
                Some(st) => st == String::from_str("assigned"),
                None => false,
            };
            if assigned {
                match body.registration_state {
                    Some(state) => match (state.assigned_hub, state.device_id) {
                        (Some(hub_host), Some(device_id)) => {
                            self.status = RegistrationStatus::Assigned { hub_host, device_id };
                            ProvisioningAction::Finished
                        },
                        _ => self.fail(FailureReason::IncompleteAssignment),
                    },
                    None => self.fail(FailureReason::IncompleteAssignment),
                }
            } else {
                self.fail(FailureReason::UnexpectedStatus)
            }
        } else if code == 429 {
            match &self.status {
                RegistrationStatus::Pending { operation_id: Some(op) } => self.poll_action(
                    op.as_str(),
                    self.backoff_ms,
                ),
                _ => ProvisioningAction::Listen,
            }
        } else if code == 401 {
            self.fail(FailureReason::Unauthorized)
        } else {
            self.fail(FailureReason::UnexpectedCode(code))
        }
    }

    fn on_event(&mut self, event: ProvisioningEvent) -> (a: ProvisioningAction)
        requires
            old(self)@.status is Pending,
        ensures
            (final(self)@, a@) == on_event(old(self)@, event),
    {
        match event {
            ProvisioningEvent::Subscribed => {
                if self.subscribed {
                    ProvisioningAction::Listen
                } else {
                    self.subscribed = true;
                    let envelope = PublishEnvelope {
                        topic: register_topic(self.request_id.as_str()),
                        payload: self.payload.clone(),
                        qos: Qos::AtMostOnce,
                    };
                    assert(envelope.payload@ =~= self.payload@);
                    ProvisioningAction::Publish { envelope, delay_ms: 0 }
                }
            },
            ProvisioningEvent::SubscribeFailed => {
                if self.subscribed {
                    ProvisioningAction::Listen
                } else {
                    ProvisioningAction::Subscribe {
                        filter: String::from_str("$dps/registrations/res/#"),
                        delay_ms: self.subscribe_retry_ms,
                    }
                }
            },
            ProvisioningEvent::Message { topic, body } => {
                if !self.subscribed || !is_response_topic(topic.as_str()) {
                    return ProvisioningAction::Listen;
                }
                let code = match status_code(topic.as_str()) {
                    Some(code) => code,
                    None => 0,
                };
                match body {
                    Some(b) => self.on_answer(code, b),
                    None => ProvisioningAction::Listen,
                }
            },
            ProvisioningEvent::PublishFailed => self.fail(FailureReason::ConnectionLost),
            ProvisioningEvent::ConnectionClosed => self.fail(FailureReason::ConnectionLost),
            ProvisioningEvent::Tick => ProvisioningAction::Listen,
        }
    }

    /// Takes in what happened at time `now_ms` and says what to do next.
    /// `Finished` comes exactly when the attempt is over.
    pub fn handle(&mut self, event: ProvisioningEvent, now_ms: u64) -> (a: ProvisioningAction)
        ensures
            (final(self)@, a@) == next_step(old(self)@, event, now_ms),
            a@ is Finished <==> !(final(self)@.status is Pending),
    {
        if self.is_finished() {
            return ProvisioningAction::Finished;
        }
        let a = self.on_event(event);
        if !self.is_finished() && now_ms >= self.deadline_ms {
            return self.fail(FailureReason::Timeout);
        }
        a
    }
}

/// A throttled answer neither restarts registration nor changes operation:
/// a subscribed client that is pending on operation `op` and gets a 429
/// answer before its deadline stays as it is, and its next action publishes
/// the poll for the same request and the same operation after waiting the
/// configured backoff.
pub proof fn lemma_throttled_poll_reuses_operation(
    m: ClientModel,
    op: Seq<char>,
    topic: String,
    body: RegistrationOperationStatus,
    now_ms: u64,
)
    requires
        m.status == (StatusView::Pending { operation_id: Some(op) }),
        m.subscribed,
        now_ms < m.deadline_ms,
        status_code_of(topic@) == Some(429u16),
    ensures
        next_step(m, ProvisioningEvent::Message { topic, body: Some(body) }, now_ms) == (
            m,
            ActionView::Publish { envelope: poll_envelope(m.request_id, op), delay_ms: m.backoff_ms },
        ),
{
}

/// An unauthorized answer ends the attempt at once: a subscribed, pending
/// client that gets a 401 answer, at any time, fails as unauthorized,
/// and from then on every event, at any time, leaves it so and asks for no
/// publish.
pub proof fn lemma_unauthorized_is_final(
    m: ClientModel,
    topic: String,
    body: RegistrationOperationStatus,
    now_ms: u64,
    later: ProvisioningEvent,
    later_ms: u64,
)
    requires
        m.status is Pending,
        m.subscribed,
        status_code_of(topic@) == Some(401u16),
    ensures
        ({
            let (m2, a) = next_step(
                m,
                ProvisioningEvent::Message { topic, body: Some(body) },
                now_ms,
            );
            &&& m2.status == (StatusView::Failed { reason: FailureReason::Unauthorized })
            &&& a == ActionView::Finished
            &&& next_step(m2, later, later_ms) == (m2, ActionView::Finished)
        }),
{
}

/// Assigned and failed are terminal: whatever happens afterwards, the client
/// keeps its outcome and asks for nothing more.
pub proof fn lemma_outcome_is_terminal(m: ClientModel, event: ProvisioningEvent, now_ms: u64)
    requires
        !(m.status is Pending),
    ensures
        next_step(m, event, now_ms) == (m, ActionView::Finished),
{
}

/// Nothing is published before the subscription is confirmed: while the
/// client is not subscribed, only the confirmation itself can lead to a
/// publish, and that publish is the registration request.
pub proof fn lemma_subscribe_before_publish(m: ClientModel, event: ProvisioningEvent, now_ms: u64)
    requires
        !m.subscribed,
    ensures
        next_step(m, event, now_ms).1 is Publish ==> (event is Subscribed
            && next_step(m, event, now_ms).1 == (ActionView::Publish {
                envelope: register_envelope(m),
                delay_ms: 0,
            })),
{
}

/// An answer whose status segment is not a decimal number that fits in 16
/// bits fails the attempt with an unexpected code (read as 0), whenever its
/// body parsed.
pub proof fn lemma_unreadable_code_fails(
    m: ClientModel,
    topic: String,
    body: RegistrationOperationStatus,
    now_ms: u64,
)
    requires
        m.status is Pending,
        m.subscribed,
        is_response_topic_of(topic@),
        status_code_of(topic@) is None,
    ensures
        next_step(m, ProvisioningEvent::Message { topic, body: Some(body) }, now_ms) == failed(
            m,
            FailureReason::UnexpectedCode(0),
        ),
{
}

} // verus!
