//! The outbound telemetry task: one cycle reads every sensor in turn (with a
//! bounded number of attempts each), publishes each reading to the device's
//! telemetry topic, then sleeps before the next cycle.
//!
//! The task makes no I/O of its own. Its owner performs each
//! [`OutboundAction`] and hands back what happened as an [`OutboundEvent`].

use vstd::prelude::*;

use crate::error::{SmartPotError, Stage};
use crate::mqtt::{EnvelopeView, PublishEnvelope, Qos};

verus! {

/// The two kinds of DHT temperature and humidity sensor.
#[derive(Debug, Clone, Copy, PartialEq, Eq, Structural)]
pub enum DhtType {
    Dht11,
    Dht22,
}

/// Recommended number of read attempts per sensor and cycle.
pub const DEFAULT_READ_ATTEMPTS: u32 = 3;

/// Recommended pause between two read attempts, in milliseconds.
pub const DEFAULT_RETRY_DELAY_MS: u64 = 100;

/// Recommended pause between two cycles, in milliseconds.
pub const DEFAULT_INTERVAL_MS: u64 = 5000;

/// How the outbound task runs.
#[derive(Debug, Clone, Copy, PartialEq, Eq, Structural)]
pub struct OutboundConfig {
    /// How many sensors one cycle reads.
    pub sensor_count: usize,
    /// How many times a sensor is read in one cycle before it is skipped.
    pub max_attempts: u32,
    /// Pause before a repeated read, in milliseconds.
    pub retry_delay_ms: u64,
    /// Pause between cycles, in milliseconds.
    pub interval_ms: u64,
    /// Whether a failed publish ends the task (else it is skipped).
    pub abort_on_publish_error: bool,
}

/// Where the task is.
#[derive(Debug, Clone, Copy, PartialEq, Eq, Structural)]
pub enum OutboundPhase {
    /// Reading sensor `sensor`, after `attempt` failed attempts this cycle.
    Reading { sensor: usize, attempt: u32 },
    /// Publishing the reading of sensor `sensor`.
    Publishing { sensor: usize },
    /// Waiting for the next cycle.
    Sleeping,
    /// Ended by an unrecoverable publish error.
    Stopped,
}

/// What happened to the last action.
#[derive(Debug)]
pub enum OutboundEvent {
    /// The sensor could not be read.
    ReadFailed,
    /// The sensor was read and its reading encoded as `payload`.
    Encoded { payload: Vec<u8> },
    /// The sensor was read but its reading could not be encoded.
    EncodeFailed,
    /// The reading was published.
    Published,
    /// The reading could not be published.
    PublishFailed,
    /// The pause between cycles is over.
    Slept,
}

/// What the owner is to do next.
#[derive(Debug)]
pub enum OutboundAction {
    /// Read sensor `sensor` after waiting `delay_ms`.
    Read { sensor: usize, delay_ms: u64 },
    /// Publish the reading of sensor `sensor`.
    Publish { sensor: usize, envelope: PublishEnvelope },
    /// Wait `delay_ms` before the next cycle.
    Sleep { delay_ms: u64 },
    /// The task ends with `error`.
    Stop { error: SmartPotError },
    /// The event does not belong to the current step; nothing to do.
    Idle,
}

/// The plain-value model of an [`OutboundAction`].
pub enum OutboundActionView {
    Read { sensor: usize, delay_ms: u64 },
    Publish { sensor: usize, envelope: EnvelopeView },
    Sleep { delay_ms: u64 },
    Stop { error: SmartPotError },
    Idle,
}

impl View for OutboundAction {
    type V = OutboundActionView;

    open spec fn view(&self) -> OutboundActionView {
        match self {
            OutboundAction::Read { sensor, delay_ms } => OutboundActionView::Read {
                sensor: *sensor,
                delay_ms: *delay_ms,
            },
            OutboundAction::Publish { sensor, envelope } => OutboundActionView::Publish {
                sensor: *sensor,
                envelope: envelope@,
            },
            OutboundAction::Sleep { delay_ms } => OutboundActionView::Sleep { delay_ms: *delay_ms },
            OutboundAction::Stop { error } => OutboundActionView::Stop { error: *error },
            OutboundAction::Idle => OutboundActionView::Idle,
        }
    }
}

/// The plain-value model of an [`OutboundTask`].
pub struct OutboundModel {
    pub config: OutboundConfig,
    pub topic: Seq<char>,
    pub phase: OutboundPhase,
}

pub open spec fn with_phase(m: OutboundModel, phase: OutboundPhase) -> OutboundModel {
    OutboundModel { phase, ..m }
}

/// The start of a cycle: the first sensor, or the pause where there is none.
pub open spec fn cycle_start(m: OutboundModel) -> (OutboundModel, OutboundActionView) {
    if m.config.sensor_count > 0 {
        (
            with_phase(m, OutboundPhase::Reading { sensor: 0, attempt: 0 }),
            OutboundActionView::Read { sensor: 0, delay_ms: 0 },
        )
    } else {
        (
            with_phase(m, OutboundPhase::Sleeping),
            OutboundActionView::Sleep { delay_ms: m.config.interval_ms },
        )
    }
}

/// Moving on from sensor `sensor`: the next sensor, or the pause after the last.
pub open spec fn after_sensor(m: OutboundModel, sensor: usize) -> (OutboundModel, OutboundActionView) {
    if sensor + 1 < m.config.sensor_count {
        (
            with_phase(m, OutboundPhase::Reading { sensor: (sensor + 1) as usize, attempt: 0 }),
            OutboundActionView::Read { sensor: (sensor + 1) as usize, delay_ms: 0 },
        )
    } else {
        (
            with_phase(m, OutboundPhase::Sleeping),
            OutboundActionView::Sleep { delay_ms: m.config.interval_ms },
        )
    }
}

/// The telemetry envelope of a payload: the task's topic, at least once.
pub open spec fn telemetry_envelope(topic: Seq<char>, payload: Seq<u8>) -> EnvelopeView {
    EnvelopeView { topic, payload, qos: Qos::AtLeastOnce }
}

/// The transition of the task on `event`.
pub open spec fn outbound_next(m: OutboundModel, event: OutboundEvent) -> (
    OutboundModel,
    OutboundActionView,
) {
    match (m.phase, event) {
        (OutboundPhase::Reading { sensor, attempt }, OutboundEvent::ReadFailed) => {
            if attempt + 1 < m.config.max_attempts {
                (
                    with_phase(
                        m,
                        OutboundPhase::Reading { sensor, attempt: (attempt + 1) as u32 },
                    ),
                    OutboundActionView::Read { sensor, delay_ms: m.config.retry_delay_ms },
                )
            } else {
                after_sensor(m, sensor)
            }
        },
        (OutboundPhase::Reading { sensor, attempt }, OutboundEvent::EncodeFailed) => after_sensor(
            m,
            sensor,
        ),
        (OutboundPhase::Reading { sensor, attempt }, OutboundEvent::Encoded { payload }) => (
            with_phase(m, OutboundPhase::Publishing { sensor }),
            OutboundActionView::Publish {
                sensor,
                envelope: telemetry_envelope(m.topic, payload@),
            },
        ),
        (OutboundPhase::Publishing { sensor }, OutboundEvent::Published) => after_sensor(
            m,
            sensor,
        ),
        (OutboundPhase::Publishing { sensor }, OutboundEvent::PublishFailed) => {
            if m.config.abort_on_publish_error {
                (
                    with_phase(m, OutboundPhase::Stopped),
                    OutboundActionView::Stop { error: SmartPotError::NetworkError(Stage::Outbound) },
                )
            } else {
                after_sensor(m, sensor)
            }
        },
        (OutboundPhase::Sleeping, OutboundEvent::Slept) => cycle_start(m),
        _ => (m, OutboundActionView::Idle),
    }
}

/// Every sensor that the phase names is one of the configured sensors.
pub open spec fn phase_in_range(phase: OutboundPhase, sensor_count: usize) -> bool {
    match phase {
        OutboundPhase::Reading { sensor, .. } => sensor < sensor_count,
        OutboundPhase::Publishing { sensor } => sensor < sensor_count,
        _ => true,
    }
}

/// An action fits the task it came from: a sensor it names is configured,
/// and the task waits in the phase that the action's outcome answers.
pub open spec fn action_fits(a: OutboundActionView, m: OutboundModel) -> bool {
    match a {
        OutboundActionView::Read { sensor, .. } => sensor < m.config.sensor_count && (m.phase
            is Reading) && m.phase->Reading_sensor == sensor,
        OutboundActionView::Publish { sensor, .. } => sensor < m.config.sensor_count && m.phase
            == OutboundPhase::Publishing { sensor },
        OutboundActionView::Sleep { .. } => m.phase == OutboundPhase::Sleeping,
        OutboundActionView::Stop { .. } => m.phase == OutboundPhase::Stopped,
        OutboundActionView::Idle => true,
    }
}

/// The events that answer the action of each phase: a read's outcome while
/// reading, a publish's outcome while publishing, the end of the pause while
/// sleeping.
pub open spec fn answers(phase: OutboundPhase, event: OutboundEvent) -> bool {
    match (phase, event) {
        (OutboundPhase::Reading { .. }, OutboundEvent::ReadFailed) => true,
        (OutboundPhase::Reading { .. }, OutboundEvent::Encoded { .. }) => true,
        (OutboundPhase::Reading { .. }, OutboundEvent::EncodeFailed) => true,
        (OutboundPhase::Publishing { .. }, OutboundEvent::Published) => true,
        (OutboundPhase::Publishing { .. }, OutboundEvent::PublishFailed) => true,
        (OutboundPhase::Sleeping, OutboundEvent::Slept) => true,
        _ => false,
    }
}

/// # OutboundTask
///
/// The decisions of the device-to-cloud task.
#[derive(Debug)]
pub struct OutboundTask {
    config: OutboundConfig,
    topic: String,
    phase: OutboundPhase,
}

impl View for OutboundTask {
    type V = OutboundModel;

    closed spec fn view(&self) -> OutboundModel {
        OutboundModel { config: self.config, topic: self.topic@, phase: self.phase }
    }
}

impl OutboundTask {
    #[verifier::type_invariant]
    spec fn inv(&self) -> bool {
        phase_in_range(self.phase, self.config.sensor_count)
    }

    /// A task that publishes to `topic`, waiting for its first cycle.
    pub fn new(config: OutboundConfig, topic: String) -> (r: Self)
        ensures
            r@ == (OutboundModel { config, topic: topic@, phase: OutboundPhase::Sleeping }),
    {
        OutboundTask { config, topic, phase: OutboundPhase::Sleeping }
    }

    /// Where the task is.
    pub fn phase(&self) -> (r: OutboundPhase)
        ensures
            r == self@.phase,
    {
        self.phase
    }

    /// The first action: start a cycle at once.
    pub fn start(&mut self) -> (a: OutboundAction)
        requires
            old(self)@.phase == OutboundPhase::Sleeping,
        ensures
            (final(self)@, a@) == cycle_start(old(self)@),
            action_fits(a@, final(self)@),
            !(a@ is Idle),
    {
        self.begin_cycle()
    }

    fn begin_cycle(&mut self) -> (a: OutboundAction)
        ensures
            (final(self)@, a@) == cycle_start(old(self)@),
    {
        if self.config.sensor_count > 0 {
            self.phase = OutboundPhase::Reading { sensor: 0, attempt: 0 };
            OutboundAction::Read { sensor: 0, delay_ms: 0 }
        } else {
            self.phase = OutboundPhase::Sleeping;
            OutboundAction::Sleep { delay_ms: self.config.interval_ms }
        }
    }

    fn next_sensor(&mut self, sensor: usize) -> (a: OutboundAction)
        ensures
            (final(self)@, a@) == after_sensor(old(self)@, sensor),
    {
        if sensor < self.config.sensor_count && self.config.sensor_count - sensor > 1 {
            self.phase = OutboundPhase::Reading { sensor: sensor + 1, attempt: 0 };
            OutboundAction::Read { sensor: sensor + 1, delay_ms: 0 }
        } else {
            self.phase = OutboundPhase::Sleeping;
            OutboundAction::Sleep { delay_ms: self.config.interval_ms }
        }
    }

    /// Takes in what happened to the last action and says what to do next.
    pub fn handle(&mut self, event: OutboundEvent) -> (a: OutboundAction)
        ensures
            (final(self)@, a@) == outbound_next(old(self)@, event),
            phase_in_range(final(self)@.phase, final(self)@.config.sensor_count),
            action_fits(a@, final(self)@),
            answers(old(self)@.phase, event) ==> !(a@ is Idle),
    {
        proof {
            use_type_invariant(&*self);
        }
        let ghost answered = answers(self.phase, event);
        match (self.phase, event) {
            (OutboundPhase::Reading { sensor, attempt }, OutboundEvent::ReadFailed) => {
                if (attempt as u64) + 1 < self.config.max_attempts as u64 {
                    self.phase = OutboundPhase::Reading { sensor, attempt: attempt + 1 };
                    OutboundAction::Read { sensor, delay_ms: self.config.retry_delay_ms }
                } else {
                    self.next_sensor(sensor)
                }
            },
            (OutboundPhase::Reading { sensor, attempt }, OutboundEvent::EncodeFailed) => {
                self.next_sensor(sensor)
            },
            (OutboundPhase::Reading { sensor, attempt }, OutboundEvent::Encoded { payload }) => {
                self.phase = OutboundPhase::Publishing { sensor };
                let envelope = PublishEnvelope {
                    topic: self.topic.clone(),
                    payload,
                    qos: Qos::AtLeastOnce,
                };
                OutboundAction::Publish { sensor, envelope }
            },
            (OutboundPhase::Publishing { sensor }, OutboundEvent::Published) => {
                self.next_sensor(sensor)
            },
            (OutboundPhase::Publishing { sensor }, OutboundEvent::PublishFailed) => {
                if self.config.abort_on_publish_error {
                    self.phase = OutboundPhase::Stopped;
                    OutboundAction::Stop { error: SmartPotError::NetworkError(Stage::Outbound) }
                } else {
                    self.next_sensor(sensor)
                }
            },
            (OutboundPhase::Sleeping, OutboundEvent::Slept) => self.begin_cycle(),
            _ => {
                assert(!answered);
                OutboundAction::Idle
            },
        }
    }
}

/// A sensor that fails every attempt does not hold up the rest of the
/// cycle: when sensor `sensor` fails its last attempt and another sensor
/// follows it, the next sensor is read at once, and once that sensor is read
/// and encoded its reading is published to the telemetry topic at least
/// once.
pub proof fn lemma_failing_sensor_is_skipped(m: OutboundModel, sensor: usize, payload: Vec<u8>)
    requires
        m.phase == (OutboundPhase::Reading {
            sensor,
            attempt: (if m.config.max_attempts > 0 { m.config.max_attempts - 1 } else { 0 }) as u32,
        }),
        sensor + 1 < m.config.sensor_count,
    ensures
        ({
            let (m1, a1) = outbound_next(m, OutboundEvent::ReadFailed);
            let (m2, a2) = outbound_next(m1, OutboundEvent::Encoded { payload });
            &&& a1 == OutboundActionView::Read { sensor: (sensor + 1) as usize, delay_ms: 0 }
            &&& a2 == OutboundActionView::Publish {
                sensor: (sensor + 1) as usize,
                envelope: telemetry_envelope(m.topic, payload@),
            }
        }),
{
}

} // verus!
