//! The telemetry session: an inbound listener and an outbound publisher run
//! side by side; the first to end decides how the session ends, and the other
//! is cancelled and never polled again.

use vstd::prelude::*;

use crate::error::{SmartPotError, Stage};

verus! {

/// What the inbound side of the connection reported.
#[derive(Debug, Clone, Copy, PartialEq, Eq, Structural)]
pub enum InboundEvent {
    /// A cloud-to-device message arrived.
    Received,
    /// A non-fatal change of the connection's status.
    StatusChanged,
    /// The connection closed.
    Closed,
    /// The transport reported a fatal error.
    Fatal,
}

/// How the inbound task goes on after `event`: `None` to keep listening, or
/// the result with which it ends.
pub open spec fn inbound_step_of(event: InboundEvent) -> Option<Result<(), SmartPotError>> {
    match event {
        InboundEvent::Received => None,
        InboundEvent::StatusChanged => None,
        InboundEvent::Closed => Some(Ok(())),
        InboundEvent::Fatal => Some(Err(SmartPotError::NetworkError(Stage::Inbound))),
    }
}

/// Decides whether the inbound task goes on after `event`.
pub fn inbound_step(event: InboundEvent) -> (r: Option<Result<(), SmartPotError>>)
    ensures
        r == inbound_step_of(event),
{
    match event {
        InboundEvent::Received => None,
        InboundEvent::StatusChanged => None,
        InboundEvent::Closed => Some(Ok(())),
        InboundEvent::Fatal => Some(Err(SmartPotError::NetworkError(Stage::Inbound))),
    }
}

/// One of the two tasks of a session.
#[derive(Debug, Clone, Copy, PartialEq, Eq, Structural)]
pub enum TaskSide {
    Inbound,
    Outbound,
}

/// The plain-value model of a session: which task ended first, and how.
pub type SessionModel = Option<(TaskSide, Result<(), SmartPotError>)>;

/// The session after `side` reports that it ended with `result`: the first
/// report decides; any later one comes from a task that was already
/// cancelled and changes nothing.
pub open spec fn session_finish(
    s: SessionModel,
    side: TaskSide,
    result: Result<(), SmartPotError>,
) -> SessionModel {
    match s {
        None => Some((side, result)),
        Some(o) => Some(o),
    }
}

/// The session after a series of end reports.
pub open spec fn session_finish_all(
    s: SessionModel,
    reports: Seq<(TaskSide, Result<(), SmartPotError>)>,
) -> SessionModel
    decreases reports.len(),
{
    if reports.len() == 0 {
        s
    } else {
        session_finish_all(session_finish(s, reports[0].0, reports[0].1), reports.drop_first())
    }
}

/// Whether task `side` is still to be polled: only while neither task ended.
pub open spec fn polls(s: SessionModel, side: TaskSide) -> bool {
    s is None
}

/// The result of the session, once a task ended.
pub open spec fn session_result(s: SessionModel) -> Option<Result<(), SmartPotError>> {
    match s {
        Some((_, r)) => Some(r),
        None => None,
    }
}

/// # Session
///
/// Resolves the race between the inbound and the outbound task.
#[derive(Debug)]
pub struct Session {
    outcome: Option<(TaskSide, Result<(), SmartPotError>)>,
}

impl View for Session {
    type V = SessionModel;

    closed spec fn view(&self) -> SessionModel {
        self.outcome
    }
}

impl Session {
    /// A session whose two tasks both run.
    pub fn new() -> (r: Self)
        ensures
            r@ is None,
    {
        Session { outcome: None }
    }

    /// Whether task `side` is still to be polled.
    pub fn is_running(&self, side: TaskSide) -> (r: bool)
        ensures
            r == polls(self@, side),
    {
        self.outcome.is_none()
    }

    /// Records that task `side` ended with `result`.
    pub fn finish(&mut self, side: TaskSide, result: Result<(), SmartPotError>)
        ensures
            final(self)@ == session_finish(old(self)@, side, result),
    {
        if self.outcome.is_none() {
            self.outcome = Some((side, result));
        }
    }

    /// The result of the session: `None` while both tasks run, else the
    /// result of the task that ended first.
    pub fn result(&self) -> (r: Option<Result<(), SmartPotError>>)
        ensures
            r == session_result(self@),
    {
        match self.outcome {
            Some((_, r)) => Some(r),
            None => None,
        }
    }

    /// Which task ended first, if one did.
    pub fn winner(&self) -> (r: Option<TaskSide>)
        ensures
            r == (match self@ {
                Some((side, _)) => Some(side),
                None => None::<TaskSide>,
            }),
    {
        match self.outcome {
            Some((side, _)) => Some(side),
            None => None,
        }
    }
}

/// Once a task has ended, no later report changes the session.
pub proof fn lemma_session_outcome_is_final(
    s: SessionModel,
    reports: Seq<(TaskSide, Result<(), SmartPotError>)>,
)
    requires
        s is Some,
    ensures
        session_finish_all(s, reports) == s,
    decreases reports.len(),
{
    if reports.len() > 0 {
        lemma_session_outcome_is_final(
            session_finish(s, reports[0].0, reports[0].1),
            reports.drop_first(),
        );
    }
}

/// When the outbound task ends with an error while the inbound task is still
/// running, the session's result is that error, and the inbound task is not
/// polled again, whatever the cancelled task reports afterwards.
pub proof fn lemma_outbound_error_ends_session(
    s: SessionModel,
    error: SmartPotError,
    later: Seq<(TaskSide, Result<(), SmartPotError>)>,
)
    requires
        polls(s, TaskSide::Inbound),
    ensures
        ({
            let ended = session_finish(s, TaskSide::Outbound, Err(error));
            let after = session_finish_all(ended, later);
            &&& session_result(after) == Some(Err::<(), SmartPotError>(error))
            &&& !polls(after, TaskSide::Inbound)
        }),
{
    lemma_session_outcome_is_final(session_finish(s, TaskSide::Outbound, Err(error)), later);
}

} // verus!
