use crate::domain::settings::{RunState, ScopeMode, StopReason};
use crate::infra::clock::{utc_now, Timestamp};
use crate::infra::ids::{is_hyphenated_v4, uuid_v4_string};
use vstd::prelude::*;
use vstd::string::StringExecFns;

verus! {

// ── RunSession ────────────────────────────────────────────────────────────────

/// One run of the clicker, from creation to its end.
#[derive(Debug, Clone)]
pub struct RunSession {
    pub session_id: String,
    pub profile_id: String,
    pub started_at: Timestamp,
    pub ended_at: Option<Timestamp>,
    pub state: RunState,
    pub stop_reason: Option<StopReason>,
    pub effective_cps: u32,
    pub total_clicks: u64,
    pub scope_mode: ScopeMode,
    pub stationary_wait_observed_seconds: Option<u32>,
    pub error_code: Option<String>,
}

/// The state diagram of a run session: which state may follow which.
pub open spec fn transition_allowed(from: RunState, to: RunState) -> bool {
    match (from, to) {
        (RunState::Idle, RunState::WaitingCondition) => true,
        (RunState::Idle, RunState::Running) => true,
        (RunState::WaitingCondition, RunState::Running) => true,
        (RunState::Running, RunState::Stopped) => true,
        (RunState::Running, RunState::WaitingCondition) => true,  // focus loss
        (_, RunState::Error) => true,
        (RunState::Error, RunState::Idle) => true,
        _ => false,
    }
}

/// A state in which a session is ended and `ended_at` is recorded.
pub open spec fn is_end_state(s: RunState) -> bool {
    s == RunState::Stopped || s == RunState::Error
}

/// The message with which a forbidden transition is refused.
pub open spec fn transition_error_text(from: RunState, to: RunState) -> Seq<char> {
    "Invalid state transition: "@ + from.spec_variant_name() + " -> "@ + to.spec_variant_name()
}

/// The stop reason of a session that enters `Error`: the one already
/// recorded, or `Interruption` when there is none.
pub open spec fn error_stop_reason(recorded: Option<StopReason>) -> StopReason {
    match recorded {
        Some(reason) => reason,
        None => StopReason::Interruption,
    }
}

/// `b` is `a` with at most its state and end time changed.
pub open spec fn same_but_state(a: RunSession, b: RunSession) -> bool {
    &&& b.session_id == a.session_id
    &&& b.profile_id == a.profile_id
    &&& b.started_at == a.started_at
    &&& b.stop_reason == a.stop_reason
    &&& b.effective_cps == a.effective_cps
    &&& b.total_clicks == a.total_clicks
    &&& b.scope_mode == a.scope_mode
    &&& b.stationary_wait_observed_seconds == a.stationary_wait_observed_seconds
    &&& b.error_code == a.error_code
}

/// What a transition from `old` to `new_state` leaves behind: the new state
/// (and an end time when it ends the session) if allowed, otherwise `old`.
pub open spec fn transition_outcome(old: RunSession, new: RunSession, new_state: RunState) -> bool {
    if transition_allowed(old.state, new_state) {
        &&& same_but_state(old, new)
        &&& new.state == new_state
        &&& if is_end_state(new_state) {
            new.ended_at is Some
        } else {
            new.ended_at == old.ended_at
        }
    } else {
        new == old
    }
}

impl RunSession {
    /// Create a new run session in Idle state.
    pub fn new(profile_id: String, effective_cps: u32, scope_mode: ScopeMode) -> (s: Self)
        ensures
            is_hyphenated_v4(s.session_id@),
            s.profile_id == profile_id,
            s.ended_at is None,
            s.state == RunState::Idle,
            s.stop_reason is None,
            s.effective_cps == effective_cps,
            s.total_clicks == 0,
            s.scope_mode == scope_mode,
            s.stationary_wait_observed_seconds is None,
            s.error_code is None,
    {
        RunSession {
            session_id: uuid_v4_string(),
            profile_id,
            started_at: utc_now(),
            ended_at: None,
            state: RunState::Idle,
            stop_reason: None,
            effective_cps,
            total_clicks: 0,
            scope_mode,
            stationary_wait_observed_seconds: None,
            error_code: None,
        }
    }

    /// Transition to a new state. Returns an error string if the transition is invalid.
    pub fn transition_to(&mut self, new_state: RunState) -> (r: Result<(), String>)
        ensures
            transition_outcome(*old(self), *final(self), new_state),
            r is Ok <==> transition_allowed(old(self).state, new_state),
            r matches Err(msg) ==> msg@ == transition_error_text(old(self).state, new_state),
    {
        let valid = match (self.state, new_state) {
            (RunState::Idle, RunState::WaitingCondition) => true,
            (RunState::Idle, RunState::Running) => true,
            (RunState::WaitingCondition, RunState::Running) => true,
                (RunState::Running, RunState::Stopped) => true,
            (RunState::Running, RunState::WaitingCondition) => true,  // focus loss
            (_, RunState::Error) => true,
            (RunState::Error, RunState::Idle) => true,
            _ => false,
        };
        if !valid {
            let mut msg = String::from_str("Invalid state transition: ");
            let from_name = self.state.variant_name();
            let to_name = new_state.variant_name();
            msg.append(from_name.as_str());
            msg.append(" -> ");
            msg.append(to_name.as_str());
            return Err(msg);
        }
        self.state = new_state;
        if new_state == RunState::Stopped || new_state == RunState::Error {
            self.ended_at = Some(utc_now());
        }
        Ok(())
    }

    /// Stop the session with a given reason. The reason is recorded even when
    /// the session cannot move to `Stopped`.
    pub fn stop(&mut self, reason: StopReason) -> (r: Result<(), String>)
        ensures
            final(self).stop_reason == Some(reason),
            transition_outcome(
                RunSession { stop_reason: Some(reason), ..*old(self) },
                *final(self),
                RunState::Stopped,
            ),
            r is Ok <==> old(self).state == RunState::Running,
            r matches Err(msg) ==> msg@ == transition_error_text(old(self).state, RunState::Stopped),
    {
        self.stop_reason = Some(reason);
        self.transition_to(RunState::Stopped)
    }

    /// Record an error and transition to Error state; every state may do so.
    /// A session that has no stop reason yet is recorded as ended by an
    /// interruption.
    pub fn set_error(&mut self, code: String) -> (r: Result<(), String>)
        ensures
            r is Ok,
            final(self).error_code == Some(code),
            final(self).stop_reason == Some(error_stop_reason(old(self).stop_reason)),
            transition_outcome(
                RunSession {
                    error_code: Some(code),
                    stop_reason: Some(error_stop_reason(old(self).stop_reason)),
                    ..*old(self)
                },
                *final(self),
                RunState::Error,
            ),
    {
        self.error_code = Some(code);
        if self.stop_reason.is_none() {
            self.stop_reason = Some(StopReason::Interruption);
        }
        self.transition_to(RunState::Error)
    }

    /// Increment the click counter.
    pub fn record_click(&mut self)
        requires
            old(self).total_clicks < u64::MAX,
        ensures
            *final(self) == (RunSession { total_clicks: (old(self).total_clicks + 1) as u64, ..*old(self) }),
    {
        self.total_clicks = self.total_clicks + 1;
    }

    /// Check if the session is currently active (running or waiting).
    pub fn is_active(&self) -> (r: bool)
        ensures
            r == (self.state == RunState::Running || self.state == RunState::WaitingCondition),
    {
        match self.state {
            RunState::Running | RunState::WaitingCondition => true,
            _ => false,
        }
    }
}

/// A stopped session can never run again: from `Stopped` the only allowed
/// transition is to `Error`.
pub proof fn lemma_stopped_only_to_error(to: RunState)
    ensures
        transition_allowed(RunState::Stopped, to) <==> to == RunState::Error,
{
}

/// Every state may move to `Error`, and `Error` may be reset to `Idle`.
pub proof fn lemma_error_reachable_and_recoverable(from: RunState)
    ensures
        transition_allowed(from, RunState::Error),
        transition_allowed(RunState::Error, RunState::Idle),
{
}

/// Only `Error` leads back to `Idle`.
pub proof fn lemma_idle_only_from_error(from: RunState)
    ensures
        transition_allowed(from, RunState::Idle) <==> from == RunState::Error,
{
}

/// An errored session can only be reset to `Idle` (or fail again): it can
/// never resume waiting, running or be stopped without the reset.
pub proof fn lemma_error_exits_only_to_idle(to: RunState)
    ensures
        transition_allowed(RunState::Error, to) <==> (to == RunState::Idle || to
            == RunState::Error),
{
}

/// A session starts clicking only from `Idle` (at once) or from
/// `WaitingCondition` (once its condition holds).
pub proof fn lemma_running_entered_from_idle_or_waiting(from: RunState)
    ensures
        transition_allowed(from, RunState::Running) <==> (from == RunState::Idle || from
            == RunState::WaitingCondition),
{
}

/// A session is stopped only while it runs.
pub proof fn lemma_stopped_entered_only_from_running(from: RunState)
    ensures
        transition_allowed(from, RunState::Stopped) <==> from == RunState::Running,
{
}

/// A session waits for a condition only when a start finds it unmet
/// (`Idle`) or when a running session loses the target's focus.
pub proof fn lemma_waiting_entered_from_idle_or_running(from: RunState)
    ensures
        transition_allowed(from, RunState::WaitingCondition) <==> (from == RunState::Idle || from
            == RunState::Running),
{
}

/// Where each state may go: `Idle` to waiting or running, `WaitingCondition`
/// to running, `Running` to stopped or back to waiting, and every state to
/// `Error`; a state never moves to itself except `Error`.
pub proof fn lemma_exits_of_each_state(to: RunState)
    ensures
        transition_allowed(RunState::Idle, to) <==> (to == RunState::WaitingCondition || to
            == RunState::Running || to == RunState::Error),
        transition_allowed(RunState::WaitingCondition, to) <==> (to == RunState::Running || to
            == RunState::Error),
        transition_allowed(RunState::Running, to) <==> (to == RunState::Stopped || to
            == RunState::WaitingCondition || to == RunState::Error),
{
}

} // verus!
