use crate::domain::errors::EngineError;
use crate::domain::events::{event_is, same_event, EventLevel, EventRecord};
use crate::domain::profile::{validation_failure, ClickProfile};
use crate::domain::session::{same_but_state, RunSession};
use crate::domain::settings::{RunState, ScopeMode, StopReason};
use crate::engine::conditions::{fed, ActivationCondition, ActivationConditionView, PositionSample};
use crate::infra::clock::{duration_as_secs, duration_secs, instant_elapsed, instant_now};
use crate::text::decimal_text;
use std::time::{Duration, Instant};
use vstd::prelude::*;
use vstd::string::StringExecFns;

verus! {

/// How many events the log keeps; older ones are dropped first.
pub const EVENT_LOG_CAPACITY: usize = 1000;

/// Commands that can be sent to the click engine.
#[derive(Debug, Clone)]
pub enum EngineCommand {
    Start(ClickProfile),
    Stop,
    PanicStop,
}

/// What the click loop does after consulting the engine.
#[derive(Debug, Clone, Copy, PartialEq, Eq, Structural)]
pub enum ClickLoopStep {
    /// Perform one click, report it, sleep one tick and ask again.
    Click,
    /// Do not click: the run waits for its condition (the mouse standing
    /// still, or the target window's focus). Report what was observed and
    /// ask again.
    Wait,
    /// Leave the loop: the run has ended.
    Exit,
}

/// Shared engine state: the current session, the event log, the flags
/// through which the click loop is told to stop, and the limits of the
/// current run.
pub struct ClickEngine {
    /// The current run session (None if no session exists).
    pub session: Option<RunSession>,
    /// Event log buffer.
    pub events: Vec<EventRecord>,
    /// Whether the click loop should keep going.
    pub running: bool,
    /// Whether a panic stop was requested.
    pub panic: bool,
    /// The stationary-mouse condition the current run still waits for.
    pub condition: Option<ActivationCondition>,
    /// Whether the current run is paused because the target window lost
    /// focus.
    pub focus_paused: bool,
    /// The stop-after seconds of the current run (None when disabled).
    pub stop_after_seconds: Option<u32>,
    /// The max-session seconds of the current run (None when disabled).
    pub max_session_seconds: Option<u32>,
    /// When the last run ended (for the cooldown between runs).
    pub last_run_end: Option<Instant>,
}

/// The name under which the stationary-mouse condition is logged.
pub open spec fn stationary_condition_name() -> Seq<char> {
    "mouse stationary"@
}

/// The log after appending to `log`: only the newest `EVENT_LOG_CAPACITY`
/// entries are kept.
pub open spec fn capped(log: Seq<EventRecord>) -> Seq<EventRecord> {
    if log.len() > EVENT_LOG_CAPACITY {
        log.subrange(log.len() - EVENT_LOG_CAPACITY, log.len() as int)
    } else {
        log
    }
}

/// `new_log` is `old_log` with one more event appended and then capped; the
/// appended event is the last of `new_log`.
pub open spec fn logged_one(old_log: Seq<EventRecord>, new_log: Seq<EventRecord>) -> bool {
    new_log.len() > 0 && new_log == capped(old_log.push(new_log.last()))
}

/// `new_log` is `old_log` with two more events appended, each followed by
/// the cap; they are the last two of `new_log`, in order.
pub open spec fn logged_two(old_log: Seq<EventRecord>, new_log: Seq<EventRecord>) -> bool {
    new_log.len() >= 2 && new_log == capped(
        capped(old_log.push(new_log[new_log.len() - 2])).push(new_log.last()),
    )
}

/// Two events appended one after the other stand last in the log, in order.
proof fn lemma_capped_push_two(log: Seq<EventRecord>, a: EventRecord, b: EventRecord)
    ensures
        ({
            let n = capped(capped(log.push(a)).push(b));
            n.len() >= 2 && n[n.len() - 2] == a && n.last() == b
        }),
{
    let x = capped(log.push(a));
    assert(x.len() >= 1 && x.len() <= EVENT_LOG_CAPACITY && x.last() == a);
    let y = x.push(b);
    let n = capped(y);
    if y.len() > EVENT_LOG_CAPACITY {
        assert(n[n.len() - 2] == y[y.len() - 2]);
    }
}

/// Whether a limit of the run (a number of seconds, or none) has been reached
/// `elapsed_secs` whole seconds after clicking began.
pub open spec fn limit_reached(limit: Option<u32>, elapsed_secs: u64) -> bool {
    limit matches Some(secs) && elapsed_secs >= secs
}

/// The limit a profile sets: its seconds when enabled, otherwise none.
pub open spec fn enabled_limit(enabled: bool, secs: Option<u32>) -> Option<u32> {
    if enabled {
        secs
    } else {
        None
    }
}

/// The whole seconds of cooldown left for a run of `p` requested
/// `since_last_run` seconds after the previous run ended (none: no run has
/// ended yet); 0 when nothing blocks the start.
pub open spec fn cooldown_left(p: ClickProfile, since_last_run: Option<u64>) -> u32 {
    match (p.cooldown_seconds, since_last_run) {
        (Some(cd), Some(e)) => if p.cooldown_enabled && e < cd {
            (cd - e) as u32
        } else {
            0
        },
        _ => 0,
    }
}

/// `s` is `o` stopped for `reason`: state `Stopped`, the reason recorded, an
/// end time set, and everything else kept.
pub open spec fn stopped_for(o: RunSession, s: RunSession, reason: StopReason) -> bool {
    &&& s.state == RunState::Stopped
    &&& s.stop_reason == Some(reason)
    &&& s.ended_at is Some
    &&& same_but_state(RunSession { stop_reason: Some(reason), ..o }, s)
}

/// `n` is `o` with its run ended for `reason`: the session stopped, the loop
/// flag cleared, no condition or pause left, the end time of the run
/// recorded; the panic flag, the limits and the log are not spoken of.
pub open spec fn run_ended(o: ClickEngine, n: ClickEngine, reason: StopReason) -> bool {
    &&& !n.running
    &&& n.condition is None
    &&& !n.focus_paused
    &&& n.last_run_end is Some
    &&& n.stop_after_seconds == o.stop_after_seconds
    &&& n.max_session_seconds == o.max_session_seconds
    &&& o.session matches Some(os) && n.session matches Some(ns) && stopped_for(os, ns, reason)
}

/// What a start request for `p` does to engine `o`, giving `n` and the
/// result `r`, `since_last_run` seconds after the previous run ended.
///
/// An invalid profile is refused with its validation error, and a running
/// engine with `AlreadyRunning`; neither changes anything. While the
/// profile's cooldown runs, the start is refused with the seconds left and a
/// `cooldown_blocked` event is logged. Otherwise a new session for the
/// profile begins, with the profile's stop-after and max-session limits and a
/// `run_started` event. With stationary start enabled the session waits in
/// `WaitingCondition` for the mouse to stand still for the profile's
/// seconds (and a `condition_waiting` event follows); otherwise it is
/// `Running` at once.
pub open spec fn start_effect(
    o: ClickEngine,
    n: ClickEngine,
    p: ClickProfile,
    since_last_run: Option<u64>,
    r: Result<(), EngineError>,
) -> bool {
    match validation_failure(p) {
        Some(v) => r matches Err(EngineError::Validation(e)) && e@ == v && n == o,
        None => if o.running {
            r matches Err(EngineError::AlreadyRunning) && n == o
        } else if cooldown_left(p, since_last_run) > 0 {
            &&& r == Err::<(), EngineError>(
                EngineError::CooldownActive { remaining_secs: cooldown_left(p, since_last_run) },
            )
            &&& n == (ClickEngine { events: n.events, ..o })
            &&& logged_one(o.events@, n.events@)
            &&& event_is(
                n.events@.last(),
                EventLevel::Warn,
                "cooldown_blocked"@,
                "Cooldown active, "@ + decimal_text(cooldown_left(p, since_last_run) as nat)
                    + "s remaining"@,
                seq![],
            )
        } else {
            &&& r is Ok
            &&& n.running
            &&& !n.panic
            &&& !n.focus_paused
            &&& n.stop_after_seconds == enabled_limit(p.stop_after_enabled, p.stop_after_seconds)
            &&& n.max_session_seconds == enabled_limit(
                p.max_session_enabled,
                p.max_session_seconds,
            )
            &&& n.last_run_end == o.last_run_end
            &&& n.session matches Some(s) && {
                &&& s.profile_id@ == p.id@
                &&& s.effective_cps == p.cps
                &&& s.scope_mode == p.scope_mode
                &&& s.total_clicks == 0
                &&& s.stop_reason is None
                &&& s.ended_at is None
                &&& s.error_code is None
                &&& if p.stationary_start_enabled {
                    s.state == RunState::WaitingCondition
                } else {
                    s.state == RunState::Running
                }
            }
            &&& if p.stationary_start_enabled {
                &&& n.condition matches Some(c) && c@.threshold_seconds
                    == p.stationary_seconds.unwrap() && c@.accumulated_ms == 0
                    && c@.last_position is None && !c@.eligible
                &&& logged_two(o.events@, n.events@)
                &&& event_is(
                    n.events@[n.events@.len() - 2],
                    EventLevel::Info,
                    "run_started"@,
                    "Run started with CPS="@ + decimal_text(p.cps as nat),
                    seq![("profile_id"@, p.id@), ("cps"@, decimal_text(p.cps as nat))],
                )
                &&& event_is(
                    n.events@.last(),
                    EventLevel::Info,
                    "condition_waiting"@,
                    "Waiting for condition: "@ + stationary_condition_name(),
                    seq![],
                )
            } else {
                &&& n.condition is None
                &&& logged_one(o.events@, n.events@)
                &&& event_is(
                    n.events@.last(),
                    EventLevel::Info,
                    "run_started"@,
                    "Run started with CPS="@ + decimal_text(p.cps as nat),
                    seq![("profile_id"@, p.id@), ("cps"@, decimal_text(p.cps as nat))],
                )
            }
        },
    }
}

/// The time handed to the stationary condition: `delta_ms`, cut down where
/// adding it to the time already accumulated at the same position would
/// overflow.
pub open spec fn bounded_delta(c: ActivationConditionView, pos: PositionSample, delta_ms: u64) -> u64 {
    if c.last_position == Some(pos) && c.accumulated_ms + delta_ms > u64::MAX {
        (u64::MAX - c.accumulated_ms) as u64
    } else {
        delta_ms
    }
}

/// The run state of an engine: that of its session, or `Idle` without one.
pub open spec fn engine_state(e: ClickEngine) -> RunState {
    match e.session {
        Some(s) => s.state,
        None => RunState::Idle,
    }
}

/// The clicks counted on an engine's session (0 without one).
pub open spec fn clicks_of(e: ClickEngine) -> u64 {
    match e.session {
        Some(s) => s.total_clicks,
        None => 0,
    }
}

/// One call on the engine during a run, as the click loop makes it:
/// `report` is the outcome of a click handed to `record_click_result`, or
/// none for any other call. The session stays, and only a performed click
/// adds to its count (which stops growing at `u64::MAX`).
pub open spec fn click_step(o: ClickEngine, n: ClickEngine, report: Option<bool>) -> bool {
    &&& (o.session is Some ==> n.session is Some)
    &&& clicks_of(n) == if report == Some(true) && o.session is Some && clicks_of(o) < u64::MAX {
        (clicks_of(o) + 1) as u64
    } else {
        clicks_of(o)
    }
}

/// The clicks performed in a run: the reports that say a click happened.
pub open spec fn performed(reports: Seq<Option<bool>>) -> nat
    decreases reports.len(),
{
    if reports.len() == 0 {
        0
    } else {
        performed(reports.drop_last()) + if reports.last() == Some(true) {
            1nat
        } else {
            0nat
        }
    }
}

/// Over a whole run of the click loop, from a freshly started session
/// through any sequence of calls on the engine, the session counts exactly
/// the clicks that were performed: failed clicks and all other calls add
/// nothing (as long as the count fits in a `u64`).
pub proof fn lemma_run_counts_performed_clicks(
    engines: Seq<ClickEngine>,
    reports: Seq<Option<bool>>,
)
    requires
        engines.len() == reports.len() + 1,
        engines[0].session is Some,
        clicks_of(engines[0]) == 0,
        forall|i: int|
            0 <= i < reports.len() ==> #[trigger] click_step(engines[i], engines[i + 1], reports[i]),
        performed(reports) <= u64::MAX,
    ensures
        engines.last().session is Some,
        clicks_of(engines.last()) == performed(reports),
    decreases reports.len(),
{
    if reports.len() > 0 {
        let k = reports.len() - 1;
        let es = engines.drop_last();
        let rs = reports.drop_last();
        assert forall|i: int| 0 <= i < rs.len() implies #[trigger] click_step(
            es[i],
            es[i + 1],
            rs[i],
        ) by {
            assert(click_step(engines[i], engines[i + 1], reports[i]));
        }
        assert(performed(rs) <= performed(reports));
        lemma_run_counts_performed_clicks(es, rs);
        assert(click_step(engines[k], engines[k + 1], reports[k]));
        assert(es.last() == engines[k]);
    }
}

/// Once a profile's cooldown seconds have passed since the last run ended
/// (or the cooldown is off, or no run has ended), the cooldown no longer
/// holds back a valid profile on an idle engine: the start succeeds.
pub proof fn lemma_cooldown_expires_on_start(
    o: ClickEngine,
    n: ClickEngine,
    p: ClickProfile,
    since_last_run: Option<u64>,
    r: Result<(), EngineError>,
)
    requires
        start_effect(o, n, p, since_last_run, r),
        validation_failure(p) is None,
        !o.running,
        since_last_run is None || !p.cooldown_enabled || (p.cooldown_seconds matches Some(cd)
            && since_last_run.unwrap() >= cd),
    ensures
        r is Ok,
        n.running,
{
}

/// While fewer than the profile's cooldown seconds have passed since the last
/// run ended, a start of a valid profile on an idle engine is refused with
/// exactly the seconds still to wait, and no run begins.
pub proof fn lemma_cooldown_blocks_start(
    o: ClickEngine,
    n: ClickEngine,
    p: ClickProfile,
    elapsed_secs: u64,
    r: Result<(), EngineError>,
)
    requires
        start_effect(o, n, p, Some(elapsed_secs), r),
        validation_failure(p) is None,
        !o.running,
        p.cooldown_enabled,
        p.cooldown_seconds matches Some(cd) && elapsed_secs < cd,
    ensures
        r matches Err(EngineError::CooldownActive { remaining_secs }) && remaining_secs as int
            == p.cooldown_seconds.unwrap() - elapsed_secs && remaining_secs > 0,
        !n.running,
        n.session == o.session,
{
}

/// The whole seconds of cooldown left; see `cooldown_left`.
fn cooldown_remaining_for(p: &ClickProfile, since_last_run: Option<u64>) -> (r: u32)
    ensures
        r == cooldown_left(*p, since_last_run),
{
    match (p.cooldown_seconds, since_last_run) {
        (Some(cd), Some(e)) => if p.cooldown_enabled && e < cd as u64 {
            cd - e as u32
        } else {
            0
        },
        _ => 0,
    }
}

impl ClickEngine {
    /// Whether the click loop should keep going.
    pub open spec fn running_flag(&self) -> bool {
        self.running
    }

    /// Whether a panic stop has been requested.
    pub open spec fn panic_flag(&self) -> bool {
        self.panic
    }

    /// While the loop runs there is a session, and it is either running
    /// (nothing to wait for) or waiting for exactly one thing: the
    /// stationary-mouse condition or the target window's focus.
    pub open spec fn wf(&self) -> bool {
        self.running_flag() ==> (self.session matches Some(s) && {
            ||| s.state == RunState::Running && self.condition is None && !self.focus_paused
            ||| s.state == RunState::WaitingCondition && (self.condition is Some
                != self.focus_paused)
        })
    }

    pub fn new() -> (e: Self)
        ensures
            e.session is None,
            e.events@.len() == 0,
            !e.running_flag(),
            !e.panic_flag(),
            e.condition is None,
            !e.focus_paused,
            e.stop_after_seconds is None,
            e.max_session_seconds is None,
            e.last_run_end is None,
            e.wf(),
    {
        ClickEngine {
            session: None,
            events: Vec::new(),
            running: false,
            panic: false,
            condition: None,
            focus_paused: false,
            stop_after_seconds: None,
            max_session_seconds: None,
            last_run_end: None,
        }
    }

    /// Push an event to the log buffer, keeping only the newest
    /// `EVENT_LOG_CAPACITY` events.
    pub fn push_event(&mut self, event: EventRecord)
        ensures
            click_step(*old(self), *final(self), None),
            final(self).events@ == capped(old(self).events@.push(event)),
            *final(self) == (ClickEngine { events: final(self).events, ..*old(self) }),
    {
        self.events.push(event);
        let len = self.events.len();
        if len > EVENT_LOG_CAPACITY {
            let excess = len - EVENT_LOG_CAPACITY;
            let tail = self.events.split_off(excess);
            self.events = tail;
        }
    }

    /// Get the current run state: that of the session, or `Idle` when there
    /// is none.
    pub fn current_state(&self) -> (r: RunState)
        ensures
            r == engine_state(*self),
    {
        match &self.session {
            Some(s) => s.state,
            None => RunState::Idle,
        }
    }

    /// Start a click session with the given profile, measuring the time since
    /// the previous run ended on the clock; see `start_effect`, which holds
    /// for the seconds that the clock gave (none when no run has ended).
    pub fn start(&mut self, profile: &ClickProfile) -> (r: Result<(), EngineError>)
        requires
            old(self).wf(),
        ensures
            final(self).wf(),
            exists|since: Option<u64>|
                (since is None <==> old(self).last_run_end is None) && #[trigger] start_effect(
                    *old(self),
                    *final(self),
                    *profile,
                    since,
                    r,
                ),
            old(self).last_run_end is Some ==> exists|elapsed: Duration|
                #[trigger] start_effect(
                    *old(self),
                    *final(self),
                    *profile,
                    Some(duration_secs(elapsed)),
                    r,
                ),
            old(self).last_run_end is None || !profile.cooldown_enabled ==> start_effect(
                *old(self),
                *final(self),
                *profile,
                None,
                r,
            ),
    {
        let since = match &self.last_run_end {
            Some(end) => {
                let elapsed = instant_elapsed(end);
                Some(duration_as_secs(&elapsed))
            },
            None => None,
        };
        self.start_after(profile, since)
    }

    /// Start a click session with the given profile, `since_last_run` whole
    /// seconds after the previous run ended (none: no run has ended yet);
    /// see `start_effect`.
    pub fn start_after(&mut self, profile: &ClickProfile, since_last_run: Option<u64>) -> (r: Result<
        (),
        EngineError,
    >)
        requires
            old(self).wf(),
        ensures
            final(self).wf(),
            start_effect(*old(self), *final(self), *profile, since_last_run, r),
    {
        // Validate the profile first
        match profile.validate() {
            Ok(()) => {},
            Err(e) => {
                return Err(EngineError::Validation(e));
            },
        }
        // Check not already running
        if self.running {
            return Err(EngineError::AlreadyRunning);
        }
        // Enforce the cooldown between runs
        let remaining = cooldown_remaining_for(profile, since_last_run);
        if remaining > 0 {
            self.push_event(EventRecord::cooldown_blocked(remaining));
            return Err(EngineError::CooldownActive { remaining_secs: remaining });
        }
        // Create a new session
        let mut session = RunSession::new(profile.id.clone(), profile.cps, profile.scope_mode);
        if profile.stationary_start_enabled {
            let secs = match profile.stationary_seconds {
                Some(secs) => secs,
                None => 0,
            };
            match session.transition_to(RunState::WaitingCondition) {
                Ok(()) => {},
                Err(msg) => {
                    return Err(EngineError::InvalidTransition(msg));
                },
            }
            self.condition = Some(ActivationCondition::new(secs));
        } else {
            match session.transition_to(RunState::Running) {
                Ok(()) => {},
                Err(msg) => {
                    return Err(EngineError::InvalidTransition(msg));
                },
            }
            self.condition = None;
        }
        self.session = Some(session);
        self.running = true;
        self.panic = false;
        self.focus_paused = false;
        self.stop_after_seconds = if profile.stop_after_enabled {
            profile.stop_after_seconds
        } else {
            None
        };
        self.max_session_seconds = if profile.max_session_enabled {
            profile.max_session_seconds
        } else {
            None
        };
        let ghost before = self.events@;
        let started = EventRecord::run_started(profile.id.as_str(), profile.cps);
        self.push_event(started);
        if profile.stationary_start_enabled {
            let waiting = EventRecord::condition_waiting("mouse stationary");
            proof {
                reveal_strlit("mouse stationary");
            }
            self.push_event(waiting);
            proof {
                lemma_capped_push_two(before, started, waiting);
            }
        }
        Ok(())
    }

    /// End the current run for `reason`: the session is stopped, the loop
    /// flag cleared, any condition or pause dropped and the end of the run
    /// recorded for the cooldown.
    fn end_run(&mut self, reason: StopReason)
        requires
            old(self).session matches Some(s) && (s.state == RunState::Running || s.state
                == RunState::WaitingCondition),
        ensures
            run_ended(*old(self), *final(self), reason),
            final(self).events == old(self).events,
            final(self).panic == old(self).panic,
    {
        match self.session.take() {
            Some(mut s) => {
                // A waiting run resumes for the moment it takes to stop.
                if s.state == RunState::WaitingCondition {
                    let _ = s.transition_to(RunState::Running);
                }
                let _ = s.stop(reason);
                self.session = Some(s);
            },
            None => {},
        }
        self.running = false;
        self.condition = None;
        self.focus_paused = false;
        self.last_run_end = Some(instant_now());
    }

    /// Stop the current session with a manual stop reason. An engine that is
    /// not running refuses with `NotRunning`.
    pub fn stop(&mut self) -> (r: Result<(), EngineError>)
        requires
            old(self).wf(),
        ensures
            click_step(*old(self), *final(self), None),
            final(self).wf(),
            !old(self).running_flag() ==> (r matches Err(EngineError::NotRunning) && *final(self)
                == *old(self)),
            old(self).running_flag() ==> {
                &&& r is Ok
                &&& run_ended(*old(self), *final(self), StopReason::ManualStop)
                &&& final(self).panic_flag() == old(self).panic_flag()
                &&& logged_one(old(self).events@, final(self).events@)
                &&& event_is(
                    final(self).events@.last(),
                    EventLevel::Info,
                    "run_stopped"@,
                    "Run stopped: "@ + "manual_stop"@,
                    seq![("stop_reason"@, "manual_stop"@)],
                )
            },
    {
        if !self.running {
            return Err(EngineError::NotRunning);
        }
        self.end_run(StopReason::ManualStop);
        let event = EventRecord::run_stopped("manual_stop");
        self.push_event(event);
        Ok(())
    }

    /// Request an immediate panic stop: the click loop ends the run at its
    /// next step, whatever its timers or conditions say.
    pub fn panic_stop(&mut self) -> (r: Result<(), EngineError>)
        requires
            old(self).wf(),
        ensures
            click_step(*old(self), *final(self), None),
            r is Ok,
            final(self).wf(),
            *final(self) == (ClickEngine { panic: true, ..*old(self) }),
    {
        self.panic = true;
        Ok(())
    }

    /// Check if currently running.
    pub fn is_running(&self) -> (r: bool)
        ensures
            r == self.running_flag(),
    {
        self.running
    }

    /// Get a copy of the newest `limit` events (all of them when there are
    /// fewer), oldest first.
    pub fn recent_events(&self, limit: usize) -> (r: Vec<EventRecord>)
        ensures
            r@.len() == if limit < self.events@.len() {
                limit as int
            } else {
                self.events@.len() as int
            },
            forall|i: int|
                0 <= i < r@.len() ==> same_event(
                    #[trigger] r@[i],
                    self.events@[self.events@.len() - r@.len() + i],
                ),
    {
        let len = self.events.len();
        let start = if len > limit {
            len - limit
        } else {
            0
        };
        let mut out: Vec<EventRecord> = Vec::new();
        let mut i = start;
        while i < len
            invariant
                len == self.events@.len(),
                start <= i <= len,
                out@.len() == i - start,
                forall|j: int|
                    0 <= j < out@.len() ==> same_event(
                        #[trigger] out@[j],
                        self.events@[start + j],
                    ),
            decreases len - i,
        {
            let e = self.events[i].copy_record();
            proof {
                assert(same_event(e, self.events@[i as int]) ==> same_event(
                    self.events@[i as int],
                    e,
                ));
            }
            out.push(e);
            i = i + 1;
        }
        out
    }

    /// One step of the click loop, `elapsed_secs` whole seconds after
    /// clicking began. A stopped engine ends the loop. A requested panic stop
    /// ends the run for `PanicStop`, whatever the run waits for. A waiting
    /// run does not click. Otherwise an enabled stop-after timer whose
    /// seconds have passed ends the run for `TimedStop`, and then a max
    /// session whose seconds have passed ends it for `MaxSessionReached`.
    /// Each end logs its event. Otherwise the loop goes on to click.
    pub fn poll_click_loop(&mut self, elapsed_secs: u64) -> (step: ClickLoopStep)
        requires
            old(self).wf(),
        ensures
            click_step(*old(self), *final(self), None),
            final(self).wf(),
            !old(self).running_flag() ==> step == ClickLoopStep::Exit && *final(self)
                == *old(self),
            old(self).running_flag() && old(self).panic_flag() ==> {
                &&& step == ClickLoopStep::Exit
                &&& run_ended(*old(self), *final(self), StopReason::PanicStop)
                &&& final(self).panic_flag()
                &&& logged_one(old(self).events@, final(self).events@)
                &&& event_is(
                    final(self).events@.last(),
                    EventLevel::Warn,
                    "panic_stop"@,
                    "Panic stop triggered"@,
                    seq![],
                )
            },
            old(self).running_flag() && !old(self).panic_flag() && engine_state(*old(self))
                == RunState::WaitingCondition ==> step == ClickLoopStep::Wait && *final(self)
                == *old(self),
            old(self).running_flag() && !old(self).panic_flag() && engine_state(*old(self))
                == RunState::Running && limit_reached(old(self).stop_after_seconds, elapsed_secs)
                ==> {
                &&& step == ClickLoopStep::Exit
                &&& run_ended(*old(self), *final(self), StopReason::TimedStop)
                &&& !final(self).panic_flag()
                &&& logged_one(old(self).events@, final(self).events@)
                &&& event_is(
                    final(self).events@.last(),
                    EventLevel::Info,
                    "timed_stop"@,
                    "Auto-stopped after "@ + decimal_text(
                        old(self).stop_after_seconds.unwrap() as nat,
                    ) + "s"@,
                    seq![
                        ("duration_seconds"@, decimal_text(
                            old(self).stop_after_seconds.unwrap() as nat,
                        )),
                    ],
                )
            },
            old(self).running_flag() && !old(self).panic_flag() && engine_state(*old(self))
                == RunState::Running && !limit_reached(old(self).stop_after_seconds, elapsed_secs)
                && limit_reached(old(self).max_session_seconds, elapsed_secs) ==> {
                &&& step == ClickLoopStep::Exit
                &&& run_ended(*old(self), *final(self), StopReason::MaxSessionReached)
                &&& !final(self).panic_flag()
                &&& logged_one(old(self).events@, final(self).events@)
                &&& event_is(
                    final(self).events@.last(),
                    EventLevel::Warn,
                    "max_session_reached"@,
                    "Max session duration reached: "@ + decimal_text(
                        old(self).max_session_seconds.unwrap() as nat,
                    ) + "s"@,
                    seq![],
                )
            },
            old(self).running_flag() && !old(self).panic_flag() && engine_state(*old(self))
                == RunState::Running && !limit_reached(old(self).stop_after_seconds, elapsed_secs)
                && !limit_reached(old(self).max_session_seconds, elapsed_secs) ==> step
                == ClickLoopStep::Click && *final(self) == *old(self),
    {
        if !self.running {
            return ClickLoopStep::Exit;
        }
        // Check panic stop
        if self.panic {
            self.end_run(StopReason::PanicStop);
            self.push_event(EventRecord::panic_stop());
            return ClickLoopStep::Exit;
        }
        // A waiting run does not click
        let waiting = match &self.session {
            Some(s) => s.state == RunState::WaitingCondition,
            None => false,
        };
        if waiting {
            return ClickLoopStep::Wait;
        }
        // Check timed stop
        if let Some(max_secs) = self.stop_after_seconds {
            if elapsed_secs >= max_secs as u64 {
                self.end_run(StopReason::TimedStop);
                self.push_event(EventRecord::timed_stop(max_secs));
                return ClickLoopStep::Exit;
            }
        }
        // Check max session
        if let Some(max_secs) = self.max_session_seconds {
            if elapsed_secs >= max_secs as u64 {
                self.end_run(StopReason::MaxSessionReached);
                self.push_event(EventRecord::max_session_reached(max_secs));
                return ClickLoopStep::Exit;
            }
        }
        ClickLoopStep::Click
    }

    /// Report a mouse position sample, taken `delta_ms` after the previous
    /// one, to a run that waits for the mouse to stand still. Once the
    /// condition is met the run begins clicking: the session becomes
    /// `Running`, the condition is dropped, `condition_met` is logged and
    /// `true` is returned. Any other engine is left as it is.
    pub fn feed_stationary(&mut self, pos: PositionSample, delta_ms: u64) -> (started: bool)
        requires
            old(self).wf(),
        ensures
            click_step(*old(self), *final(self), None),
            final(self).wf(),
            !(old(self).running_flag() && engine_state(*old(self)) == RunState::WaitingCondition
                && old(self).condition is Some) ==> !started && *final(self) == *old(self),
            old(self).running_flag() && engine_state(*old(self)) == RunState::WaitingCondition
                && old(self).condition is Some ==> ({
                let c = old(self).condition.unwrap();
                let c2 = fed(c@, pos, bounded_delta(c@, pos, delta_ms));
                &&& started == c2.eligible
                &&& !started ==> (final(self).condition matches Some(nc) && nc@ == c2
                    && *final(self) == (ClickEngine { condition: final(self).condition, ..*old(self) }))
                &&& started ==> {
                    &&& final(self).condition is None
                    &&& old(self).session matches Some(os) && final(self).session == Some(
                        RunSession { state: RunState::Running, ..os },
                    )
                    &&& final(self).running == old(self).running
                    &&& final(self).panic == old(self).panic
                    &&& final(self).focus_paused == old(self).focus_paused
                    &&& final(self).stop_after_seconds == old(self).stop_after_seconds
                    &&& final(self).max_session_seconds == old(self).max_session_seconds
                    &&& final(self).last_run_end == old(self).last_run_end
                    &&& logged_one(old(self).events@, final(self).events@)
                    &&& event_is(
                        final(self).events@.last(),
                        EventLevel::Info,
                        "condition_met"@,
                        "Condition satisfied: "@ + stationary_condition_name(),
                        seq![],
                    )
                }
            }),
    {
        if !self.running {
            return false;
        }
        let waiting = match &self.session {
            Some(s) => s.state == RunState::WaitingCondition,
            None => false,
        };
        if !waiting || self.condition.is_none() {
            return false;
        }
        let mut cond = match self.condition.take() {
            Some(c) => c,
            None => {
                return false;
            },
        };
        let ghost c0 = cond@;
        let acc = cond.observed_stationary_ms();
        let delta = if delta_ms > u64::MAX - acc {
            u64::MAX - acc
        } else {
            delta_ms
        };
        proof {
            if c0.last_position == Some(pos) {
                assert(delta == bounded_delta(c0, pos, delta_ms));
            }
        }
        cond.feed_position(pos, delta);
        proof {
            if c0.last_position != Some(pos) {
                assert(fed(c0, pos, delta) == fed(c0, pos, bounded_delta(c0, pos, delta_ms)));
            }
        }
        if !cond.is_eligible() {
            self.condition = Some(cond);
            return false;
        }
        match self.session.take() {
            Some(mut s) => {
                let _ = s.transition_to(RunState::Running);
                self.session = Some(s);
            },
            None => {},
        }
        let met = EventRecord::condition_met("mouse stationary");
        proof {
            reveal_strlit("mouse stationary");
        }
        self.push_event(met);
        true
    }

    /// Report whether the target window has focus. A running run of the
    /// focused-only scope pauses when the focus is lost (`focus_lost`) and
    /// resumes when it returns (`focus_regained`); nothing else changes.
    pub fn observe_focus(&mut self, focused: bool)
        requires
            old(self).wf(),
        ensures
            click_step(*old(self), *final(self), None),
            final(self).wf(),
            ({
                let o = *old(self);
                let active = o.running && o.session is Some && o.session.unwrap().scope_mode
                    == ScopeMode::FocusedOnly;
                if active && !focused && engine_state(o) == RunState::Running {
                    &&& final(self).focus_paused
                    &&& o.session matches Some(os) && final(self).session == Some(
                        RunSession { state: RunState::WaitingCondition, ..os },
                    )
                    &&& *final(self) == (ClickEngine {
                        session: final(self).session,
                        events: final(self).events,
                        focus_paused: true,
                        ..o
                    })
                    &&& logged_one(o.events@, final(self).events@)
                    &&& event_is(
                        final(self).events@.last(),
                        EventLevel::Info,
                        "focus_lost"@,
                        "Target window lost focus — pausing clicks"@,
                        seq![],
                    )
                } else if active && focused && o.focus_paused {
                    &&& !final(self).focus_paused
                    &&& o.session matches Some(os) && final(self).session == Some(
                        RunSession { state: RunState::Running, ..os },
                    )
                    &&& *final(self) == (ClickEngine {
                        session: final(self).session,
                        events: final(self).events,
                        focus_paused: false,
                        ..o
                    })
                    &&& logged_one(o.events@, final(self).events@)
                    &&& event_is(
                        final(self).events@.last(),
                        EventLevel::Info,
                        "focus_regained"@,
                        "Target window regained focus — resuming clicks"@,
                        seq![],
                    )
                } else {
                    *final(self) == o
                }
            }),
    {
        if !self.running {
            return;
        }
        let (scoped, state) = match &self.session {
            Some(s) => (s.scope_mode == ScopeMode::FocusedOnly, s.state),
            None => {
                return;
            },
        };
        if !scoped {
            return;
        }
        if !focused && state == RunState::Running {
            match self.session.take() {
                Some(mut s) => {
                    let _ = s.transition_to(RunState::WaitingCondition);
                    self.session = Some(s);
                },
                None => {},
            }
            self.focus_paused = true;
            self.push_event(EventRecord::focus_lost());
        } else if focused && self.focus_paused {
            match self.session.take() {
                Some(mut s) => {
                    let _ = s.transition_to(RunState::Running);
                    self.session = Some(s);
                },
                None => {},
            }
            self.focus_paused = false;
            self.push_event(EventRecord::focus_regained());
        }
    }

    /// Report the outcome of one click: a performed click is counted on the
    /// session (the count stops growing at `u64::MAX`); nothing else changes.
    pub fn record_click_result(&mut self, clicked: bool)
        requires
            old(self).wf(),
        ensures
            click_step(*old(self), *final(self), Some(clicked)),
            final(self).wf(),
            !clicked || old(self).session is None ==> *final(self) == *old(self),
            clicked ==> (old(self).session matches Some(o) ==> *final(self) == (ClickEngine {
                session: Some(
                    RunSession {
                        total_clicks: if o.total_clicks < u64::MAX {
                            (o.total_clicks + 1) as u64
                        } else {
                            o.total_clicks
                        },
                        ..o
                    },
                ),
                ..*old(self)
            })),
    {
        if clicked {
            match self.session.take() {
                Some(mut s) => {
                    if s.total_clicks < u64::MAX {
                        s.record_click();
                    }
                    self.session = Some(s);
                },
                None => {},
            }
        }
    }
}

impl Default for ClickEngine {
    fn default() -> (e: Self)
        ensures
            e.session is None,
            e.events@.len() == 0,
            !e.running_flag(),
            !e.panic_flag(),
            e.condition is None,
            !e.focus_paused,
            e.last_run_end is None,
            e.wf(),
    {
        Self::new()
    }
}

} // verus!
