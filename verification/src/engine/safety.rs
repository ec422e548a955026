// Safety policy — max session, cooldown, panic-stop enforcement.
use crate::infra::clock::{duration_as_secs, duration_secs, instant_elapsed, instant_now};
use std::time::{Duration, Instant};
use vstd::prelude::*;

verus! {

/// Safety guardrails: max session duration and cooldown between runs.
pub struct SafetyPolicy {
    /// Max session duration in seconds (None = disabled).
    max_session_seconds: Option<u32>,
    /// Cooldown between runs in seconds (None = disabled).
    cooldown_seconds: Option<u32>,
    /// When the last session ended (for cooldown tracking).
    last_session_end: Option<Instant>,
}

/// The observable state of a `SafetyPolicy`.
pub struct SafetyPolicyView {
    pub max_session_seconds: Option<u32>,
    pub cooldown_seconds: Option<u32>,
    pub last_session_end: Option<Instant>,
}

impl View for SafetyPolicy {
    type V = SafetyPolicyView;

    closed spec fn view(&self) -> SafetyPolicyView {
        SafetyPolicyView {
            max_session_seconds: self.max_session_seconds,
            cooldown_seconds: self.cooldown_seconds,
            last_session_end: self.last_session_end,
        }
    }
}

/// Whether a session of `elapsed_secs` whole seconds has reached the maximum.
pub open spec fn max_session_reached(p: SafetyPolicyView, elapsed_secs: u64) -> bool {
    match p.max_session_seconds {
        Some(max) => elapsed_secs >= max,
        None => false,
    }
}

/// Whether the cooldown still blocks a restart `elapsed_secs` whole seconds
/// after the last session ended.
pub open spec fn cooldown_active_at(p: SafetyPolicyView, elapsed_secs: u64) -> bool {
    match (p.cooldown_seconds, p.last_session_end) {
        (Some(cd), Some(_)) => elapsed_secs < cd,
        _ => false,
    }
}

/// The whole seconds of cooldown left `elapsed_secs` seconds after the last
/// session ended (the elapsed seconds are taken modulo 2^32, as a `u32`).
pub open spec fn cooldown_remaining_at(p: SafetyPolicyView, elapsed_secs: u64) -> u32 {
    match (p.cooldown_seconds, p.last_session_end) {
        (Some(cd), Some(_)) => if cd >= elapsed_secs as u32 {
            (cd - elapsed_secs as u32) as u32
        } else {
            0
        },
        _ => 0,
    }
}

impl SafetyPolicy {
    /// Create a new safety policy.
    pub fn new(max_session_seconds: Option<u32>, cooldown_seconds: Option<u32>) -> (p: Self)
        ensures
            p@.max_session_seconds == max_session_seconds,
            p@.cooldown_seconds == cooldown_seconds,
            p@.last_session_end is None,
    {
        SafetyPolicy { max_session_seconds, cooldown_seconds, last_session_end: None }
    }

    /// Check if the current session has exceeded the max duration.
    /// Returns true if max session is enabled and the elapsed time reaches it.
    pub fn check_max_session(&self, elapsed: Duration) -> (r: bool)
        ensures
            r == max_session_reached(self@, duration_secs(elapsed)),
    {
        match self.max_session_seconds {
            Some(max) => duration_as_secs(&elapsed) >= max as u64,
            None => false,
        }
    }

    /// Record that a session has ended (starts cooldown timer).
    pub fn record_session_end(&mut self)
        ensures
            final(self)@.max_session_seconds == old(self)@.max_session_seconds,
            final(self)@.cooldown_seconds == old(self)@.cooldown_seconds,
            final(self)@.last_session_end is Some,
    {
        self.last_session_end = Some(instant_now());
    }

    /// Whether the cooldown blocks a restart when `elapsed_secs` whole
    /// seconds have passed since the last session ended.
    pub fn cooldown_active_after(&self, elapsed_secs: u64) -> (r: bool)
        ensures
            r == cooldown_active_at(self@, elapsed_secs),
    {
        match (self.cooldown_seconds, &self.last_session_end) {
            (Some(cd), Some(_)) => elapsed_secs < cd as u64,
            _ => false,
        }
    }

    /// Check if cooldown is currently active (blocks re-start): the time since
    /// the last session ended, in whole seconds, is below the cooldown.
    pub fn is_cooldown_active(&self) -> (r: bool)
        ensures
            exists|elapsed_secs: u64| r == #[trigger] cooldown_active_at(self@, elapsed_secs),
            self@.last_session_end is Some ==> exists|elapsed: Duration|
                r == #[trigger] cooldown_active_at(self@, duration_secs(elapsed)),
            self@.cooldown_seconds is None || self@.last_session_end is None ==> !r,
    {
        match &self.last_session_end {
            Some(end) => {
                let elapsed = instant_elapsed(end);
                let secs = duration_as_secs(&elapsed);
                self.cooldown_active_after(secs)
            },
            None => {
                assert(!cooldown_active_at(self@, 0));
                false
            },
        }
    }

    /// The whole seconds of cooldown left when `elapsed_secs` seconds have
    /// passed since the last session ended.
    pub fn cooldown_remaining_after(&self, elapsed_secs: u64) -> (r: u32)
        ensures
            r == cooldown_remaining_at(self@, elapsed_secs),
    {
        match (self.cooldown_seconds, &self.last_session_end) {
            (Some(cd), Some(_)) => cd.saturating_sub(elapsed_secs as u32),
            _ => 0,
        }
    }

    /// Get remaining cooldown seconds (0 if not active).
    pub fn cooldown_remaining_secs(&self) -> (r: u32)
        ensures
            exists|elapsed_secs: u64| r == #[trigger] cooldown_remaining_at(self@, elapsed_secs),
            self@.last_session_end is Some ==> exists|elapsed: Duration|
                r == #[trigger] cooldown_remaining_at(self@, duration_secs(elapsed)),
            self@.cooldown_seconds is None || self@.last_session_end is None ==> r == 0,
            self@.cooldown_seconds matches Some(cd) ==> r <= cd,
    {
        match &self.last_session_end {
            Some(end) => {
                let elapsed = instant_elapsed(end);
                let secs = duration_as_secs(&elapsed);
                self.cooldown_remaining_after(secs)
            },
            None => {
                assert(cooldown_remaining_at(self@, 0) == 0);
                0
            },
        }
    }

    /// Get max session duration.
    pub fn max_session_seconds(&self) -> (r: Option<u32>)
        ensures
            r == self@.max_session_seconds,
    {
        self.max_session_seconds
    }

    /// Get cooldown duration.
    pub fn cooldown_seconds(&self) -> (r: Option<u32>)
        ensures
            r == self@.cooldown_seconds,
    {
        self.cooldown_seconds
    }
}

/// Right after a session ends, the cooldown blocks a restart exactly when it
/// is enabled and positive, and the full cooldown remains.
pub proof fn lemma_cooldown_blocks_right_after_end(p: SafetyPolicyView)
    requires
        p.last_session_end is Some,
    ensures
        cooldown_active_at(p, 0) <==> (p.cooldown_seconds matches Some(cd) && cd > 0),
        p.cooldown_seconds matches Some(cd) ==> cooldown_remaining_at(p, 0) == cd,
{
}

/// Once the cooldown's seconds have passed, it no longer blocks, and nothing
/// remains of it.
pub proof fn lemma_cooldown_expires(p: SafetyPolicyView, elapsed_secs: u64)
    requires
        p.cooldown_seconds matches Some(cd) && elapsed_secs >= cd,
    ensures
        !cooldown_active_at(p, elapsed_secs),
        elapsed_secs <= u32::MAX ==> cooldown_remaining_at(p, elapsed_secs) == 0,
{
}

/// A disabled maximum never stops a session; an enabled one stops it from
/// its limit on, and never before.
pub proof fn lemma_max_session(p: SafetyPolicyView, elapsed_secs: u64)
    ensures
        p.max_session_seconds is None ==> !max_session_reached(p, elapsed_secs),
        p.max_session_seconds matches Some(max) ==> (max_session_reached(p, elapsed_secs)
            <==> elapsed_secs >= max),
{
}

} // verus!
