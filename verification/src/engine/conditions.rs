// Activation conditions — stationary detection and eligibility evaluation.
use vstd::prelude::*;

verus! {

/// A 2D position sample for stationary detection.
#[derive(Debug, Clone, Copy, PartialEq, Eq, Structural)]
pub struct PositionSample {
    pub x: i32,
    pub y: i32,
}

/// Tracks whether the mouse has been stationary long enough to satisfy
/// the activation condition (stationary-start).
pub struct ActivationCondition {
    /// Required stationary duration in seconds.
    threshold_seconds: u32,
    /// Accumulated stationary time in milliseconds.
    accumulated_ms: u64,
    /// Last recorded position (None if no data yet).
    last_position: Option<PositionSample>,
    /// Whether the threshold has been met.
    eligible: bool,
}

/// The observable state of an `ActivationCondition`.
pub struct ActivationConditionView {
    pub threshold_seconds: u32,
    pub accumulated_ms: u64,
    pub last_position: Option<PositionSample>,
    pub eligible: bool,
}

impl View for ActivationCondition {
    type V = ActivationConditionView;

    closed spec fn view(&self) -> ActivationConditionView {
        ActivationConditionView {
            threshold_seconds: self.threshold_seconds,
            accumulated_ms: self.accumulated_ms,
            last_position: self.last_position,
            eligible: self.eligible,
        }
    }
}

/// The threshold in milliseconds.
pub open spec fn threshold_ms(threshold_seconds: u32) -> int {
    threshold_seconds as int * 1000
}

/// The state after feeding `pos`, `delta_ms` after the previous sample: the
/// same position accumulates the delta and becomes (or stays) eligible once
/// the threshold is reached; a first or different position restarts from
/// zero, not eligible.
pub open spec fn fed(
    old: ActivationConditionView,
    pos: PositionSample,
    delta_ms: u64,
) -> ActivationConditionView {
    if old.last_position == Some(pos) {
        let acc = old.accumulated_ms + delta_ms;
        ActivationConditionView {
            threshold_seconds: old.threshold_seconds,
            accumulated_ms: acc as u64,
            last_position: old.last_position,
            eligible: old.eligible || acc >= threshold_ms(old.threshold_seconds),
        }
    } else {
        ActivationConditionView {
            threshold_seconds: old.threshold_seconds,
            accumulated_ms: 0,
            last_position: Some(pos),
            eligible: false,
        }
    }
}

impl ActivationCondition {
    #[verifier::type_invariant]
    spec fn inv(self) -> bool {
        &&& self.eligible ==> self.accumulated_ms >= threshold_ms(self.threshold_seconds)
            && self.last_position is Some
        &&& self.threshold_seconds >= 1 ==> (self.eligible <==> self.accumulated_ms
            >= threshold_ms(self.threshold_seconds))
    }

    /// Create a new condition with the given stationary threshold (in seconds).
    pub fn new(threshold_seconds: u32) -> (c: Self)
        ensures
            c@.threshold_seconds == threshold_seconds,
            c@.accumulated_ms == 0,
            c@.last_position is None,
            !c@.eligible,
    {
        ActivationCondition {
            threshold_seconds,
            accumulated_ms: 0,
            last_position: None,
            eligible: false,
        }
    }

    /// Feed a new mouse position sample.
    ///
    /// `delta_ms` is the time since the last sample in milliseconds.
    /// If the position hasn't changed, we accumulate stationary time.
    /// If it changed, we reset the accumulator.
    pub fn feed_position(&mut self, pos: PositionSample, delta_ms: u64)
        requires
            old(self)@.last_position == Some(pos) ==> old(self)@.accumulated_ms + delta_ms
                <= u64::MAX,
        ensures
            final(self)@ == fed(old(self)@, pos, delta_ms),
    {
        proof {
            use_type_invariant(&*self);
        }
        let threshold_seconds = self.threshold_seconds;
        match self.last_position {
            Some(last) if last == pos => {
                // Same position — accumulate
                let acc = self.accumulated_ms + delta_ms;
                let eligible = self.eligible || acc >= (threshold_seconds as u64) * 1000;
                *self = ActivationCondition {
                    threshold_seconds,
                    accumulated_ms: acc,
                    last_position: Some(last),
                    eligible,
                };
            },
            _ => {
                // First sample or position changed — reset
                *self = ActivationCondition {
                    threshold_seconds,
                    accumulated_ms: 0,
                    last_position: Some(pos),
                    eligible: false,
                };
            },
        }
    }

    /// Check if the stationary threshold has been met.
    ///
    /// Eligibility is only ever granted after the mouse has stayed at one
    /// observed position for at least the threshold; with a threshold of at
    /// least one second it holds exactly when the accumulated stationary time
    /// reaches the threshold.
    pub fn is_eligible(&self) -> (r: bool)
        ensures
            r == self@.eligible,
            r ==> self@.accumulated_ms >= threshold_ms(self@.threshold_seconds)
                && self@.last_position is Some,
            self@.threshold_seconds >= 1 ==> (r <==> self@.accumulated_ms >= threshold_ms(
                self@.threshold_seconds,
            )),
    {
        proof {
            use_type_invariant(self);
        }
        self.eligible
    }

    /// Get the configured threshold in seconds.
    pub fn threshold_seconds(&self) -> (r: u32)
        ensures
            r == self@.threshold_seconds,
    {
        self.threshold_seconds
    }

    /// Get how long the mouse has been observed stationary (in ms).
    pub fn observed_stationary_ms(&self) -> (r: u64)
        ensures
            r == self@.accumulated_ms,
    {
        self.accumulated_ms
    }

    /// Reset the condition state (clear eligibility and accumulated time).
    pub fn reset(&mut self)
        ensures
            final(self)@.threshold_seconds == old(self)@.threshold_seconds,
            final(self)@.accumulated_ms == 0,
            final(self)@.last_position is None,
            !final(self)@.eligible,
    {
        *self = ActivationCondition {
            threshold_seconds: self.threshold_seconds,
            accumulated_ms: 0,
            last_position: None,
            eligible: false,
        };
    }

}

/// Feeding the same position `n` times, `delta_ms` apart, after it has been
/// recorded, accumulates `n * delta_ms` and is eligible exactly when that
/// reaches the threshold (or eligibility was already granted).
pub open spec fn fed_repeatedly(
    s: ActivationConditionView,
    pos: PositionSample,
    delta_ms: u64,
    n: nat,
) -> ActivationConditionView
    decreases n,
{
    if n == 0 {
        s
    } else {
        fed(fed_repeatedly(s, pos, delta_ms, (n - 1) as nat), pos, delta_ms)
    }
}

/// Once a position is recorded, `n` further samples at the same position
/// accumulate `n * delta_ms` milliseconds, and the condition is eligible
/// exactly when it was before or the total reaches the threshold.
pub proof fn lemma_stationary_accumulates(
    s: ActivationConditionView,
    pos: PositionSample,
    delta_ms: u64,
    n: nat,
)
    requires
        s.last_position == Some(pos),
        s.accumulated_ms + n * delta_ms <= u64::MAX,
    ensures
        fed_repeatedly(s, pos, delta_ms, n).accumulated_ms == s.accumulated_ms + n * delta_ms,
        fed_repeatedly(s, pos, delta_ms, n).last_position == Some(pos),
        fed_repeatedly(s, pos, delta_ms, n).threshold_seconds == s.threshold_seconds,
        fed_repeatedly(s, pos, delta_ms, n).eligible == (s.eligible || (n > 0
            && s.accumulated_ms + n * delta_ms >= threshold_ms(s.threshold_seconds))),
    decreases n,
{
    if n == 0 {
        assert(n * delta_ms == 0) by (nonlinear_arith)
            requires
                n == 0,
        ;
    } else {
        let m = (n - 1) as nat;
        assert(s.accumulated_ms + m * delta_ms <= s.accumulated_ms + n * delta_ms) by (
        nonlinear_arith)
            requires
                m + 1 == n,
        ;
        lemma_stationary_accumulates(s, pos, delta_ms, m);
        assert(m * delta_ms + delta_ms == n * delta_ms) by (nonlinear_arith)
            requires
                m + 1 == n,
        ;
        if m > 0 {
            assert(s.accumulated_ms + m * delta_ms <= s.accumulated_ms + n * delta_ms);
        }
    }
}

/// A sample at a different position than the last one always restarts the
/// stationary timer and withdraws eligibility.
pub proof fn lemma_movement_resets(s: ActivationConditionView, pos: PositionSample, delta_ms: u64)
    requires
        s.last_position != Some(pos),
    ensures
        fed(s, pos, delta_ms).accumulated_ms == 0,
        !fed(s, pos, delta_ms).eligible,
        fed(s, pos, delta_ms).last_position == Some(pos),
{
}

} // verus!
