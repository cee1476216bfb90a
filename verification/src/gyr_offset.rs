//! Stationarity timer of the gyroscope offset estimator.
//!
//! The estimator follows the gyroscope's bias only while the sensor rests.
//! A sample is stationary when none of its axes, the current offset taken
//! off, is above the threshold; the caller holds each axis against it. The
//! offset is adjusted once the sensor has been stationary for `TIMEOUT`
//! seconds, and from then on with every stationary sample; any other sample
//! starts the wait again.

use vstd::prelude::*;
use crate::axes::Axes;

verus! {

/// How long the gyroscope has to rest before its offset is adjusted, in
/// seconds.
pub const TIMEOUT: u32 = 5;

/// Mathematical model of the timer.
pub struct GyrOffsetState {
    /// The number of stationary samples after which the offset is adjusted.
    pub timeout: nat,
    /// The number of stationary samples counted so far, up to `timeout`.
    pub timer: nat,
}

impl GyrOffsetState {
    /// The timer of a new estimator for `sample_rate` samples per second.
    pub open spec fn initial(sample_rate: nat) -> GyrOffsetState {
        GyrOffsetState { timeout: TIMEOUT as nat * sample_rate, timer: 0 }
    }

    /// The sample is stationary: no axis is above the threshold.
    pub open spec fn stationary(above_threshold: Axes) -> bool {
        !above_threshold.any()
    }

    /// The timer never runs past its timeout.
    pub open spec fn wf(self) -> bool {
        self.timer <= self.timeout
    }

    /// The offset is adjusted with this sample.
    pub open spec fn adjusts(self, stationary: bool) -> bool {
        stationary && self.timer >= self.timeout
    }

    /// The timer after one sample.
    pub open spec fn step(self, stationary: bool) -> GyrOffsetState {
        if !stationary {
            GyrOffsetState { timer: 0, ..self }
        } else if self.timer < self.timeout {
            GyrOffsetState { timer: self.timer + 1, ..self }
        } else {
            self
        }
    }

    /// The timer after `n` stationary samples in a row.
    pub open spec fn after_stationary(self, n: nat) -> GyrOffsetState
        decreases n,
    {
        if n == 0 {
            self
        } else {
            self.after_stationary((n - 1) as nat).step(true)
        }
    }

    /// A run of stationary samples moves the timer up by one per sample and
    /// stops it at the timeout.
    pub proof fn lemma_after_stationary(self, n: nat)
        requires
            self.wf(),
        ensures
            self.after_stationary(n).timeout == self.timeout,
            self.after_stationary(n).timer == if self.timer + n <= self.timeout {
                self.timer + n
            } else {
                self.timeout
            },
            self.after_stationary(n).wf(),
        decreases n,
    {
        if n > 0 {
            self.lemma_after_stationary((n - 1) as nat);
        }
    }

    /// Resting long enough starts the adjustment: after `n` stationary
    /// samples the next stationary sample adjusts the offset if and only if
    /// the timer has reached the timeout, which it has after `timeout`
    /// samples at the latest; and the adjustment then goes on for as long as
    /// the sensor rests.
    pub proof fn lemma_rest_starts_adjustment(self, n: nat)
        requires
            self.wf(),
        ensures
            self.after_stationary(n).adjusts(true) <==> self.timer + n >= self.timeout,
            n >= self.timeout ==> self.after_stationary(n).adjusts(true),
            self.after_stationary(n).adjusts(true) ==> self.after_stationary(n + 1).adjusts(true),
    {
        self.lemma_after_stationary(n);
        self.lemma_after_stationary(n + 1);
    }

    /// Motion starts the wait again: after a sample that is not stationary,
    /// the next `n` stationary samples leave the offset alone as long as `n`
    /// is below the timeout.
    pub proof fn lemma_motion_restarts_wait(self, n: nat)
        requires
            n < self.timeout,
        ensures
            !self.step(false).after_stationary(n).adjusts(true),
            self.step(false).after_stationary(n).timer == n,
    {
        self.step(false).lemma_after_stationary(n);
    }
}

/// The stationarity timer of the gyroscope offset estimator.
#[derive(Clone, Copy, Debug)]
pub struct FusionGyrOffset {
    timeout: u32,
    timer: u32,
}

impl View for FusionGyrOffset {
    type V = GyrOffsetState;

    closed spec fn view(&self) -> GyrOffsetState {
        GyrOffsetState { timeout: self.timeout as nat, timer: self.timer as nat }
    }
}

impl FusionGyrOffset {
    #[verifier::type_invariant]
    spec fn timer_within_timeout(self) -> bool {
        self.timer <= self.timeout
    }

    /// A timer for `sample_rate` samples per second. The timeout in samples
    /// has to fit the counter.
    pub fn new(sample_rate: u32) -> (offset: Self)
        requires
            TIMEOUT * sample_rate <= u32::MAX,
        ensures
            offset@ == GyrOffsetState::initial(sample_rate as nat),
            offset@.wf(),
    {
        FusionGyrOffset { timeout: TIMEOUT * sample_rate, timer: 0 }
    }

    /// Counts one sample and returns whether the offset is to be adjusted
    /// with it. `above_threshold` names the axes on which the sample, the
    /// offset taken off, is above the threshold.
    pub fn update(&mut self, above_threshold: Axes) -> (adjust: bool)
        ensures
            final(self)@ == old(self)@.step(GyrOffsetState::stationary(above_threshold)),
            adjust == old(self)@.adjusts(GyrOffsetState::stationary(above_threshold)),
            final(self)@.wf(),
    {
        proof {
            use_type_invariant(&*self);
        }
        if above_threshold.any() {
            self.timer = 0;
            return false;
        }
        if self.timer < self.timeout {
            self.timer += 1;
            return false;
        }
        true
    }

    /// The number of stationary samples after which the offset is adjusted.
    pub fn timeout(&self) -> (r: u32)
        ensures
            r == self@.timeout,
            self@.wf(),
    {
        proof {
            use_type_invariant(self);
        }
        self.timeout
    }

    /// The number of stationary samples counted so far.
    pub fn timer(&self) -> (r: u32)
        ensures
            r == self@.timer,
            self@.wf(),
    {
        proof {
            use_type_invariant(self);
        }
        self.timer
    }
}

} // verus!
