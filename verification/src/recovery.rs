//! Rejection and recovery hysteresis of one feedback channel.
//!
//! The accelerometer and the magnetometer each correct the gyroscope
//! integration through a feedback term. A sample whose feedback error is too
//! large is ignored, and a counter (the recovery trigger) keeps track of how
//! persistent the disagreement is: it rises by `REJECT_STEP` for each sample
//! that is above the threshold and falls by `ACCEPT_STEP` for each one that
//! is within it. Once the counter passes the channel's timeout the filter
//! stops trusting its own estimate and uses the samples again, whatever
//! their error, until the counter has fallen back to zero.

use vstd::prelude::*;
use crate::bounds::clamp;

verus! {

/// How far the recovery trigger falls for an accepted sample.
pub const ACCEPT_STEP: i32 = 9;

/// How far the recovery trigger rises for a rejected sample.
pub const REJECT_STEP: i32 = 1;

/// What the numeric pipeline found out about one sample of a channel.
#[derive(Clone, Copy, Debug, PartialEq, Eq, Structural)]
pub enum ChannelInput {
    /// The sample is exactly zero: the channel is skipped.
    Zero,
    /// The feedback error is at most the rejection threshold.
    WithinThreshold,
    /// The feedback error is above the rejection threshold.
    AboveThreshold,
}

/// Mathematical model of a channel.
pub struct ChannelState {
    /// The last sample contributed no feedback.
    pub ignored: bool,
    /// The recovery trigger.
    pub trigger: int,
    /// The value that the trigger has to pass for recovery to start or to
    /// go on: the recovery trigger period, or zero during recovery.
    pub timeout: int,
}

impl ChannelState {
    /// The channel as it is after construction or a reset.
    pub open spec fn initial(period: int) -> ChannelState {
        ChannelState { ignored: false, trigger: 0, timeout: period }
    }

    /// The recovery flag: the trigger is above the timeout.
    pub open spec fn recovering(self) -> bool {
        self.trigger > self.timeout
    }

    /// The sample is accepted on its own merit: every sample is during
    /// initialisation, afterwards one whose error is within the threshold.
    pub open spec fn accepts(input: ChannelInput, initialising: bool) -> bool {
        input != ChannelInput::Zero && (initialising || input == ChannelInput::WithinThreshold)
    }

    /// The trigger after counting the sample, before it is clamped.
    pub open spec fn counted(self, input: ChannelInput, initialising: bool) -> int {
        if Self::accepts(input, initialising) {
            self.trigger - ACCEPT_STEP
        } else {
            self.trigger + REJECT_STEP
        }
    }

    /// The channel after one sample.
    ///
    /// A zero sample only marks the channel as ignored. Any other sample is
    /// counted; where the count passes the timeout the sample is used
    /// whatever its error and the timeout drops to zero, else the timeout is
    /// the period again. The trigger is kept between zero and the period.
    pub open spec fn step(self, input: ChannelInput, initialising: bool, period: int) -> ChannelState {
        if input == ChannelInput::Zero {
            ChannelState { ignored: true, ..self }
        } else {
            let counted = self.counted(input, initialising);
            let forced = counted > self.timeout;
            ChannelState {
                ignored: !Self::accepts(input, initialising) && !forced,
                trigger: if counted < 0 {
                    0
                } else if counted > period {
                    period
                } else {
                    counted
                },
                timeout: if forced {
                    0
                } else {
                    period
                },
            }
        }
    }

    /// The sample's feedback goes into the integration.
    pub open spec fn applies(self, input: ChannelInput, initialising: bool, period: int) -> bool {
        input != ChannelInput::Zero && !self.step(input, initialising, period).ignored
    }
}

impl ChannelState {
    /// The channel after `n` samples in a row that are above the threshold,
    /// outside initialisation.
    pub open spec fn after_rejections(self, n: nat, period: int) -> ChannelState
        decreases n,
    {
        if n == 0 {
            self
        } else {
            self.after_rejections((n - 1) as nat, period).step(
                ChannelInput::AboveThreshold,
                false,
                period,
            )
        }
    }

    /// The channel after `n` samples in a row that are within the threshold,
    /// outside initialisation.
    pub open spec fn after_acceptances(self, n: nat, period: int) -> ChannelState
        decreases n,
    {
        if n == 0 {
            self
        } else {
            self.after_acceptances((n - 1) as nat, period).step(
                ChannelInput::WithinThreshold,
                false,
                period,
            )
        }
    }

    /// The counter of a channel is not negative and its timeout lies between
    /// zero and the period. Every sample that is not zero brings a channel
    /// there, under a period that is not negative.
    pub open spec fn settled(self, period: int) -> bool {
        0 <= self.trigger && 0 <= self.timeout <= period
    }

    /// A sample that is not zero leaves the trigger between zero and the
    /// period and the timeout at zero or at the period.
    pub proof fn lemma_step_bounds(self, input: ChannelInput, initialising: bool, period: int)
        requires
            period >= 0,
            input != ChannelInput::Zero,
        ensures
            0 <= self.step(input, initialising, period).trigger <= period,
            self.step(input, initialising, period).timeout == 0 || self.step(
                input,
                initialising,
                period,
            ).timeout == period,
            self.step(input, initialising, period).settled(period),
    {
    }

    /// A zero sample changes nothing but the ignored mark.
    pub proof fn lemma_zero_sample_skips(self, initialising: bool, period: int)
        ensures
            self.step(ChannelInput::Zero, initialising, period).trigger == self.trigger,
            self.step(ChannelInput::Zero, initialising, period).timeout == self.timeout,
            self.step(ChannelInput::Zero, initialising, period).ignored,
            !self.applies(ChannelInput::Zero, initialising, period),
    {
    }

    /// While the filter initialises, every sample that is not zero is used.
    pub proof fn lemma_initialising_applies(self, input: ChannelInput, period: int)
        requires
            input != ChannelInput::Zero,
        ensures
            self.applies(input, true, period),
            self.step(input, true, period) == self.step(
                ChannelInput::WithinThreshold,
                false,
                period,
            ),
    {
    }

    /// A sample within the threshold is always used.
    pub proof fn lemma_within_threshold_applies(self, initialising: bool, period: int)
        ensures
            self.applies(ChannelInput::WithinThreshold, initialising, period),
    {
    }

    /// With a period of zero nothing is ever rejected: a fresh channel uses
    /// every sample that is not zero, and stays fresh.
    pub proof fn lemma_zero_period_disables_rejection(input: ChannelInput, initialising: bool)
        requires
            input != ChannelInput::Zero,
        ensures
            Self::initial(0).applies(input, initialising, 0),
            Self::initial(0).step(input, initialising, 0) == Self::initial(0),
    {
    }

    /// What a run of rejected samples does to a settled channel: the trigger
    /// rises by one per sample up to the period, and from the sample on that
    /// takes the count past the period the channel recovers.
    pub proof fn lemma_after_rejections(self, n: nat, period: int)
        requires
            period >= 1,
            self.settled(period),
            n >= 1,
        ensures
            self.after_rejections(n, period).settled(period),
            self.after_rejections(n, period).trigger == if self.trigger + n <= period {
                self.trigger + n
            } else {
                period
            },
            self.after_rejections(n, period).timeout == 0 ==> self.after_rejections(
                n,
                period,
            ).recovering() && !self.after_rejections(n, period).ignored,
            self.trigger + n > period ==> self.after_rejections(n, period).timeout == 0,
        decreases n,
    {
        if n > 1 {
            self.lemma_after_rejections((n - 1) as nat, period);
        } else {
            assert(self.after_rejections(0, period) == self);
        }
    }

    /// Sustained rejection forces recovery. Once more samples in a row were
    /// above the threshold than the period allows, counted from the trigger,
    /// the recovery flag is up and the feedback of the sample is applied
    /// although its error is still above the threshold.
    pub proof fn lemma_sustained_rejection_recovers(self, n: nat, period: int)
        requires
            period >= 1,
            self.settled(period),
            self.trigger + n > period,
            n >= 1,
        ensures
            self.after_rejections(n, period).recovering(),
            !self.after_rejections(n, period).ignored,
            self.after_rejections(n, period).trigger == period,
            self.after_rejections(n, period).timeout == 0,
            self.after_rejections((n - 1) as nat, period).applies(
                ChannelInput::AboveThreshold,
                false,
                period,
            ),
    {
        self.lemma_after_rejections(n, period);
    }

    /// Before that, rejected samples are ignored: a channel that is not
    /// recovering ignores every sample above the threshold as long as the
    /// count stays within the period.
    pub proof fn lemma_rejection_within_period_ignores(self, n: nat, period: int)
        requires
            0 <= self.trigger,
            self.timeout == period,
            self.trigger + n <= period,
            n >= 1,
        ensures
            self.after_rejections(n, period).ignored,
            !self.after_rejections(n, period).recovering(),
            self.after_rejections(n, period).trigger == self.trigger + n,
            self.after_rejections(n, period).timeout == period,
            !self.after_rejections((n - 1) as nat, period).applies(
                ChannelInput::AboveThreshold,
                false,
                period,
            ),
        decreases n,
    {
        if n > 1 {
            self.lemma_rejection_within_period_ignores((n - 1) as nat, period);
        } else {
            assert(self.after_rejections(0, period) == self);
        }
    }

    /// What a run of accepted samples does to a settled channel: the trigger
    /// falls by `ACCEPT_STEP` per sample down to zero.
    pub proof fn lemma_after_acceptances(self, n: nat, period: int)
        requires
            period >= 0,
            self.settled(period),
            self.trigger <= period,
        ensures
            self.after_acceptances(n, period).settled(period),
            self.after_acceptances(n, period).trigger == if self.trigger - ACCEPT_STEP * n >= 0 {
                self.trigger - ACCEPT_STEP * n
            } else {
                0
            },
            n >= 1 ==> !self.after_acceptances(n, period).ignored,
        decreases n,
    {
        if n > 0 {
            self.lemma_after_acceptances((n - 1) as nat, period);
        }
    }

    /// Acceptance ends recovery, and faster than rejection began it: after
    /// enough accepted samples to bring the trigger to zero, `ACCEPT_STEP`
    /// off per sample, the channel is out of recovery with its timeout back
    /// at the period.
    pub proof fn lemma_acceptance_ends_recovery(self, n: nat, period: int)
        requires
            period >= 0,
            self.settled(period),
            self.trigger <= period,
            n >= 1,
            ACCEPT_STEP * n >= self.trigger,
        ensures
            !self.after_acceptances(n, period).recovering(),
            self.after_acceptances(n, period).trigger == 0,
            self.after_acceptances(n, period).timeout == period,
            !self.after_acceptances(n, period).ignored,
    {
        self.lemma_after_acceptances(n, period);
        self.lemma_after_acceptances((n - 1) as nat, period);
    }
}

/// One feedback channel of the filter.
#[derive(Clone, Copy, Debug)]
pub struct RecoveryChannel {
    ignored: bool,
    trigger: i32,
    timeout: i32,
}

impl View for RecoveryChannel {
    type V = ChannelState;

    closed spec fn view(&self) -> ChannelState {
        ChannelState {
            ignored: self.ignored,
            trigger: self.trigger as int,
            timeout: self.timeout as int,
        }
    }
}

impl RecoveryChannel {
    /// A channel with a zero trigger, waiting for `period` rejections.
    pub fn new(period: i32) -> (channel: Self)
        ensures
            channel@ == ChannelState::initial(period as int),
    {
        RecoveryChannel { ignored: false, trigger: 0, timeout: period }
    }

    /// Takes one sample into account and says whether its feedback is to be
    /// applied.
    pub fn update(&mut self, input: ChannelInput, initialising: bool, period: i32) -> (apply: bool)
        ensures
            final(self)@ == old(self)@.step(input, initialising, period as int),
            apply == old(self)@.applies(input, initialising, period as int),
    {
        let accepted = match input {
            ChannelInput::Zero => {
                self.ignored = true;
                return false;
            },
            ChannelInput::WithinThreshold => true,
            ChannelInput::AboveThreshold => initialising,
        };
        let counted: i64 = if accepted {
            self.trigger as i64 - ACCEPT_STEP as i64
        } else {
            self.trigger as i64 + REJECT_STEP as i64
        };
        let forced = counted > self.timeout as i64;
        self.ignored = !accepted && !forced;
        self.timeout = if forced {
            0
        } else {
            period
        };
        let bounded: i64 = clamp(counted, 0, period as i64);
        self.trigger = bounded as i32;
        !self.ignored
    }

    /// Restarts the timeout at a new period; the trigger keeps its value.
    pub fn set_period(&mut self, period: i32)
        ensures
            final(self)@ == (ChannelState { timeout: period as int, ..old(self)@ }),
    {
        self.timeout = period;
    }

    /// The last sample contributed no feedback.
    pub fn ignored(&self) -> (r: bool)
        ensures
            r == self@.ignored,
    {
        self.ignored
    }

    /// The recovery trigger.
    pub fn trigger(&self) -> (r: i32)
        ensures
            r == self@.trigger,
    {
        self.trigger
    }

    /// The timeout that the trigger is held against.
    pub fn timeout(&self) -> (r: i32)
        ensures
            r == self@.timeout,
    {
        self.timeout
    }

    /// The recovery flag of the channel.
    pub fn recovering(&self) -> (r: bool)
        ensures
            r == self@.recovering(),
    {
        self.trigger > self.timeout
    }
}

} // verus!
