//! Discrete state of the attitude and heading reference filter.
//!
//! For each sample the numeric pipeline evaluates its comparisons and hands
//! their outcomes over as `UpdateEvents`; `FusionAhrs::update` takes the
//! decisions and returns them as `UpdateActions`. An update passes four
//! stages:
//!
//! 1. a gyroscope sample with an axis beyond the configured range
//!    reinitialises the filter and raises the angular rate recovery flag;
//! 2. while the filter initialises, its gain comes down from the initial
//!    gain, and initialisation ends when it falls below the configured gain;
//! 3. the accelerometer channel and
//! 4. the magnetometer channel each decide whether the sample's feedback is
//!    applied.
//!
//! New settings are taken in the same way: the pipeline says which of its
//! numeric settings are zero, and `FusionAhrs::update_settings` says what
//! follows for the range, the thresholds and the gain.

use vstd::prelude::*;
use crate::axes::Axes;
use crate::convention::FusionConvention;
use crate::recovery::{ChannelInput, ChannelState, RecoveryChannel};

verus! {

/// The settings of the filter as far as its decisions depend on them.
#[derive(Clone, Copy, Debug, PartialEq, Eq, Structural)]
pub struct FusionAhrsSettings {
    /// The earth axes convention.
    pub convention: FusionConvention,
    /// The gain is zero: the filter relies on the gyroscope alone.
    pub gain_is_zero: bool,
    /// The gyroscope range is zero, which stands for no range.
    pub gyr_range_is_zero: bool,
    /// The accelerometer rejection angle is zero, which stands for none.
    pub acc_rejection_is_zero: bool,
    /// The magnetometer rejection angle is zero, which stands for none.
    pub mag_rejection_is_zero: bool,
    /// The number of rejected samples after which a channel recovers; zero
    /// switches rejection off.
    pub recovery_trigger_period: i32,
}

impl FusionAhrsSettings {
    /// The default settings: North-West-Up, a gain and rejection angles
    /// that are not zero, no gyroscope range, and a period of zero.
    pub open spec fn default_settings() -> FusionAhrsSettings {
        FusionAhrsSettings {
            convention: FusionConvention::NWU,
            gain_is_zero: false,
            gyr_range_is_zero: true,
            acc_rejection_is_zero: false,
            mag_rejection_is_zero: false,
            recovery_trigger_period: 0,
        }
    }

    /// Rejection is switched off as a whole: by a gain of zero, with which
    /// no feedback counts, and by a period of zero.
    pub open spec fn rejection_disabled(self) -> bool {
        self.gain_is_zero || self.recovery_trigger_period == 0
    }

    /// What the settings ask of the numeric pipeline in a filter that is
    /// initialising or not.
    pub open spec fn actions(self, initialising: bool) -> SettingsActions {
        SettingsActions {
            gyr_range_unbounded: self.gyr_range_is_zero,
            acc_rejection_unbounded: self.acc_rejection_is_zero || self.rejection_disabled(),
            mag_rejection_unbounded: self.mag_rejection_is_zero || self.rejection_disabled(),
            gain_settled: !initialising,
        }
    }

    /// The default settings.
    pub fn new() -> (settings: Self)
        ensures
            settings == Self::default_settings(),
    {
        FusionAhrsSettings {
            convention: FusionConvention::NWU,
            gain_is_zero: false,
            gyr_range_is_zero: true,
            acc_rejection_is_zero: false,
            mag_rejection_is_zero: false,
            recovery_trigger_period: 0,
        }
    }
}

/// What the numeric pipeline has to do with new settings.
#[derive(Clone, Copy, Debug, PartialEq, Eq, Structural)]
pub struct SettingsActions {
    /// No gyroscope sample is out of range.
    pub gyr_range_unbounded: bool,
    /// The accelerometer threshold is unbounded.
    pub acc_rejection_unbounded: bool,
    /// The magnetometer threshold is unbounded.
    pub mag_rejection_unbounded: bool,
    /// The ramped gain is to take the new gain at once.
    pub gain_settled: bool,
}

/// The health of the filter as the caller sees it.
#[derive(Clone, Copy, Debug, PartialEq, Eq, Structural)]
pub struct FusionAhrsFlags {
    /// The gain is still coming down from its initial value.
    pub initializing: bool,
    /// The filter was reinitialised because the gyroscope left its range.
    pub angular_rate_recovery: bool,
    /// The accelerometer is used although its error is above the threshold.
    pub acceleration_recovery: bool,
    /// The magnetometer is used although its error is above the threshold.
    pub magnetic_recovery: bool,
}

/// What the numeric pipeline found out about one sample.
#[derive(Clone, Copy, Debug, PartialEq, Eq, Structural)]
pub struct UpdateEvents {
    /// The axes of the gyroscope sample that are beyond the configured
    /// range.
    pub gyr_beyond_range: Axes,
    /// The gain, stepped down for this sample, is below the configured gain.
    /// The step starts from the ramped gain, and from the initial gain where
    /// the gyroscope is beyond its range. It is looked at only while the
    /// filter initialises.
    pub gain_below_target: bool,
    /// The accelerometer sample.
    pub accelerometer: ChannelInput,
    /// The magnetometer sample.
    pub magnetometer: ChannelInput,
}

/// What the numeric pipeline has to do with one sample.
#[derive(Clone, Copy, Debug, PartialEq, Eq, Structural)]
pub struct UpdateActions {
    /// The numeric state is to be reset but for the orientation: the stored
    /// accelerometer sample is zero and the gain is the initial gain.
    pub reinitialised: bool,
    /// The filter was initialising: the ramped gain is stepped down.
    pub ramped: bool,
    /// Initialisation has ended: the ramped gain is the configured gain.
    pub settled: bool,
    /// The accelerometer feedback goes into the integration.
    pub apply_accelerometer: bool,
    /// The magnetometer feedback goes into the integration.
    pub apply_magnetometer: bool,
}

/// Mathematical model of the filter's discrete state.
pub struct AhrsState {
    /// The settings in force.
    pub settings: FusionAhrsSettings,
    /// The filter is initialising.
    pub initialising: bool,
    /// The angular rate recovery flag.
    pub angular_rate_recovery: bool,
    /// The accelerometer channel.
    pub accelerometer: ChannelState,
    /// The magnetometer channel.
    pub magnetometer: ChannelState,
}

impl AhrsState {
    /// The recovery trigger period.
    pub open spec fn period(self) -> int {
        self.settings.recovery_trigger_period as int
    }

    /// The state of a filter that has seen no sample yet.
    pub open spec fn initial(settings: FusionAhrsSettings) -> AhrsState {
        AhrsState {
            settings,
            initialising: true,
            angular_rate_recovery: false,
            accelerometer: ChannelState::initial(settings.recovery_trigger_period as int),
            magnetometer: ChannelState::initial(settings.recovery_trigger_period as int),
        }
    }

    /// The state after a reset: the initial state under the same settings.
    pub open spec fn reset(self) -> AhrsState {
        Self::initial(self.settings)
    }

    /// The state after new settings: both timeouts restart at the new
    /// period, the triggers and flags stay.
    pub open spec fn update_settings(self, settings: FusionAhrsSettings) -> AhrsState {
        AhrsState {
            settings,
            accelerometer: ChannelState {
                timeout: settings.recovery_trigger_period as int,
                ..self.accelerometer
            },
            magnetometer: ChannelState {
                timeout: settings.recovery_trigger_period as int,
                ..self.magnetometer
            },
            ..self
        }
    }

    /// First stage of an update: a gyroscope sample with an axis beyond the
    /// range resets the filter and raises the angular rate recovery flag.
    pub open spec fn begin_update(self, gyr_beyond_range: Axes) -> AhrsState {
        if gyr_beyond_range.any() {
            AhrsState { angular_rate_recovery: true, ..self.reset() }
        } else {
            self
        }
    }

    /// Initialisation ends with this sample: the ramped gain has fallen
    /// below the configured gain, or that gain is zero.
    pub open spec fn settles(self, gain_below_target: bool) -> bool {
        self.initialising && (gain_below_target || self.settings.gain_is_zero)
    }

    /// Second stage of an update: the end of initialisation takes the
    /// angular rate recovery flag down with it.
    pub open spec fn ramp_gain(self, gain_below_target: bool) -> AhrsState {
        if self.settles(gain_below_target) {
            AhrsState { initialising: false, angular_rate_recovery: false, ..self }
        } else {
            self
        }
    }

    /// Third stage of an update.
    pub open spec fn accelerometer(self, input: ChannelInput) -> AhrsState {
        AhrsState {
            accelerometer: self.accelerometer.step(input, self.initialising, self.period()),
            ..self
        }
    }

    /// Fourth stage of an update.
    pub open spec fn magnetometer(self, input: ChannelInput) -> AhrsState {
        AhrsState {
            magnetometer: self.magnetometer.step(input, self.initialising, self.period()),
            ..self
        }
    }

    /// The accelerometer sample as the third stage sees it. Reinitialising
    /// drops the stored sample, so the channel is skipped for that update.
    pub open spec fn accelerometer_seen(events: UpdateEvents) -> ChannelInput {
        if events.gyr_beyond_range.any() {
            ChannelInput::Zero
        } else {
            events.accelerometer
        }
    }

    /// The state after one update: the four stages in turn.
    pub open spec fn update(self, events: UpdateEvents) -> AhrsState {
        self.begin_update(events.gyr_beyond_range).ramp_gain(
            events.gain_below_target,
        ).accelerometer(Self::accelerometer_seen(events)).magnetometer(events.magnetometer)
    }

    /// What one update asks of the numeric pipeline.
    pub open spec fn actions(self, events: UpdateEvents) -> UpdateActions {
        let begun = self.begin_update(events.gyr_beyond_range);
        let ramped = begun.ramp_gain(events.gain_below_target);
        UpdateActions {
            reinitialised: events.gyr_beyond_range.any(),
            ramped: begun.initialising,
            settled: begun.settles(events.gain_below_target),
            apply_accelerometer: ramped.accelerometer.applies(
                Self::accelerometer_seen(events),
                ramped.initialising,
                ramped.period(),
            ),
            apply_magnetometer: ramped.magnetometer.applies(
                events.magnetometer,
                ramped.initialising,
                ramped.period(),
            ),
        }
    }

    /// The events of an update without a magnetometer.
    pub open spec fn events_no_mag(
        gyr_beyond_range: Axes,
        gain_below_target: bool,
        accelerometer: ChannelInput,
    ) -> UpdateEvents {
        UpdateEvents {
            gyr_beyond_range,
            gain_below_target,
            accelerometer,
            magnetometer: ChannelInput::Zero,
        }
    }

    /// The state after a series of updates, the first event first.
    pub open spec fn run(self, events: Seq<UpdateEvents>) -> AhrsState
        decreases events.len(),
    {
        if events.len() == 0 {
            self
        } else {
            self.run(events.drop_last()).update(events.last())
        }
    }

    /// The flags that the state shows.
    pub open spec fn flags(self) -> FusionAhrsFlags {
        FusionAhrsFlags {
            initializing: self.initialising,
            angular_rate_recovery: self.angular_rate_recovery,
            acceleration_recovery: self.accelerometer.recovering(),
            magnetic_recovery: self.magnetometer.recovering(),
        }
    }

    /// Both channels are settled: their triggers are not negative and their
    /// timeouts lie between zero and the period.
    pub open spec fn settled(self) -> bool {
        self.accelerometer.settled(self.period()) && self.magnetometer.settled(self.period())
    }

    /// The gyroscope stays in range and the accelerometer error is above
    /// the threshold.
    pub open spec fn rejects_accelerometer(events: UpdateEvents) -> bool {
        !events.gyr_beyond_range.any() && events.accelerometer == ChannelInput::AboveThreshold
    }

    /// The gyroscope stays in range and the magnetometer error is above the
    /// threshold.
    pub open spec fn rejects_magnetometer(events: UpdateEvents) -> bool {
        !events.gyr_beyond_range.any() && events.magnetometer == ChannelInput::AboveThreshold
    }

    /// The gyroscope stays in range and neither channel has an error above
    /// its threshold.
    pub open spec fn steady(events: UpdateEvents) -> bool {
        &&& !events.gyr_beyond_range.any()
        &&& events.accelerometer != ChannelInput::AboveThreshold
        &&& events.magnetometer != ChannelInput::AboveThreshold
    }
}

impl AhrsState {
    /// Under a period that is not negative the channels are settled from
    /// the start and stay so: through every update, a reset, and new
    /// settings whose period is not negative either.
    pub proof fn lemma_channels_stay_settled(
        self,
        events: UpdateEvents,
        settings: FusionAhrsSettings,
    )
        requires
            self.settings.recovery_trigger_period >= 0,
            self.settled(),
            settings.recovery_trigger_period >= 0,
        ensures
            Self::initial(settings).settled(),
            self.update(events).settled(),
            self.reset().settled(),
            self.update_settings(settings).settled(),
    {
    }

    /// Initialisation ends once. A filter that has left initialisation stays
    /// out of it, with its settings and its angular rate recovery flag, for
    /// as long as the gyroscope stays in range.
    pub proof fn lemma_run_in_range(self, events: Seq<UpdateEvents>)
        requires
            !self.initialising,
            forall|i: int| 0 <= i < events.len() ==> !(#[trigger] events[i]).gyr_beyond_range.any(),
        ensures
            !self.run(events).initialising,
            self.run(events).angular_rate_recovery == self.angular_rate_recovery,
            self.run(events).settings == self.settings,
        decreases events.len(),
    {
        if events.len() > 0 {
            self.lemma_run_in_range(events.drop_last());
        }
    }

    /// A run of updates that reject the accelerometer takes its channel
    /// through as many rejections, whatever the magnetometer does.
    pub proof fn lemma_run_rejects_accelerometer(self, events: Seq<UpdateEvents>)
        requires
            !self.initialising,
            forall|i: int| 0 <= i < events.len() ==> Self::rejects_accelerometer(#[trigger] events[i]),
        ensures
            self.run(events).accelerometer == self.accelerometer.after_rejections(
                events.len(),
                self.period(),
            ),
        decreases events.len(),
    {
        if events.len() > 0 {
            self.lemma_run_rejects_accelerometer(events.drop_last());
            self.lemma_run_in_range(events.drop_last());
        }
    }

    /// A run of updates that reject the magnetometer takes its channel
    /// through as many rejections, whatever the accelerometer does.
    pub proof fn lemma_run_rejects_magnetometer(self, events: Seq<UpdateEvents>)
        requires
            !self.initialising,
            forall|i: int| 0 <= i < events.len() ==> Self::rejects_magnetometer(#[trigger] events[i]),
        ensures
            self.run(events).magnetometer == self.magnetometer.after_rejections(
                events.len(),
                self.period(),
            ),
        decreases events.len(),
    {
        if events.len() > 0 {
            self.lemma_run_rejects_magnetometer(events.drop_last());
            self.lemma_run_in_range(events.drop_last());
        }
    }

    /// Sustained rejection of the accelerometer forces its recovery. After
    /// more updates in a row with the error above the threshold than the
    /// period allows, counted from the trigger, the acceleration recovery
    /// flag is up, and the last of these updates applies the accelerometer
    /// feedback although its error is above the threshold.
    pub proof fn lemma_accelerometer_rejection_recovers(self, events: Seq<UpdateEvents>)
        requires
            !self.initialising,
            self.period() >= 1,
            self.accelerometer.settled(self.period()),
            events.len() >= 1,
            self.accelerometer.trigger + events.len() > self.period(),
            forall|i: int| 0 <= i < events.len() ==> Self::rejects_accelerometer(#[trigger] events[i]),
        ensures
            self.run(events).flags().acceleration_recovery,
            !self.run(events).accelerometer.ignored,
            self.run(events.drop_last()).actions(events.last()).apply_accelerometer,
    {
        let before = events.drop_last();
        self.lemma_run_rejects_accelerometer(events);
        self.lemma_run_rejects_accelerometer(before);
        self.lemma_run_in_range(before);
        self.accelerometer.lemma_sustained_rejection_recovers(events.len(), self.period());
    }

    /// Sustained rejection of the magnetometer forces its recovery, in the
    /// same way.
    pub proof fn lemma_magnetometer_rejection_recovers(self, events: Seq<UpdateEvents>)
        requires
            !self.initialising,
            self.period() >= 1,
            self.magnetometer.settled(self.period()),
            events.len() >= 1,
            self.magnetometer.trigger + events.len() > self.period(),
            forall|i: int| 0 <= i < events.len() ==> Self::rejects_magnetometer(#[trigger] events[i]),
        ensures
            self.run(events).flags().magnetic_recovery,
            !self.run(events).magnetometer.ignored,
            self.run(events.drop_last()).actions(events.last()).apply_magnetometer,
    {
        let before = events.drop_last();
        self.lemma_run_rejects_magnetometer(events);
        self.lemma_run_rejects_magnetometer(before);
        self.lemma_run_in_range(before);
        self.magnetometer.lemma_sustained_rejection_recovers(events.len(), self.period());
    }

    /// One of the updates finds the gain below its target, or the gain is
    /// zero and there is an update at all.
    pub open spec fn reaches_gain(settings: FusionAhrsSettings, events: Seq<UpdateEvents>) -> bool {
        exists|i: int|
            0 <= i < events.len() && ((#[trigger] events[i]).gain_below_target
                || settings.gain_is_zero)
    }

    /// Steady operation raises no flag. From a fresh filter, a run of
    /// updates with the gyroscope in range and no error above a threshold
    /// keeps both triggers at zero and both recovery flags down, and the
    /// filter has left initialisation as soon as one of the updates found
    /// the gain below its target, or with the first update where the gain is
    /// zero.
    pub proof fn lemma_steady_run_raises_no_flag(
        settings: FusionAhrsSettings,
        events: Seq<UpdateEvents>,
    )
        requires
            settings.recovery_trigger_period >= 0,
            forall|i: int| 0 <= i < events.len() ==> Self::steady(#[trigger] events[i]),
        ensures
            Self::initial(settings).run(events).accelerometer.trigger == 0,
            Self::initial(settings).run(events).magnetometer.trigger == 0,
            Self::initial(settings).run(events).accelerometer.timeout
                == settings.recovery_trigger_period,
            Self::initial(settings).run(events).magnetometer.timeout
                == settings.recovery_trigger_period,
            Self::initial(settings).run(events).settings == settings,
            !Self::initial(settings).run(events).flags().acceleration_recovery,
            !Self::initial(settings).run(events).flags().magnetic_recovery,
            !Self::initial(settings).run(events).flags().angular_rate_recovery,
            Self::initial(settings).run(events).flags().initializing == !Self::reaches_gain(
                settings,
                events,
            ),
        decreases events.len(),
    {
        if events.len() > 0 {
            let before = events.drop_last();
            Self::lemma_steady_run_raises_no_flag(settings, before);
            if Self::reaches_gain(settings, before) {
                let i = choose|i: int|
                    0 <= i < before.len() && ((#[trigger] before[i]).gain_below_target
                        || settings.gain_is_zero);
                assert(events[i].gain_below_target || settings.gain_is_zero);
            }
            if Self::reaches_gain(settings, events) {
                let i = choose|i: int|
                    0 <= i < events.len() && ((#[trigger] events[i]).gain_below_target
                        || settings.gain_is_zero);
                if i < before.len() {
                    assert(before[i].gain_below_target || settings.gain_is_zero);
                }
            }
        }
    }

    /// While the filter initialises no sample is rejected: an update that
    /// leaves the filter initialising applies the feedback of every sample
    /// that the channels see and that is not zero.
    pub proof fn lemma_initialising_applies_feedback(self, events: UpdateEvents)
        requires
            self.update(events).initialising,
        ensures
            self.actions(events).apply_accelerometer == (Self::accelerometer_seen(events)
                != ChannelInput::Zero),
            self.actions(events).apply_magnetometer == (events.magnetometer != ChannelInput::Zero),
            !self.update(events).accelerometer.ignored || Self::accelerometer_seen(events)
                == ChannelInput::Zero,
            !self.update(events).magnetometer.ignored || events.magnetometer == ChannelInput::Zero,
    {
    }

    /// A gyroscope sample beyond the range starts the filter afresh: the
    /// channels are as new, the accelerometer is skipped, and the filter
    /// initialises with the angular rate recovery flag up unless
    /// initialisation ends with the same sample.
    pub proof fn lemma_range_exceeded_reinitialises(self, events: UpdateEvents)
        requires
            events.gyr_beyond_range.any(),
        ensures
            self.actions(events).reinitialised,
            self.actions(events).ramped,
            !self.actions(events).apply_accelerometer,
            self.update(events).initialising == !(events.gain_below_target
                || self.settings.gain_is_zero),
            self.update(events).angular_rate_recovery == self.update(events).initialising,
            self.update(events).accelerometer == (ChannelState {
                ignored: true,
                ..ChannelState::initial(self.period())
            }),
            self.update(events) == self.reset().update(events),
    {
    }
}

/// The discrete state of the filter.
#[derive(Clone, Copy, Debug)]
pub struct FusionAhrs {
    settings: FusionAhrsSettings,
    initialising: bool,
    angular_rate_recovery: bool,
    accelerometer: RecoveryChannel,
    magnetometer: RecoveryChannel,
}

impl View for FusionAhrs {
    type V = AhrsState;

    closed spec fn view(&self) -> AhrsState {
        AhrsState {
            settings: self.settings,
            initialising: self.initialising,
            angular_rate_recovery: self.angular_rate_recovery,
            accelerometer: self.accelerometer@,
            magnetometer: self.magnetometer@,
        }
    }
}

impl FusionAhrs {
    /// A filter under the default settings, initialising.
    pub fn new() -> (ahrs: Self)
        ensures
            ahrs@ == AhrsState::initial(FusionAhrsSettings::default_settings()),
    {
        let settings = FusionAhrsSettings::new();
        FusionAhrs {
            settings,
            initialising: true,
            angular_rate_recovery: false,
            accelerometer: RecoveryChannel::new(settings.recovery_trigger_period),
            magnetometer: RecoveryChannel::new(settings.recovery_trigger_period),
        }
    }

    /// Takes new settings and says what follows from them.
    ///
    /// A gyroscope range of zero stands for none. A rejection threshold is
    /// unbounded where its angle is zero, and both are where the gain or the
    /// period is zero. The ramped gain follows the new gain at once unless
    /// the filter is initialising. Both timeouts restart at the new period.
    pub fn update_settings(&mut self, settings: FusionAhrsSettings) -> (actions: SettingsActions)
        ensures
            final(self)@ == old(self)@.update_settings(settings),
            actions == settings.actions(old(self)@.initialising),
    {
        self.settings = settings;
        self.accelerometer.set_period(settings.recovery_trigger_period);
        self.magnetometer.set_period(settings.recovery_trigger_period);
        let rejection_disabled = settings.gain_is_zero || settings.recovery_trigger_period == 0;
        SettingsActions {
            gyr_range_unbounded: settings.gyr_range_is_zero,
            acc_rejection_unbounded: settings.acc_rejection_is_zero || rejection_disabled,
            mag_rejection_unbounded: settings.mag_rejection_is_zero || rejection_disabled,
            gain_settled: !self.initialising,
        }
    }

    /// Puts the filter back into its initial state; the settings stay.
    pub fn reset(&mut self)
        ensures
            final(self)@ == old(self)@.reset(),
    {
        self.initialising = true;
        self.angular_rate_recovery = false;
        self.accelerometer = RecoveryChannel::new(self.settings.recovery_trigger_period);
        self.magnetometer = RecoveryChannel::new(self.settings.recovery_trigger_period);
    }

    /// Takes the decisions of one update.
    ///
    /// The state moves through the four stages, and the actions say what
    /// the numeric pipeline has to do at each of them.
    pub fn update(&mut self, events: UpdateEvents) -> (actions: UpdateActions)
        ensures
            final(self)@ == old(self)@.update(events),
            actions == old(self)@.actions(events),
    {
        let reinitialised = events.gyr_beyond_range.any();
        let mut accelerometer = events.accelerometer;
        if reinitialised {
            self.reset();
            self.angular_rate_recovery = true;
            accelerometer = ChannelInput::Zero;
        }
        let ramped = self.initialising;
        let settled = ramped && (events.gain_below_target || self.settings.gain_is_zero);
        if settled {
            self.initialising = false;
            self.angular_rate_recovery = false;
        }
        let period = self.settings.recovery_trigger_period;
        let apply_accelerometer = self.accelerometer.update(
            accelerometer,
            self.initialising,
            period,
        );
        let apply_magnetometer = self.magnetometer.update(
            events.magnetometer,
            self.initialising,
            period,
        );
        UpdateActions { reinitialised, ramped, settled, apply_accelerometer, apply_magnetometer }
    }

    /// Takes the decisions of one update without a magnetometer.
    ///
    /// The magnetometer channel is skipped. Beside the actions the result
    /// says whether the heading is to be set to zero after the integration,
    /// which is so as long as the filter initialises: without a magnetometer
    /// nothing else would fix the heading.
    pub fn update_no_mag(
        &mut self,
        gyr_beyond_range: Axes,
        gain_below_target: bool,
        accelerometer: ChannelInput,
    ) -> (result: (UpdateActions, bool))
        ensures
            final(self)@ == old(self)@.update(
                AhrsState::events_no_mag(gyr_beyond_range, gain_below_target, accelerometer),
            ),
            result.0 == old(self)@.actions(
                AhrsState::events_no_mag(gyr_beyond_range, gain_below_target, accelerometer),
            ),
            result.1 == final(self)@.initialising,
    {
        let actions = self.update(
            UpdateEvents {
                gyr_beyond_range,
                gain_below_target,
                accelerometer,
                magnetometer: ChannelInput::Zero,
            },
        );
        (actions, self.initialising)
    }

    /// The flags of the filter.
    pub fn flags(&self) -> (flags: FusionAhrsFlags)
        ensures
            flags == self@.flags(),
    {
        FusionAhrsFlags {
            initializing: self.initialising,
            angular_rate_recovery: self.angular_rate_recovery,
            acceleration_recovery: self.accelerometer.recovering(),
            magnetic_recovery: self.magnetometer.recovering(),
        }
    }

    /// The settings in force.
    pub fn settings(&self) -> (settings: FusionAhrsSettings)
        ensures
            settings == self@.settings,
    {
        self.settings
    }

    /// The accelerometer channel.
    pub fn accelerometer_channel(&self) -> (channel: RecoveryChannel)
        ensures
            channel@ == self@.accelerometer,
    {
        self.accelerometer
    }

    /// The magnetometer channel.
    pub fn magnetometer_channel(&self) -> (channel: RecoveryChannel)
        ensures
            channel@ == self@.magnetometer,
    {
        self.magnetometer
    }
}

} // verus!
