use imu_fusion::recovery::{ChannelInput, RecoveryChannel, ACCEPT_STEP, REJECT_STEP};

fn state(channel: &RecoveryChannel) -> (bool, i32, i32, bool) {
    (channel.ignored(), channel.trigger(), channel.timeout(), channel.recovering())
}

#[test]
fn hysteresis_steps_are_nine_down_and_one_up() {
    assert_eq!(ACCEPT_STEP, 9);
    assert_eq!(REJECT_STEP, 1);
}

#[test]
fn new_channel_waits_for_the_period() {
    let channel = RecoveryChannel::new(500);
    assert_eq!(state(&channel), (false, 0, 500, false));
}

#[test]
fn zero_sample_only_marks_the_channel_ignored() {
    let mut channel = RecoveryChannel::new(500);
    for _ in 0..7 {
        channel.update(ChannelInput::AboveThreshold, false, 500);
    }
    assert_eq!(state(&channel), (true, 7, 500, false));
    assert!(channel.update(ChannelInput::WithinThreshold, false, 500));
    assert_eq!(state(&channel), (false, 0, 500, false));
    channel.update(ChannelInput::AboveThreshold, false, 500);
    channel.update(ChannelInput::AboveThreshold, false, 500);
    assert!(!channel.update(ChannelInput::Zero, false, 500));
    assert_eq!(state(&channel), (true, 2, 500, false));
    assert!(!channel.update(ChannelInput::Zero, true, 500));
    assert_eq!(state(&channel), (true, 2, 500, false));
}

#[test]
fn accepted_sample_takes_nine_off_the_trigger() {
    let mut channel = RecoveryChannel::new(100);
    for _ in 0..30 {
        assert!(!channel.update(ChannelInput::AboveThreshold, false, 100));
    }
    assert_eq!(channel.trigger(), 30);
    assert!(channel.update(ChannelInput::WithinThreshold, false, 100));
    assert_eq!(state(&channel), (false, 21, 100, false));
    assert!(channel.update(ChannelInput::WithinThreshold, false, 100));
    assert_eq!(channel.trigger(), 12);
    assert!(channel.update(ChannelInput::WithinThreshold, false, 100));
    assert_eq!(channel.trigger(), 3);
    assert!(channel.update(ChannelInput::WithinThreshold, false, 100));
    assert_eq!(state(&channel), (false, 0, 100, false));
}

#[test]
fn rejected_sample_adds_one_to_the_trigger() {
    let mut channel = RecoveryChannel::new(100);
    assert!(!channel.update(ChannelInput::AboveThreshold, false, 100));
    assert_eq!(state(&channel), (true, 1, 100, false));
    assert!(!channel.update(ChannelInput::AboveThreshold, false, 100));
    assert_eq!(state(&channel), (true, 2, 100, false));
}

#[test]
fn initialising_accepts_a_sample_above_the_threshold() {
    let mut channel = RecoveryChannel::new(100);
    for _ in 0..20 {
        channel.update(ChannelInput::AboveThreshold, false, 100);
    }
    assert!(channel.update(ChannelInput::AboveThreshold, true, 100));
    assert_eq!(state(&channel), (false, 11, 100, false));
    assert!(channel.update(ChannelInput::WithinThreshold, true, 100));
    assert_eq!(state(&channel), (false, 2, 100, false));
}

#[test]
fn recovery_starts_with_the_sample_after_the_period() {
    let mut channel = RecoveryChannel::new(500);
    for count in 1..=500 {
        assert!(!channel.update(ChannelInput::AboveThreshold, false, 500));
        assert_eq!(state(&channel), (true, count, 500, false));
    }
    assert!(channel.update(ChannelInput::AboveThreshold, false, 500));
    assert_eq!(state(&channel), (false, 500, 0, true));
}

#[test]
fn six_hundred_rejections_force_recovery() {
    let mut channel = RecoveryChannel::new(500);
    let mut applied = 0;
    for _ in 0..600 {
        if channel.update(ChannelInput::AboveThreshold, false, 500) {
            applied += 1;
        }
    }
    assert!(channel.recovering());
    assert!(!channel.ignored());
    assert_eq!(channel.trigger(), 500);
    assert_eq!(channel.timeout(), 0);
    assert_eq!(applied, 100);
    assert!(channel.update(ChannelInput::AboveThreshold, false, 500));
}

#[test]
fn recovery_ends_when_acceptance_has_emptied_the_trigger() {
    let mut channel = RecoveryChannel::new(50);
    for _ in 0..51 {
        channel.update(ChannelInput::AboveThreshold, false, 50);
    }
    assert_eq!(state(&channel), (false, 50, 0, true));
    let expected = [41, 32, 23, 14, 5];
    for trigger in expected {
        assert!(channel.update(ChannelInput::WithinThreshold, false, 50));
        assert_eq!(state(&channel), (false, trigger, 0, true));
    }
    assert!(channel.update(ChannelInput::WithinThreshold, false, 50));
    assert_eq!(state(&channel), (false, 0, 50, false));
}

#[test]
fn rejection_during_recovery_keeps_the_channel_recovering() {
    let mut channel = RecoveryChannel::new(50);
    for _ in 0..51 {
        channel.update(ChannelInput::AboveThreshold, false, 50);
    }
    channel.update(ChannelInput::WithinThreshold, false, 50);
    assert_eq!(state(&channel), (false, 41, 0, true));
    assert!(channel.update(ChannelInput::AboveThreshold, false, 50));
    assert_eq!(state(&channel), (false, 42, 0, true));
}

#[test]
fn zero_period_rejects_nothing() {
    let mut channel = RecoveryChannel::new(0);
    for _ in 0..5 {
        assert!(channel.update(ChannelInput::AboveThreshold, false, 0));
        assert_eq!(state(&channel), (false, 0, 0, false));
        assert!(channel.update(ChannelInput::WithinThreshold, false, 0));
        assert_eq!(state(&channel), (false, 0, 0, false));
    }
}

#[test]
fn set_period_restarts_the_timeout_and_keeps_the_trigger() {
    let mut channel = RecoveryChannel::new(500);
    for _ in 0..400 {
        channel.update(ChannelInput::AboveThreshold, false, 500);
    }
    channel.set_period(100);
    assert_eq!(state(&channel), (true, 400, 100, true));
    assert!(channel.update(ChannelInput::AboveThreshold, false, 100));
    assert_eq!(state(&channel), (false, 100, 0, true));
}

#[test]
fn trigger_at_the_limits_of_its_type_does_not_overflow() {
    let mut channel = RecoveryChannel::new(i32::MAX);
    channel.set_period(i32::MAX);
    for _ in 0..3 {
        channel.update(ChannelInput::AboveThreshold, false, i32::MAX);
    }
    assert_eq!(channel.trigger(), 3);
    let mut low = RecoveryChannel::new(i32::MIN);
    assert!(low.update(ChannelInput::AboveThreshold, false, i32::MIN));
    assert_eq!(state(&low), (false, i32::MIN, 0, false));
    assert!(low.update(ChannelInput::WithinThreshold, false, i32::MIN));
    assert_eq!(state(&low), (false, 0, i32::MIN, true));
}
