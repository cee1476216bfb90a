//! Decision core of an attitude and heading reference filter.
//!
//! The crate holds the discrete part of an inertial sensor-fusion filter:
//! the rejection and recovery hysteresis of the accelerometer and
//! magnetometer channels, the initialisation and angular rate recovery
//! flags, what zero settings stand for, the stationarity timer of the
//! gyroscope offset estimator and the integer seed of the fast inverse
//! square root. Every function is verified against a mathematical model of
//! the state it changes, and the laws of that model are proved beside it.
//!
//! The numeric pipeline around it (vectors, quaternions, trigonometry) works
//! in single precision and is kept by the caller, which reports the outcome
//! of each comparison as an event and carries out the returned action.

pub mod ahrs;
pub mod axes;
pub mod bounds;
pub mod convention;
pub mod gyr_offset;
pub mod inverse_sqrt;
pub mod recovery;

pub use ahrs::{
    AhrsState, FusionAhrs, FusionAhrsFlags, FusionAhrsSettings, SettingsActions, UpdateActions,
    UpdateEvents,
};
pub use axes::Axes;
pub use bounds::clamp;
pub use convention::FusionConvention;
pub use gyr_offset::{FusionGyrOffset, GyrOffsetState};
pub use inverse_sqrt::fusion_fast_inverse_sqrt_seed;
pub use recovery::{ChannelInput, ChannelState, RecoveryChannel};
