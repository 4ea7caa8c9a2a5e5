//! The fan: its configuration, its curve and the duty-cycle table.

mod config;
mod controlled;
mod curve;
mod error;
pub mod table;
mod target;

pub use config::{selected, Fan};
pub use controlled::ControlledFan;
pub use curve::{ascending, Curve};
pub use error::{FanError, Misconfiguration, Outcome};
pub use target::{
    acquisition_of, actuation_of, channel_of, Acquisition, Actuation, ActuationTarget, PwmChannel,
    CARRIER_HZ,
};
