//! How a fan operation can fail.

use vstd::prelude::*;

verus! {

/// What is wrong with a configuration.
#[derive(Debug, Clone, Copy, PartialEq, Eq, Structural)]
pub enum Misconfiguration {
    /// The hardware PWM channel is not one of the two that exist.
    InvalidChannel,
    /// Neither a pin nor a hardware PWM channel is named.
    NoTarget,
    /// Both a pin and a hardware PWM channel are named.
    TwoTargets,
}

/// One error surface for both kinds of target: a caller need not know
/// whether a pin or a channel failed.
#[derive(Debug, Clone, Copy, PartialEq, Eq, Structural)]
pub enum FanError {
    /// The configuration does not describe exactly one usable target.
    Configuration(Misconfiguration),
    /// The pin or channel could not be claimed or initialised.
    HardwareAcquisition,
    /// A frequency or duty-cycle write failed while the fan was running.
    HardwareWrite,
}

/// How an operation on the hardware ended.
#[derive(Debug, Clone, Copy, PartialEq, Eq, Structural)]
pub enum Outcome {
    Done,
    Failed,
}

impl FanError {
    /// The text of each error.
    pub open spec fn text(self) -> Seq<char> {
        match self {
            FanError::Configuration(Misconfiguration::InvalidChannel) => "Invalid PWM channel"@,
            FanError::Configuration(Misconfiguration::NoTarget) => {
                "Either pin or pwm channel needs to be present"@
            },
            FanError::Configuration(Misconfiguration::TwoTargets) => {
                "Only one of pin and pwm channel may be present"@
            },
            FanError::HardwareAcquisition => "Failed to initialize fan"@,
            FanError::HardwareWrite => "Unable to set pwm"@,
        }
    }

    /// A short description of the error.
    pub fn message(&self) -> (message: &'static str)
        ensures
            message@ == self.text(),
    {
        match self {
            FanError::Configuration(Misconfiguration::InvalidChannel) => "Invalid PWM channel",
            FanError::Configuration(Misconfiguration::NoTarget) => {
                "Either pin or pwm channel needs to be present"
            },
            FanError::Configuration(Misconfiguration::TwoTargets) => {
                "Only one of pin and pwm channel may be present"
            },
            FanError::HardwareAcquisition => "Failed to initialize fan",
            FanError::HardwareWrite => "Unable to set pwm",
        }
    }
}

} // verus!
