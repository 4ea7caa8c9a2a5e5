//! The fan section of the configuration.

use super::controlled::ControlledFan;
use super::curve::Curve;
use super::error::{FanError, Misconfiguration};
use super::table::compiled;
use super::target::{channel_of, ActuationTarget, PwmChannel};
use vstd::prelude::*;

verus! {

/// How the fan is configured: its curve, how often it is updated, and the
/// pin or hardware PWM channel that drives it. Exactly one of `pin` and
/// `hardware_pwm_channel` has to be present.
#[derive(Debug)]
pub struct Fan {
    pub pin: Option<u8>,
    pub curve: Vec<Curve>,
    pub update_rate: u16,
    pub hardware_pwm_channel: Option<u8>,
}

/// The target that a pair of selectors names: the pin if only a pin is
/// given, the channel if only a channel is given and it exists.
pub open spec fn selected(pin: Option<u8>, channel: Option<u8>) -> Result<
    ActuationTarget,
    FanError,
> {
    match (pin, channel) {
        (Some(pin), None) => Ok(ActuationTarget::SoftwarePin(pin)),
        (None, Some(index)) => match channel_of(index) {
            Some(found) => Ok(ActuationTarget::HardwareChannel(found)),
            None => Err(FanError::Configuration(Misconfiguration::InvalidChannel)),
        },
        (Some(_), Some(_)) => Err(FanError::Configuration(Misconfiguration::TwoTargets)),
        (None, None) => Err(FanError::Configuration(Misconfiguration::NoTarget)),
    }
}

impl Fan {
    pub fn new(
        pin: Option<u8>,
        curve: Vec<Curve>,
        update_rate: u16,
        hardware_pwm_channel: Option<u8>,
    ) -> (fan: Fan)
        ensures
            fan.pin == pin,
            fan.curve == curve,
            fan.update_rate == update_rate,
            fan.hardware_pwm_channel == hardware_pwm_channel,
    {
        Fan { pin, curve, update_rate, hardware_pwm_channel }
    }

    /// The target that this configuration names, or what is wrong with
    /// it. Nothing is asked of the hardware.
    pub fn target(&self) -> (target: Result<ActuationTarget, FanError>)
        ensures
            target == selected(self.pin, self.hardware_pwm_channel),
    {
        match (self.pin, self.hardware_pwm_channel) {
            (Some(pin), None) => Ok(ActuationTarget::SoftwarePin(pin)),
            (None, Some(index)) => match PwmChannel::from_index(index) {
                Ok(found) => Ok(ActuationTarget::HardwareChannel(found)),
                Err(error) => Err(error),
            },
            (Some(_), Some(_)) => Err(FanError::Configuration(Misconfiguration::TwoTargets)),
            (None, None) => Err(FanError::Configuration(Misconfiguration::NoTarget)),
        }
    }

    /// The fan that this configuration describes: its target, and the
    /// table compiled from its curve.
    pub fn init(&self) -> (made: Result<ControlledFan, FanError>)
        requires
            selected(self.pin, self.hardware_pwm_channel) is Ok ==> self.curve@.len() > 0,
        ensures
            match selected(self.pin, self.hardware_pwm_channel) {
                Ok(target) => {
                    &&& made matches Ok(fan)
                    &&& fan.drives() == target
                    &&& fan.table() == compiled(self.curve@)
                },
                Err(error) => made matches Err(found) && found == error,
            },
    {
        match self.target() {
            Ok(target) => Ok(ControlledFan::assemble(target, &self.curve)),
            Err(error) => Err(error),
        }
    }

    /// The time between two updates of the fan, in milliseconds.
    pub fn update_rate(&self) -> (rate: u16)
        ensures
            rate == self.update_rate,
    {
        return self.update_rate;
    }
}

} // verus!
