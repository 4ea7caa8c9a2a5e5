//! What a fan drives, and what the hardware is asked to do.

use super::error::{FanError, Misconfiguration, Outcome};
use vstd::prelude::*;

verus! {

/// The carrier frequency of every PWM signal the fan uses, in hertz.
pub const CARRIER_HZ: u32 = 20_000;

/// A hardware PWM channel.
#[derive(Debug, Clone, Copy, PartialEq, Eq, Structural)]
pub enum PwmChannel {
    Pwm0,
    Pwm1,
}

/// The one mechanism a fan is driven by.
#[derive(Debug, Clone, Copy, PartialEq, Eq, Structural)]
pub enum ActuationTarget {
    /// A general-purpose output pin, driven by software-timed PWM.
    SoftwarePin(u8),
    /// A hardware PWM channel.
    HardwareChannel(PwmChannel),
}

/// What has to be claimed from the hardware before a fan can run.
#[derive(Debug, Clone, Copy, PartialEq, Eq, Structural)]
pub enum Acquisition {
    /// Claim the pin as an output that starts low.
    OutputPin { pin: u8 },
    /// Claim the channel and start it: carrier frequency in hertz, duty
    /// cycle in percent, polarity, and whether the channel is enabled.
    Channel { channel: PwmChannel, frequency_hz: u32, duty_percent: u8, inverted: bool, enabled: bool },
}

/// One write to the hardware.
#[derive(Debug, Clone, Copy, PartialEq, Eq, Structural)]
pub enum Actuation {
    /// Software PWM on a pin: carrier frequency in hertz and duty cycle in
    /// percent.
    PinPwm { pin: u8, frequency_hz: u32, duty_percent: u8 },
    /// The duty cycle of a hardware channel, in percent.
    ChannelDuty { channel: PwmChannel, duty_percent: u8 },
}

/// The channel with the given index, if there is one.
pub open spec fn channel_of(index: u8) -> Option<PwmChannel> {
    if index == 0 {
        Some(PwmChannel::Pwm0)
    } else if index == 1 {
        Some(PwmChannel::Pwm1)
    } else {
        None
    }
}

/// What claiming `target` asks of the hardware. A channel starts at the
/// carrier frequency with a duty cycle of zero, normal polarity, enabled.
pub open spec fn acquisition_of(target: ActuationTarget) -> Acquisition {
    match target {
        ActuationTarget::SoftwarePin(pin) => Acquisition::OutputPin { pin },
        ActuationTarget::HardwareChannel(channel) => Acquisition::Channel {
            channel,
            frequency_hz: CARRIER_HZ,
            duty_percent: 0,
            inverted: false,
            enabled: true,
        },
    }
}

/// The write that sets `target` to a duty cycle of `duty_percent`.
pub open spec fn actuation_of(target: ActuationTarget, duty_percent: u8) -> Actuation {
    match target {
        ActuationTarget::SoftwarePin(pin) => Actuation::PinPwm {
            pin,
            frequency_hz: CARRIER_HZ,
            duty_percent,
        },
        ActuationTarget::HardwareChannel(channel) => Actuation::ChannelDuty {
            channel,
            duty_percent,
        },
    }
}

impl PwmChannel {
    /// The channel with the given index. Only 0 and 1 name a channel.
    pub fn from_index(index: u8) -> (found: Result<PwmChannel, FanError>)
        ensures
            match found {
                Ok(channel) => channel_of(index) == Some(channel),
                Err(error) => channel_of(index) is None && error == FanError::Configuration(
                    Misconfiguration::InvalidChannel,
                ),
            },
    {
        if index == 0 {
            Ok(PwmChannel::Pwm0)
        } else if index == 1 {
            Ok(PwmChannel::Pwm1)
        } else {
            Err(FanError::Configuration(Misconfiguration::InvalidChannel))
        }
    }
}

impl ActuationTarget {
    /// What has to be claimed from the hardware for this target.
    pub fn acquisition(&self) -> (claim: Acquisition)
        ensures
            claim == acquisition_of(*self),
    {
        match self {
            ActuationTarget::SoftwarePin(pin) => Acquisition::OutputPin { pin: *pin },
            ActuationTarget::HardwareChannel(channel) => Acquisition::Channel {
                channel: *channel,
                frequency_hz: CARRIER_HZ,
                duty_percent: 0,
                inverted: false,
                enabled: true,
            },
        }
    }

    /// What claiming this target comes to once it was attempted: a failed
    /// claim is an error, whichever target it was for.
    pub fn acquired(&self, outcome: Outcome) -> (result: Result<(), FanError>)
        ensures
            outcome == Outcome::Done ==> result is Ok,
            outcome == Outcome::Failed ==> result == Err::<(), FanError>(
                FanError::HardwareAcquisition,
            ),
    {
        match outcome {
            Outcome::Done => Ok(()),
            Outcome::Failed => Err(FanError::HardwareAcquisition),
        }
    }
}

} // verus!
