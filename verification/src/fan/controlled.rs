//! The fan itself: a duty-cycle table and the target it is applied to.

use super::curve::Curve;
use super::error::{FanError, Misconfiguration, Outcome};
use super::table::compiled;
use super::target::{actuation_of, channel_of, Actuation, ActuationTarget, PwmChannel, CARRIER_HZ};
use vstd::prelude::*;

verus! {

/// A fan under control: the compiled duty-cycle table, and the pin or
/// channel that the table is applied to.
///
/// The fan decides what is written to the hardware; its caller performs
/// the write and reports how it went.
#[derive(Debug)]
pub struct ControlledFan {
    pub(super) target: ActuationTarget,
    pub(super) lut: [u8; 256],
}

impl ControlledFan {
    /// The duty-cycle table: one percentage for each temperature from 0 to
    /// 255 degrees.
    pub closed spec fn table(&self) -> Seq<u8> {
        self.lut@
    }

    /// The pin or channel that this fan drives.
    pub closed spec fn drives(&self) -> ActuationTarget {
        self.target
    }

    pub(super) fn assemble(target: ActuationTarget, curve: &Vec<Curve>) -> (fan: ControlledFan)
        requires
            curve@.len() > 0,
        ensures
            fan.drives() == target,
            fan.table() == compiled(curve@),
    {
        ControlledFan { target, lut: ControlledFan::generate_lut(curve) }
    }

    /// A fan on a general-purpose pin, driven by software PWM.
    pub fn software(pin: u8, curve: Vec<Curve>) -> (fan: ControlledFan)
        requires
            curve@.len() > 0,
        ensures
            fan.drives() == ActuationTarget::SoftwarePin(pin),
            fan.table() == compiled(curve@),
    {
        ControlledFan::assemble(ActuationTarget::SoftwarePin(pin), &curve)
    }

    /// A fan on a hardware PWM channel. Fails on a channel index other
    /// than 0 and 1, and on nothing else.
    pub fn hardware(channel: u8, curve: Vec<Curve>) -> (made: Result<ControlledFan, FanError>)
        requires
            channel_of(channel) is Some ==> curve@.len() > 0,
        ensures
            match made {
                Ok(fan) => {
                    &&& channel_of(channel) matches Some(found)
                    &&& fan.drives() == ActuationTarget::HardwareChannel(found)
                    &&& fan.table() == compiled(curve@)
                },
                Err(error) => channel_of(channel) is None && error == FanError::Configuration(
                    Misconfiguration::InvalidChannel,
                ),
            },
    {
        match PwmChannel::from_index(channel) {
            Ok(found) => Ok(ControlledFan::assemble(ActuationTarget::HardwareChannel(found), &curve)),
            Err(error) => Err(error),
        }
    }

    /// The pin or channel that this fan drives.
    pub fn target(&self) -> (target: ActuationTarget)
        ensures
            target == self.drives(),
    {
        self.target
    }

    /// The duty cycle, in percent, that the table holds for `temp`.
    pub fn duty(&self, temp: u8) -> (percent: u8)
        ensures
            percent == self.table()[temp as int],
    {
        self.lut[temp as usize]
    }

    /// The whole duty-cycle table.
    pub fn lut(&self) -> (lut: &[u8; 256])
        ensures
            lut@ == self.table(),
    {
        &self.lut
    }

    /// The write that brings the fan to the duty cycle for `temp`: the
    /// table entry for `temp`, on this fan's target. The fan itself does
    /// not change, so the same temperature asks for the same write again.
    pub fn update(&mut self, temp: u8) -> (write: Actuation)
        ensures
            *final(self) == *old(self),
            write == actuation_of(old(self).drives(), old(self).table()[temp as int]),
    {
        let duty_percent = self.lut[temp as usize];
        match self.target {
            ActuationTarget::SoftwarePin(pin) => Actuation::PinPwm {
                pin,
                frequency_hz: CARRIER_HZ,
                duty_percent,
            },
            ActuationTarget::HardwareChannel(channel) => Actuation::ChannelDuty {
                channel,
                duty_percent,
            },
        }
    }

    /// What `update` comes to once its write was attempted: a failed
    /// write is an error, whichever target it was for, and the fan is as
    /// it was.
    pub fn written(&self, outcome: Outcome) -> (result: Result<(), FanError>)
        ensures
            outcome == Outcome::Done ==> result is Ok,
            outcome == Outcome::Failed ==> result == Err::<(), FanError>(FanError::HardwareWrite),
    {
        match outcome {
            Outcome::Done => Ok(()),
            Outcome::Failed => Err(FanError::HardwareWrite),
        }
    }
}

} // verus!
