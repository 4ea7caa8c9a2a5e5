use fan_service::fan::{
    Acquisition, Actuation, ActuationTarget, ControlledFan, Curve, Fan, FanError, Misconfiguration,
    Outcome, PwmChannel, CARRIER_HZ,
};

fn curve() -> Vec<Curve> {
    vec![Curve::new(30, 20), Curve::new(70, 100)]
}

#[test]
fn software_fan_drives_its_pin() {
    let fan = ControlledFan::software(18, curve());
    assert_eq!(fan.target(), ActuationTarget::SoftwarePin(18));
    assert_eq!(*fan.lut(), ControlledFan::generate_lut(&curve()));
}

#[test]
fn hardware_fan_drives_its_channel() {
    let first = ControlledFan::hardware(0, curve()).unwrap();
    assert_eq!(first.target(), ActuationTarget::HardwareChannel(PwmChannel::Pwm0));
    assert_eq!(*first.lut(), ControlledFan::generate_lut(&curve()));
    let second = ControlledFan::hardware(1, curve()).unwrap();
    assert_eq!(second.target(), ActuationTarget::HardwareChannel(PwmChannel::Pwm1));
}

#[test]
fn hardware_channel_two_is_a_configuration_error() {
    let made = ControlledFan::hardware(2, curve());
    assert_eq!(made.err(), Some(FanError::Configuration(Misconfiguration::InvalidChannel)));
}

#[test]
fn every_channel_above_one_is_a_configuration_error() {
    for channel in 2..=255u8 {
        let made = ControlledFan::hardware(channel, Vec::new());
        assert_eq!(made.err(), Some(FanError::Configuration(Misconfiguration::InvalidChannel)));
    }
}

#[test]
fn channel_indices() {
    assert_eq!(PwmChannel::from_index(0), Ok(PwmChannel::Pwm0));
    assert_eq!(PwmChannel::from_index(1), Ok(PwmChannel::Pwm1));
    assert_eq!(
        PwmChannel::from_index(2),
        Err(FanError::Configuration(Misconfiguration::InvalidChannel))
    );
}

#[test]
fn pin_is_claimed_as_an_output() {
    assert_eq!(
        ActuationTarget::SoftwarePin(4).acquisition(),
        Acquisition::OutputPin { pin: 4 }
    );
}

#[test]
fn channel_starts_at_twenty_kilohertz_and_zero_duty() {
    assert_eq!(CARRIER_HZ, 20_000);
    assert_eq!(
        ActuationTarget::HardwareChannel(PwmChannel::Pwm1).acquisition(),
        Acquisition::Channel {
            channel: PwmChannel::Pwm1,
            frequency_hz: 20_000,
            duty_percent: 0,
            inverted: false,
            enabled: true,
        }
    );
}

#[test]
fn update_writes_the_table_entry_to_the_pin() {
    let mut fan = ControlledFan::software(18, curve());
    assert_eq!(
        fan.update(50),
        Actuation::PinPwm { pin: 18, frequency_hz: 20_000, duty_percent: 70 }
    );
    assert_eq!(
        fan.update(0),
        Actuation::PinPwm { pin: 18, frequency_hz: 20_000, duty_percent: 20 }
    );
    assert_eq!(
        fan.update(255),
        Actuation::PinPwm { pin: 18, frequency_hz: 20_000, duty_percent: 100 }
    );
}

#[test]
fn update_writes_the_table_entry_to_the_channel() {
    let mut fan = ControlledFan::hardware(1, curve()).unwrap();
    assert_eq!(
        fan.update(50),
        Actuation::ChannelDuty { channel: PwmChannel::Pwm1, duty_percent: 70 }
    );
    assert_eq!(
        fan.update(90),
        Actuation::ChannelDuty { channel: PwmChannel::Pwm1, duty_percent: 100 }
    );
}

#[test]
fn update_follows_the_table_at_every_temperature() {
    let mut fan = ControlledFan::hardware(0, curve()).unwrap();
    let lut = ControlledFan::generate_lut(&curve());
    for temp in 0..=255u8 {
        assert_eq!(fan.duty(temp), lut[temp as usize]);
        assert_eq!(
            fan.update(temp),
            Actuation::ChannelDuty { channel: PwmChannel::Pwm0, duty_percent: lut[temp as usize] }
        );
    }
}

#[test]
fn same_temperature_gives_the_same_write() {
    let mut fan = ControlledFan::software(12, curve());
    let first = fan.update(55);
    let second = fan.update(55);
    assert_eq!(first, second);
    let between = fan.update(31);
    assert_ne!(first, between);
    assert_eq!(fan.update(55), first);
}

#[test]
fn failed_write_is_an_error_and_leaves_the_table() {
    let mut fan = ControlledFan::software(12, curve());
    let before = *fan.lut();
    let write = fan.update(50);
    assert_eq!(fan.written(Outcome::Failed), Err(FanError::HardwareWrite));
    assert_eq!(*fan.lut(), before);
    assert_eq!(fan.target(), ActuationTarget::SoftwarePin(12));
    assert_eq!(fan.update(50), write);
}

#[test]
fn failed_write_is_the_same_error_on_a_channel() {
    let mut fan = ControlledFan::hardware(0, curve()).unwrap();
    let before = *fan.lut();
    fan.update(50);
    assert_eq!(fan.written(Outcome::Failed), Err(FanError::HardwareWrite));
    assert_eq!(*fan.lut(), before);
}

#[test]
fn completed_write_is_no_error() {
    let mut fan = ControlledFan::software(12, curve());
    fan.update(50);
    assert_eq!(fan.written(Outcome::Done), Ok(()));
}

#[test]
fn claimed_target_is_no_error() {
    assert_eq!(ActuationTarget::SoftwarePin(7).acquired(Outcome::Done), Ok(()));
    assert_eq!(
        ActuationTarget::HardwareChannel(PwmChannel::Pwm0).acquired(Outcome::Done),
        Ok(())
    );
}

#[test]
fn target_that_was_not_claimed_is_an_error() {
    assert_eq!(
        ActuationTarget::SoftwarePin(7).acquired(Outcome::Failed),
        Err(FanError::HardwareAcquisition)
    );
    assert_eq!(
        ActuationTarget::HardwareChannel(PwmChannel::Pwm1).acquired(Outcome::Failed),
        Err(FanError::HardwareAcquisition)
    );
}

#[test]
fn configuration_with_a_pin() {
    let config = Fan::new(Some(18), curve(), 1000, None);
    assert_eq!(config.target(), Ok(ActuationTarget::SoftwarePin(18)));
    let fan = config.init().unwrap();
    assert_eq!(fan.target(), ActuationTarget::SoftwarePin(18));
    assert_eq!(*fan.lut(), ControlledFan::generate_lut(&curve()));
}

#[test]
fn configuration_with_a_channel() {
    let config = Fan::new(None, curve(), 1000, Some(1));
    assert_eq!(config.target(), Ok(ActuationTarget::HardwareChannel(PwmChannel::Pwm1)));
    let fan = config.init().unwrap();
    assert_eq!(fan.target(), ActuationTarget::HardwareChannel(PwmChannel::Pwm1));
    assert_eq!(*fan.lut(), ControlledFan::generate_lut(&curve()));
}

#[test]
fn configuration_with_an_invalid_channel() {
    let config = Fan::new(None, curve(), 1000, Some(2));
    let error = FanError::Configuration(Misconfiguration::InvalidChannel);
    assert_eq!(config.target(), Err(error));
    assert_eq!(config.init().err(), Some(error));
}

#[test]
fn configuration_with_neither_pin_nor_channel() {
    let config = Fan::new(None, curve(), 1000, None);
    let error = FanError::Configuration(Misconfiguration::NoTarget);
    assert_eq!(config.target(), Err(error));
    assert_eq!(config.init().err(), Some(error));
}

#[test]
fn configuration_with_both_pin_and_channel() {
    let config = Fan::new(Some(18), curve(), 1000, Some(0));
    let error = FanError::Configuration(Misconfiguration::TwoTargets);
    assert_eq!(config.target(), Err(error));
    assert_eq!(config.init().err(), Some(error));
    let invalid = Fan::new(Some(18), curve(), 1000, Some(9));
    assert_eq!(invalid.init().err(), Some(error));
}

#[test]
fn configuration_errors_need_no_curve() {
    let config = Fan::new(None, Vec::new(), 1000, None);
    assert_eq!(config.init().err(), Some(FanError::Configuration(Misconfiguration::NoTarget)));
}

#[test]
fn update_rate_is_the_configured_one() {
    assert_eq!(Fan::new(Some(18), curve(), 1000, None).update_rate(), 1000);
    assert_eq!(Fan::new(None, curve(), 0, Some(0)).update_rate(), 0);
    assert_eq!(Fan::new(None, curve(), 65535, Some(0)).update_rate(), 65535);
}

#[test]
fn configuration_keeps_what_it_was_given() {
    let config = Fan::new(Some(3), curve(), 250, Some(1));
    assert_eq!(config.pin, Some(3));
    assert_eq!(config.hardware_pwm_channel, Some(1));
    assert_eq!(config.update_rate, 250);
    assert_eq!(config.curve.len(), 2);
    assert_eq!(config.curve[1].temperature, 70);
    assert_eq!(config.curve[1].percentage, 100);
}

#[test]
fn error_messages() {
    assert_eq!(
        FanError::Configuration(Misconfiguration::InvalidChannel).message(),
        "Invalid PWM channel"
    );
    assert_eq!(
        FanError::Configuration(Misconfiguration::NoTarget).message(),
        "Either pin or pwm channel needs to be present"
    );
    assert_eq!(
        FanError::Configuration(Misconfiguration::TwoTargets).message(),
        "Only one of pin and pwm channel may be present"
    );
    assert_eq!(FanError::HardwareAcquisition.message(), "Failed to initialize fan");
    assert_eq!(FanError::HardwareWrite.message(), "Unable to set pwm");
}

#[test]
fn points_compare_by_temperature() {
    let cool = Curve::new(30, 90);
    let warm = Curve::new(70, 10);
    let also_warm = Curve::new(70, 55);
    assert!(cool < warm);
    assert!(warm > cool);
    assert!(warm == also_warm);
    assert!(warm <= also_warm && warm >= also_warm);
    assert!(cool != warm);
    assert_eq!(cool.partial_cmp(&warm), Some(std::cmp::Ordering::Less));
    assert_eq!(warm.partial_cmp(&also_warm), Some(std::cmp::Ordering::Equal));
    assert_eq!(warm.partial_cmp(&cool), Some(std::cmp::Ordering::Greater));
}

#[test]
fn point_keeps_its_fields() {
    let point = Curve::new(30, 20);
    assert_eq!(point.temperature, 30);
    assert_eq!(point.percentage, 20);
}
