use position_control::controller::ActuatorCommand;
use position_control::controller::ConfigError;
use position_control::controller::ControlLoop;
use position_control::controller::Direction;

/// A loop whose filters pass samples through unchanged (coefficient 1.0),
/// with proportional gain 10.0, no integral gain, a 100 ms interval, and a
/// deadzone of five duty units.
fn proportional_loop() -> ControlLoop {
    ControlLoop::new(10_000, 0, 100, 1000, 1000, 5).unwrap()
}

#[test]
fn configuration_is_validated() {
    assert_eq!(
        ControlLoop::new(10_000, 0, 100, 0, 1000, 5).err(),
        Some(ConfigError::SmoothingOutOfRange)
    );
    assert_eq!(
        ControlLoop::new(10_000, 0, 100, 1000, 1001, 5).err(),
        Some(ConfigError::SmoothingOutOfRange)
    );
    assert_eq!(
        ControlLoop::new(1_000_001, 0, 100, 1000, 1000, 5).err(),
        Some(ConfigError::GainOutOfRange)
    );
    assert_eq!(
        ControlLoop::new(10_000, -1_000_001, 100, 1000, 1000, 5).err(),
        Some(ConfigError::GainOutOfRange)
    );
    assert_eq!(
        ControlLoop::new(10_000, 0, 0, 1000, 1000, 5).err(),
        Some(ConfigError::SampleIntervalOutOfRange)
    );
    assert_eq!(
        ControlLoop::new(10_000, 0, 1_000_001, 1000, 1000, 5).err(),
        Some(ConfigError::SampleIntervalOutOfRange)
    );
    assert!(ControlLoop::new(10_000, 0, 100, 1000, 1000, 5).is_ok());
}

#[test]
fn end_to_end_proportional_scenario() {
    // Set-point 200, position 150, gain 10.0: error 50.0, drive 500.0,
    // magnitude 500, direction forward.
    let mut control = proportional_loop();
    let cmd = control.step(200, Some(150));
    assert_eq!(control.set_point_filtered_milli(), 200_000);
    assert_eq!(control.position_filtered_milli(), 150_000);
    assert_eq!(cmd, ActuatorCommand { magnitude: 500, direction: Direction::Forward });
}

#[test]
fn set_point_below_position_drives_reverse() {
    let mut control = proportional_loop();
    let cmd = control.step(150, Some(200));
    assert_eq!(cmd, ActuatorCommand { magnitude: 500, direction: Direction::Reverse });
}

#[test]
fn equal_channels_give_neutral() {
    let mut control = proportional_loop();
    let cmd = control.step(100, Some(100));
    assert_eq!(cmd, ActuatorCommand { magnitude: 0, direction: Direction::Neutral });
}

#[test]
fn drive_inside_deadzone_is_suppressed_regardless_of_sign() {
    // Half-strength filters and gain 1.0 give a drive of 0.5 units from a
    // one-count error: magnitude one, below the deadzone of five.
    let mut control = ControlLoop::new(1_000, 0, 100, 500, 500, 5).unwrap();
    let cmd = control.step(1, Some(0));
    assert_eq!(cmd, ActuatorCommand { magnitude: 0, direction: Direction::Neutral });

    let mut control = ControlLoop::new(1_000, 0, 100, 500, 500, 5).unwrap();
    let cmd = control.step(0, Some(1));
    assert_eq!(cmd, ActuatorCommand { magnitude: 0, direction: Direction::Neutral });
}

#[test]
fn missing_position_sample_keeps_previous_filtered_value() {
    let mut control = ControlLoop::new(1_000, 0, 100, 1000, 500, 5).unwrap();
    control.step(0, Some(1000));
    assert_eq!(control.position_filtered_milli(), 500_000);

    // A failed sensor read this cycle: the position channel holds.
    control.step(0, None);
    assert_eq!(control.position_filtered_milli(), 500_000);

    // Transport recovers: filtering resumes from the held value.
    control.step(0, Some(1000));
    assert_eq!(control.position_filtered_milli(), 750_000);
}

#[test]
fn integral_term_accumulates_error_over_time() {
    // Pure-integral loop: gain 1.0, one-second interval, pass-through
    // filters. A constant error of 100 counts adds 100 units of drive per
    // cycle.
    let mut control = ControlLoop::new(0, 1_000, 1_000, 1000, 1000, 1).unwrap();
    let cmd = control.step(100, Some(0));
    assert_eq!(control.integral_micro(), 100_000_000);
    assert_eq!(cmd, ActuatorCommand { magnitude: 100, direction: Direction::Forward });
    let cmd = control.step(100, Some(0));
    assert_eq!(control.integral_micro(), 200_000_000);
    assert_eq!(cmd, ActuatorCommand { magnitude: 200, direction: Direction::Forward });
}

#[test]
fn integral_term_is_clamped_against_windup() {
    // The largest error at the longest interval overshoots the anti-windup
    // bound in one cycle and is clamped to it.
    let mut control = ControlLoop::new(0, 1_000_000, 1_000_000, 1000, 1000, 1).unwrap();
    control.step(4095, Some(0));
    assert_eq!(control.integral_micro(), 1_000_000_000_000);
}

#[test]
fn duty_magnitude_saturates_at_the_platform_maximum() {
    // Gain 1000.0 on a full-range error asks for about four million duty
    // units; the command saturates at the sixteen-bit maximum.
    let mut control = ControlLoop::new(1_000_000, 0, 100, 1000, 1000, 0).unwrap();
    let cmd = control.step(4095, Some(0));
    assert_eq!(cmd, ActuatorCommand { magnitude: 65_535, direction: Direction::Forward });
}

#[test]
fn zero_deadzone_never_goes_neutral() {
    let mut control = ControlLoop::new(10_000, 0, 100, 1000, 1000, 0).unwrap();
    let cmd = control.step(0, Some(0));
    assert_eq!(cmd, ActuatorCommand { magnitude: 0, direction: Direction::Forward });
}
