//! Proportional-integral control loop with deadzone handling.
//!
//! One `step` per sampling period: filter the raw set-point and position
//! samples, compute the error between the filtered channels, accumulate the
//! integral term, apply the PI law, and shape the signed drive value into an
//! unsigned duty magnitude plus a direction flag.
//!
//! All quantities are fixed-point integers: filtered values and gains carry
//! three decimal places (milli-units), the integral term six (micro-units),
//! and the drive value nine (nano-units). The integral term is clamped to a
//! fixed bound — without that anti-windup clamp it would grow without bound
//! under sustained error — so every intermediate value provably fits its
//! machine word.

use vstd::prelude::*;
use crate::filter::FilterState;
use crate::filter::filter_step;
use crate::filter::RAW_SAMPLE_MAX;
use crate::filter::SMOOTHING_SCALE;

verus! {

/// Largest gain magnitude, in milli-units: gains live in `[-1000.0, 1000.0]`.
pub const GAIN_LIMIT_MILLI: i64 = 1000 * 1000;

/// Largest sample interval, in milliseconds (1000 seconds).
pub const SAMPLE_INTERVAL_MAX_MILLI: u32 = 1000 * 1000;

/// Anti-windup clamp on the integral term, in micro-units
/// (one million error-milli-unit-seconds).
pub const INTEGRAL_LIMIT_MICRO: i64 = 1000000 * 1000000;

/// Which way the actuator is driven.
#[derive(Clone, Copy, Debug, PartialEq, Eq, Structural)]
pub enum Direction {
    /// Positive drive: set-point above position.
    Forward,
    /// Negative drive: set-point below position.
    Reverse,
    /// Drive magnitude below the deadzone: both channels off.
    Neutral,
}

/// One actuator command: an unsigned duty magnitude and a direction flag.
/// Produced fresh every cycle.
#[derive(Clone, Copy, Debug, PartialEq, Eq, Structural)]
pub struct ActuatorCommand {
    /// Duty magnitude, the rounded absolute drive value saturated to `u16`.
    pub magnitude: u16,
    /// Direction flag; `Neutral` when the magnitude fell below the deadzone.
    pub direction: Direction,
}

/// Why a control-loop configuration was rejected.
#[derive(Clone, Copy, Debug, PartialEq, Eq, Structural)]
pub enum ConfigError {
    /// A smoothing coefficient was outside `(0, 1]` (per-mille `1..=1000`).
    SmoothingOutOfRange,
    /// A gain magnitude was above `GAIN_LIMIT_MILLI`.
    GainOutOfRange,
    /// The sample interval was zero or above `SAMPLE_INTERVAL_MAX_MILLI`.
    SampleIntervalOutOfRange,
}

/// Clamps `v` to `[-limit, limit]`.
pub open spec fn clamp(v: int, limit: int) -> int {
    if v > limit {
        limit
    } else if v < -limit {
        -limit
    } else {
        v
    }
}

/// The integral term after one cycle with error `err_milli`: the error times
/// the sample interval is accumulated, then clamped to the anti-windup bound.
pub open spec fn integral_next(integral_micro: int, err_milli: int, interval_milli: int) -> int {
    clamp(integral_micro + err_milli * interval_milli, INTEGRAL_LIMIT_MICRO as int)
}

/// The PI law, in nano-units: `error * p_gain + integral * i_gain`.
pub open spec fn drive_nano(err_milli: int, p_milli: int, integral_micro: int, i_milli: int) -> int {
    err_milli * p_milli * 1000 + integral_micro * i_milli
}

/// The duty magnitude a drive value denotes: the absolute drive rounded to
/// the nearest whole unit (halves away from zero).
pub open spec fn magnitude_of_drive(drive: int) -> int {
    (dist_zero(drive) + 500000000) / 1000000000
}

/// Absolute value of a drive value.
pub open spec fn dist_zero(v: int) -> int {
    if v >= 0 {
        v
    } else {
        -v
    }
}

/// The actuator command a drive value denotes: the rounded magnitude,
/// saturated to `u16`; below the deadzone the command is `(0, Neutral)`,
/// otherwise the direction follows the sign of the drive (`Forward` for
/// non-negative drive).
pub open spec fn command_of_drive(drive: int, deadzone: u16) -> ActuatorCommand {
    let m = magnitude_of_drive(drive);
    let saturated = if m > 65535 {
        65535int
    } else {
        m
    };
    if saturated < deadzone {
        (ActuatorCommand { magnitude: 0, direction: Direction::Neutral })
    } else {
        (ActuatorCommand {
            magnitude: saturated as u16,
            direction: if drive >= 0 {
                Direction::Forward
            } else {
                Direction::Reverse
            },
        })
    }
}

/// PI sign correctness law, for a cycle whose integral term starts at zero
/// (for instance the first cycle, or any cycle of a pure-proportional loop):
/// with a positive proportional gain and a non-negative integral gain, a
/// filtered set-point above the filtered position yields a strictly positive
/// drive value and never a `Reverse` command, and one below yields a strictly
/// negative drive value and never a `Forward` command — the only other
/// outcome is the `(0, Neutral)` command of a drive inside the deadzone.
/// Exactly equal channels yield a zero drive value and, for any positive
/// deadzone, the `(0, Neutral)` command.
pub proof fn lemma_pi_sign(
    set_point_filtered: int,
    position_filtered: int,
    p_milli: int,
    i_milli: int,
    interval_milli: int,
    deadzone: u16,
)
    requires
        1 <= p_milli <= GAIN_LIMIT_MILLI,
        0 <= i_milli <= GAIN_LIMIT_MILLI,
        1 <= interval_milli <= SAMPLE_INTERVAL_MAX_MILLI,
    ensures
        ({
            let err = set_point_filtered - position_filtered;
            let integ = integral_next(0, err, interval_milli);
            let drive = drive_nano(err, p_milli, integ, i_milli);
            let cmd = command_of_drive(drive, deadzone);
            &&& err > 0 ==> drive > 0 && cmd.direction != Direction::Reverse
            &&& err < 0 ==> drive < 0 && cmd.direction != Direction::Forward
            &&& cmd.direction == Direction::Neutral ==> cmd.magnitude == 0
            &&& err == 0 ==> drive == 0
            &&& err == 0 && deadzone >= 1 ==> cmd == (ActuatorCommand {
                magnitude: 0,
                direction: Direction::Neutral,
            })
        }),
{
    let err = set_point_filtered - position_filtered;
    let integ = integral_next(0, err, interval_milli);
    let drive = drive_nano(err, p_milli, integ, i_milli);
    if err > 0 {
        assert(err * interval_milli >= 1) by (nonlinear_arith)
            requires
                err >= 1,
                interval_milli >= 1,
        ;
        assert(integ >= 1);
        assert(err * p_milli >= 1) by (nonlinear_arith)
            requires
                err >= 1,
                p_milli >= 1,
        ;
        assert(integ * i_milli >= 0) by (nonlinear_arith)
            requires
                integ >= 0,
                i_milli >= 0,
        ;
        assert(err * p_milli * 1000 >= 1000) by (nonlinear_arith)
            requires
                err * p_milli >= 1,
        ;
        assert(drive > 0);
    } else if err < 0 {
        assert(err * interval_milli <= -1) by (nonlinear_arith)
            requires
                err <= -1,
                interval_milli >= 1,
        ;
        assert(integ <= -1);
        assert(err * p_milli <= -1) by (nonlinear_arith)
            requires
                err <= -1,
                p_milli >= 1,
        ;
        assert(integ * i_milli <= 0) by (nonlinear_arith)
            requires
                integ <= -1,
                i_milli >= 0,
        ;
        assert(err * p_milli * 1000 <= -1000) by (nonlinear_arith)
            requires
                err * p_milli <= -1,
        ;
        assert(drive < 0);
    } else {
        assert(err * interval_milli == 0) by (nonlinear_arith)
            requires
                err == 0,
        ;
        assert(integ == clamp(0, INTEGRAL_LIMIT_MICRO as int));
        assert(drive == 0 * p_milli * 1000 + 0 * i_milli);
        assert(0 * p_milli == 0) by (nonlinear_arith);
        assert(0 * i_milli == 0) by (nonlinear_arith);
        assert(magnitude_of_drive(0) == 500000000int / 1000000000);
    }
}

/// Deadzone law: a drive value whose rounded magnitude falls below the
/// deadzone threshold — that is, whose absolute value is below the threshold
/// by more than the half-unit the rounding can add — yields the command
/// `(0, Neutral)`, whatever the sign of the drive.
pub proof fn lemma_deadzone_suppression(drive: int, deadzone: u16)
    requires
        dist_zero(drive) + 500000000 < deadzone * 1000000000,
    ensures
        command_of_drive(drive, deadzone) == (ActuatorCommand {
            magnitude: 0,
            direction: Direction::Neutral,
        }),
{
    let m = magnitude_of_drive(drive);
    vstd::arithmetic::div_mod::lemma_div_is_ordered(
        dist_zero(drive) + 500000000,
        deadzone * 1000000000 - 1,
        1000000000,
    );
    vstd::arithmetic::div_mod::lemma_fundamental_div_mod_converse(
        deadzone * 1000000000 - 1,
        1000000000,
        deadzone - 1,
        999999999,
    );
    assert(m <= deadzone - 1);
    assert(dist_zero(drive) >= 0);
    vstd::arithmetic::div_mod::lemma_div_pos_is_pos(dist_zero(drive) + 500000000, 1000000000);
}

/// The closed control loop: two filtered channels, the accumulated integral
/// term, and the fixed configuration.
///
/// The caller paces `step` at the configured sample interval and must never
/// re-enter it before it returns; the loop holds no timer of its own.
pub struct ControlLoop {
    set_point_filter: FilterState,
    position_filter: FilterState,
    integral_micro: i64,
    p_gain_milli: i64,
    i_gain_milli: i64,
    sample_interval_milli: u32,
    deadzone_magnitude: u16,
}

impl ControlLoop {
    /// The filtered set-point channel.
    pub closed spec fn spec_set_point_filter(self) -> FilterState {
        self.set_point_filter
    }

    /// The filtered position channel.
    pub closed spec fn spec_position_filter(self) -> FilterState {
        self.position_filter
    }

    /// The accumulated integral term, in micro-units.
    pub closed spec fn spec_integral(self) -> i64 {
        self.integral_micro
    }

    /// The proportional gain, in milli-units.
    pub closed spec fn spec_p_gain(self) -> i64 {
        self.p_gain_milli
    }

    /// The integral gain, in milli-units.
    pub closed spec fn spec_i_gain(self) -> i64 {
        self.i_gain_milli
    }

    /// The sample interval, in milliseconds.
    pub closed spec fn spec_sample_interval(self) -> u32 {
        self.sample_interval_milli
    }

    /// The deadzone threshold on the duty magnitude.
    pub closed spec fn spec_deadzone(self) -> u16 {
        self.deadzone_magnitude
    }

    /// A well-formed loop: both filters well-formed, gains and interval in
    /// range, integral within the anti-windup bound.
    pub open spec fn wf(self) -> bool {
        &&& self.spec_set_point_filter().wf()
        &&& self.spec_position_filter().wf()
        &&& -GAIN_LIMIT_MILLI <= self.spec_p_gain() <= GAIN_LIMIT_MILLI
        &&& -GAIN_LIMIT_MILLI <= self.spec_i_gain() <= GAIN_LIMIT_MILLI
        &&& 1 <= self.spec_sample_interval() <= SAMPLE_INTERVAL_MAX_MILLI
        &&& -INTEGRAL_LIMIT_MICRO <= self.spec_integral() <= INTEGRAL_LIMIT_MICRO
    }

    /// Whether a configuration is accepted by `new`.
    pub open spec fn config_ok(
        p_gain_milli: i64,
        i_gain_milli: i64,
        sample_interval_milli: u32,
        smoothing_set_point: u16,
        smoothing_position: u16,
    ) -> bool {
        &&& 1 <= smoothing_set_point <= SMOOTHING_SCALE
        &&& 1 <= smoothing_position <= SMOOTHING_SCALE
        &&& -GAIN_LIMIT_MILLI <= p_gain_milli <= GAIN_LIMIT_MILLI
        &&& -GAIN_LIMIT_MILLI <= i_gain_milli <= GAIN_LIMIT_MILLI
        &&& 1 <= sample_interval_milli <= SAMPLE_INTERVAL_MAX_MILLI
    }

    /// Builds a control loop, validating the configuration and rejecting a
    /// bad one outright rather than letting it corrupt the arithmetic.
    ///
    /// Both filters start at zero and the integral term starts at zero. The
    /// checks run in the order smoothing coefficients, gains, sample
    /// interval; the first failing check names the error.
    pub fn new(
        p_gain_milli: i64,
        i_gain_milli: i64,
        sample_interval_milli: u32,
        smoothing_set_point: u16,
        smoothing_position: u16,
        deadzone_magnitude: u16,
    ) -> (r: Result<ControlLoop, ConfigError>)
        ensures
            r is Ok <==> Self::config_ok(
                p_gain_milli,
                i_gain_milli,
                sample_interval_milli,
                smoothing_set_point,
                smoothing_position,
            ),
            r matches Ok(c) ==> {
                &&& c.wf()
                &&& c.spec_set_point_filter().spec_smoothing() == smoothing_set_point
                &&& c.spec_set_point_filter().spec_value() == 0
                &&& c.spec_position_filter().spec_smoothing() == smoothing_position
                &&& c.spec_position_filter().spec_value() == 0
                &&& c.spec_integral() == 0
                &&& c.spec_p_gain() == p_gain_milli
                &&& c.spec_i_gain() == i_gain_milli
                &&& c.spec_sample_interval() == sample_interval_milli
                &&& c.spec_deadzone() == deadzone_magnitude
            },
            r == Err::<ControlLoop, ConfigError>(ConfigError::SmoothingOutOfRange) <==> !(1
                <= smoothing_set_point <= SMOOTHING_SCALE) || !(1 <= smoothing_position
                <= SMOOTHING_SCALE),
            r == Err::<ControlLoop, ConfigError>(ConfigError::GainOutOfRange) <==> (1
                <= smoothing_set_point <= SMOOTHING_SCALE) && (1 <= smoothing_position
                <= SMOOTHING_SCALE) && (!(-GAIN_LIMIT_MILLI <= p_gain_milli <= GAIN_LIMIT_MILLI)
                || !(-GAIN_LIMIT_MILLI <= i_gain_milli <= GAIN_LIMIT_MILLI)),
            r == Err::<ControlLoop, ConfigError>(ConfigError::SampleIntervalOutOfRange) <==> (1
                <= smoothing_set_point <= SMOOTHING_SCALE) && (1 <= smoothing_position
                <= SMOOTHING_SCALE) && (-GAIN_LIMIT_MILLI <= p_gain_milli <= GAIN_LIMIT_MILLI) && (
            -GAIN_LIMIT_MILLI <= i_gain_milli <= GAIN_LIMIT_MILLI) && !(1 <= sample_interval_milli
                <= SAMPLE_INTERVAL_MAX_MILLI),
    {
        let set_point_filter = match FilterState::new(smoothing_set_point) {
            Some(f) => f,
            None => {
                return Err(ConfigError::SmoothingOutOfRange);
            },
        };
        let position_filter = match FilterState::new(smoothing_position) {
            Some(f) => f,
            None => {
                return Err(ConfigError::SmoothingOutOfRange);
            },
        };
        if p_gain_milli < -GAIN_LIMIT_MILLI || p_gain_milli > GAIN_LIMIT_MILLI
            || i_gain_milli < -GAIN_LIMIT_MILLI || i_gain_milli > GAIN_LIMIT_MILLI {
            return Err(ConfigError::GainOutOfRange);
        }
        if sample_interval_milli < 1 || sample_interval_milli > SAMPLE_INTERVAL_MAX_MILLI {
            return Err(ConfigError::SampleIntervalOutOfRange);
        }
        Ok(ControlLoop {
            set_point_filter,
            position_filter,
            integral_micro: 0,
            p_gain_milli,
            i_gain_milli,
            sample_interval_milli,
            deadzone_magnitude,
        })
    }

    /// One control cycle.
    ///
    /// The raw set-point sample always updates its filter. The position
    /// sample is optional: `None` means the sensor read failed this cycle,
    /// and the position channel keeps its previous filtered value (fail-soft
    /// on transport error). The error between the filtered channels is
    /// accumulated into the clamped integral term, the PI law produces a
    /// signed drive value, and the drive value is shaped into the actuator
    /// command.
    ///
    /// This operation cannot fail; the caller substitutes `None` when the
    /// sensor read fails and enforces the sampling period externally.
    pub fn step(&mut self, raw_set_point: u16, raw_position: Option<u16>) -> (cmd: ActuatorCommand)
        requires
            old(self).wf(),
            raw_set_point <= RAW_SAMPLE_MAX,
            raw_position matches Some(p) ==> p <= RAW_SAMPLE_MAX,
        ensures
            final(self).wf(),
            final(self).spec_p_gain() == old(self).spec_p_gain(),
            final(self).spec_i_gain() == old(self).spec_i_gain(),
            final(self).spec_sample_interval() == old(self).spec_sample_interval(),
            final(self).spec_deadzone() == old(self).spec_deadzone(),
            final(self).spec_set_point_filter().spec_smoothing() == old(self).spec_set_point_filter().spec_smoothing(),
            final(self).spec_position_filter().spec_smoothing() == old(self).spec_position_filter().spec_smoothing(),
            final(self).spec_set_point_filter().spec_value() == filter_step(
                old(self).spec_set_point_filter().spec_value() as int,
                raw_set_point as int * 1000,
                old(self).spec_set_point_filter().spec_smoothing() as int,
            ),
            raw_position matches Some(p) ==> final(self).spec_position_filter().spec_value()
                == filter_step(
                old(self).spec_position_filter().spec_value() as int,
                p as int * 1000,
                old(self).spec_position_filter().spec_smoothing() as int,
            ),
            raw_position is None ==> final(self).spec_position_filter().spec_value() == old(self).spec_position_filter().spec_value(),
            final(self).spec_integral() == integral_next(
                old(self).spec_integral() as int,
                final(self).spec_set_point_filter().spec_value() - final(self).spec_position_filter().spec_value(),
                old(self).spec_sample_interval() as int,
            ),
            cmd == command_of_drive(
                drive_nano(
                    final(self).spec_set_point_filter().spec_value() - final(self).spec_position_filter().spec_value(),
                    old(self).spec_p_gain() as int,
                    final(self).spec_integral() as int,
                    old(self).spec_i_gain() as int,
                ),
                old(self).spec_deadzone(),
            ),
    {
        self.set_point_filter.update(raw_set_point);
        match raw_position {
            Some(p) => self.position_filter.update(p),
            None => {},
        }
        let err_milli: i64 = self.set_point_filter.value_milli() as i64
            - self.position_filter.value_milli() as i64;
        proof {
            assert(err_milli * (self.sample_interval_milli as i64) <= 4095000 * 1000000 && err_milli
                * (self.sample_interval_milli as i64) >= -(4095000 * 1000000)) by (nonlinear_arith)
                requires
                    -4095000 <= err_milli <= 4095000,
                    1 <= self.sample_interval_milli as i64 <= 1000000,
            ;
        }
        let accumulated: i64 = self.integral_micro + err_milli * (
        self.sample_interval_milli as i64);
        self.integral_micro = if accumulated > INTEGRAL_LIMIT_MICRO {
            INTEGRAL_LIMIT_MICRO
        } else if accumulated < -INTEGRAL_LIMIT_MICRO {
            -INTEGRAL_LIMIT_MICRO
        } else {
            accumulated
        };
        proof {
            assert(err_milli * self.p_gain_milli <= 4095000 * 1000000 && err_milli
                * self.p_gain_milli >= -(4095000 * 1000000)) by (nonlinear_arith)
                requires
                    -4095000 <= err_milli <= 4095000,
                    -1000000 <= self.p_gain_milli <= 1000000,
            ;
            assert(self.integral_micro * self.i_gain_milli <= 1000000000000 * 1000000
                && self.integral_micro * self.i_gain_milli >= -(1000000000000 * 1000000))
                by (nonlinear_arith)
                requires
                    -1000000000000 <= self.integral_micro <= 1000000000000,
                    -1000000 <= self.i_gain_milli <= 1000000,
            ;
        }
        let drive: i64 = err_milli * self.p_gain_milli * 1000 + self.integral_micro
            * self.i_gain_milli;
        let drive_abs: u64 = if drive >= 0 {
            drive as u64
        } else {
            (-drive) as u64
        };
        let magnitude_units: u64 = (drive_abs + 500000000) / 1000000000;
        let magnitude: u16 = if magnitude_units > 65535 {
            65535
        } else {
            magnitude_units as u16
        };
        if magnitude < self.deadzone_magnitude {
            ActuatorCommand { magnitude: 0, direction: Direction::Neutral }
        } else if drive >= 0 {
            ActuatorCommand { magnitude, direction: Direction::Forward }
        } else {
            ActuatorCommand { magnitude, direction: Direction::Reverse }
        }
    }

    /// The current filtered set-point, in milli-units.
    pub fn set_point_filtered_milli(&self) -> (v: u64)
        ensures
            v == self.spec_set_point_filter().spec_value(),
    {
        self.set_point_filter.value_milli()
    }

    /// The current filtered position, in milli-units.
    pub fn position_filtered_milli(&self) -> (v: u64)
        ensures
            v == self.spec_position_filter().spec_value(),
    {
        self.position_filter.value_milli()
    }

    /// The accumulated integral term, in micro-units.
    pub fn integral_micro(&self) -> (v: i64)
        ensures
            v == self.spec_integral(),
    {
        self.integral_micro
    }
}

} // verus!
