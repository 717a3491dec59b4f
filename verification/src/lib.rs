//! Closed-loop position control.
//!
//! The crate has two parts: a driver for the AS5600 absolute rotary encoder,
//! which decodes a two-byte register read into a 12-bit raw angle, and a
//! control loop that low-pass filters a noisy set-point and position reading,
//! applies a proportional-integral law, and shapes the result into a
//! direction-aware actuator command.
//!
//! All arithmetic is fixed-point over integers: filtered values and angles
//! are carried in thousandths (milli-units), so every step of the loop has an
//! exact, machine-checked contract.

pub mod controller;
pub mod filter;
pub mod sensor;
