//! Fixed-point field-oriented control core for a three-phase brushless motor.
//!
//! Signals, gains and angles are integers in fixed-point formats (see [`fixed`]),
//! so that every step of the control pipeline is exact integer arithmetic.
pub mod adc;
pub mod control;
pub mod drv;
pub mod filters;
pub mod fixed;
pub mod pid;
pub mod ring_buffer;
pub mod sbus;
pub mod svpwm;
pub mod throttle;
pub mod transforms;
