//! Firmware core for a periodic analog-sampling loop: a decimal encoder for
//! samples, and a model of the register-level acquisition state machine that
//! the timer tick, the conversion-complete handler and the main loop drive.

pub mod encoder;
pub mod machine;
