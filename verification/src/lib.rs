//! A simulated stepper-motor peripheral: a software model of the step and
//! direction GPIO lines of a stepper driver, together with a monotonic
//! microsecond clock, so that motor-control logic can run and be observed
//! without real hardware or real time.

pub mod peripheral;
pub mod signal;
pub mod stepper;
pub mod time;
