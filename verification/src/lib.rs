//! Colour-temperature control for display gamma ramps.
//!
//! A temperature in Kelvin becomes a colour factor ([`temperature`]), the
//! factor becomes a gamma ramp of whatever size an output asks for
//! ([`ramp`]), and the [`controller`] takes one temperature to every output
//! of a display. The [`frontend`] holds what the command line and the
//! interactive surface decide.

pub mod controller;
pub mod frontend;
pub mod ramp;
pub mod temperature;

pub use controller::{apply_temperature, Action, BackendError, Controller, Reply};
pub use frontend::{
    exit_code, launch, update, ConnectionError, Display, Message, Mode, ShadeState,
};
pub use ramp::{generate, GammaRamp, RampError, GAMMA_MULT};
pub use temperature::{
    convert, log_argument, ColorFactor, TEMP_DAY, TEMP_MAX, TEMP_NIGHT, TEMP_ZERO, UNIT,
};
