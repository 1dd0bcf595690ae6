//! What the two front ends decide: how a start of the program goes on, and
//! which temperature each action of the interactive surface asks for.
//!
//! Nothing here touches a display. A front end opens the connection, tells
//! [`launch`] how that went, and applies the temperatures that [`launch`] and
//! [`update`] hand back.

use crate::temperature::{TEMP_DAY, TEMP_NIGHT, TEMP_ZERO};
use vstd::prelude::*;

verus! {

/// Exit code of a run that got its display connection.
pub const EXIT_SUCCESS: i32 = 0;

/// Exit code of a run that could not reach a display server.
pub const EXIT_NO_DISPLAY: i32 = 1;

/// The display connection as it stands after the attempt to open it.
#[derive(Clone, Copy, Debug, PartialEq, Eq)]
pub enum Display {
    /// No display server could be reached.
    Unreachable,
    /// A session is open, and `screen` is the server's default screen.
    Open { screen: i32 },
}

/// No display server could be reached.
#[derive(Clone, Copy, Debug, PartialEq, Eq)]
pub struct ConnectionError {}

/// What the interactive surface keeps between two actions: the temperature
/// last asked for.
#[derive(Clone, Copy, Debug, PartialEq, Eq)]
pub struct ShadeState {
    pub temp: u32,
}

/// An action of the interactive surface.
#[derive(Clone, Copy, Debug, PartialEq, Eq)]
pub enum Message {
    /// The continuous control was moved to this temperature.
    ChangeTemp(u32),
    /// The day preset.
    SetDay,
    /// The night preset.
    SetNight,
    /// The preset for the zero reference, where only red is left.
    SetAstro,
    /// Back to the neutral temperature.
    Reset,
}

/// How a program that has its display connection goes on.
#[derive(Clone, Copy, Debug, PartialEq, Eq)]
pub enum Mode {
    /// Apply `temp` once and leave.
    OneShot { screen: i32, temp: u32 },
    /// Hand control to the interactive surface, which starts from `state`.
    Interactive { screen: i32, state: ShadeState },
}

/// The temperature that `message` asks for.
pub open spec fn requested(message: Message) -> u32 {
    match message {
        Message::ChangeTemp(temp) => temp,
        Message::SetDay => TEMP_DAY,
        Message::SetNight => TEMP_NIGHT,
        Message::SetAstro => TEMP_ZERO,
        Message::Reset => TEMP_DAY,
    }
}

/// How a start with the connection `display` and the requested one-shot
/// temperature `set_temp` goes on.
pub open spec fn launch_of(display: Display, set_temp: Option<u32>) -> Result<
    Mode,
    ConnectionError,
> {
    match display {
        Display::Unreachable => Err(ConnectionError {  }),
        Display::Open { screen } => match set_temp {
            Some(temp) => Ok(Mode::OneShot { screen, temp }),
            None => Ok(Mode::Interactive { screen, state: ShadeState { temp: TEMP_DAY } }),
        },
    }
}

/// Resetting asks for the same temperature as the day preset.
pub proof fn lemma_reset_is_day()
    ensures
        requested(Message::Reset) == requested(Message::SetDay),
        requested(Message::Reset) == TEMP_DAY,
{
}

/// Decides how the program goes on: it fails without a display, applies a
/// temperature once where one was asked for, and otherwise runs the
/// interactive surface from the neutral temperature.
pub fn launch(display: Display, set_temp: Option<u32>) -> (mode: Result<Mode, ConnectionError>)
    ensures
        mode == launch_of(display, set_temp),
        mode is Err <==> display is Unreachable,
{
    match display {
        Display::Unreachable => Err(ConnectionError {  }),
        Display::Open { screen } => match set_temp {
            Some(temp) => Ok(Mode::OneShot { screen, temp }),
            None => Ok(Mode::Interactive { screen, state: ShadeState { temp: TEMP_DAY } }),
        },
    }
}

/// The exit code of a program that started as `mode` says: only a missing
/// display connection makes it fail.
pub fn exit_code(mode: &Result<Mode, ConnectionError>) -> (code: i32)
    ensures
        code == (if mode is Ok {
            EXIT_SUCCESS
        } else {
            EXIT_NO_DISPLAY
        }),
{
    match mode {
        Ok(_) => EXIT_SUCCESS,
        Err(_) => EXIT_NO_DISPLAY,
    }
}

/// Takes one action of the interactive surface: records the temperature it
/// asks for as the current one and returns it, for the caller to apply.
pub fn update(state: &mut ShadeState, message: Message) -> (temp: u32)
    ensures
        temp == requested(message),
        final(state).temp == requested(message),
{
    let temp: u32 = match message {
        Message::ChangeTemp(temp) => temp,
        Message::SetDay => TEMP_DAY,
        Message::SetNight => TEMP_NIGHT,
        Message::SetAstro => TEMP_ZERO,
        Message::Reset => TEMP_DAY,
    };
    state.temp = temp;
    temp
}

} // verus!
