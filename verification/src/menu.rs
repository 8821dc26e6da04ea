//! Decision logic of the menu layer: which screen follows which button
//! press, which operating mode each screen demands, and how the two
//! adjustable settings step and clamp.
//!
//! The display driver and the button waits live outside the library; they
//! feed button presses in and render the screens the transitions pick.

use vstd::prelude::*;

use crate::num::{clamp_i64, clamped};
use crate::state::{
    ControlMode, FaultCode, POWER_LIMIT_MKW, TARGET_TEMP_MAX_MC, TARGET_TEMP_MIN_MC,
};

verus! {

/// How far one press moves the manual power setting, milli-kilowatts.
pub const MANUAL_STEP_MKW: i64 = 500;
/// How far one press moves the target temperature, milli-degrees Celsius.
pub const TEMP_STEP_MC: i64 = 10_000;
/// Number of columns of the character display.
pub const DISPLAY_COLUMNS: usize = 16;

/// The screens the menu can show.
#[derive(Debug, Clone, Copy, PartialEq, Eq, Structural)]
pub enum Screen {
    ModeSelect,
    ManualConfig,
    ManualStatus,
    TemperatureConfig,
    TemperatureStatus,
    Cooldown,
}

/// One acknowledged button press.
#[derive(Debug, Clone, Copy, PartialEq, Eq, Structural)]
pub enum ButtonPressed {
    Up,
    Down,
    Enter,
}

/// The operating mode each screen keeps the control loop in.
pub open spec fn spec_screen_mode(screen: Screen) -> ControlMode {
    match screen {
        Screen::ModeSelect => ControlMode::Idle,
        Screen::ManualConfig => ControlMode::ManualPower,
        Screen::ManualStatus => ControlMode::ManualPower,
        Screen::TemperatureConfig => ControlMode::Temperature,
        Screen::TemperatureStatus => ControlMode::Temperature,
        Screen::Cooldown => ControlMode::Cooldown,
    }
}

pub fn screen_mode(screen: Screen) -> (mode: ControlMode)
    ensures
        mode == spec_screen_mode(screen),
{
    match screen {
        Screen::ModeSelect => ControlMode::Idle,
        Screen::ManualConfig => ControlMode::ManualPower,
        Screen::ManualStatus => ControlMode::ManualPower,
        Screen::TemperatureConfig => ControlMode::Temperature,
        Screen::TemperatureStatus => ControlMode::Temperature,
        Screen::Cooldown => ControlMode::Cooldown,
    }
}

/// Which mode-select row starts highlighted when the selector opens: the
/// temperature row if that mode was last chosen, else the manual row.
pub fn mode_select_index(current_mode: ControlMode) -> (index: u8)
    ensures
        index == (if current_mode == ControlMode::Temperature {
            1int
        } else {
            0int
        }),
{
    if current_mode == ControlMode::Temperature {
        1
    } else {
        0
    }
}

/// One press on the mode selector: up and down flip between the two rows,
/// enter opens the configuration screen of the highlighted row.
pub fn mode_select_step(index: u8, button: ButtonPressed) -> (r: (u8, Option<Screen>))
    requires
        index <= 1,
    ensures
        r.0 <= 1,
        button != ButtonPressed::Enter ==> r.0 == 1 - index && r.1 is None,
        button == ButtonPressed::Enter ==> r.0 == index && r.1 == Some(
            if index == 0 {
                Screen::ManualConfig
            } else {
                Screen::TemperatureConfig
            },
        ),
{
    match button {
        ButtonPressed::Up => ((index + 1) % 2, None),
        ButtonPressed::Down => ((index + 1) % 2, None),
        ButtonPressed::Enter => {
            if index == 0 {
                (index, Some(Screen::ManualConfig))
            } else {
                (index, Some(Screen::TemperatureConfig))
            }
        },
    }
}

/// One press on the manual power screen: up and down step the setting by
/// half a kilowatt inside its limits, enter moves on to the status screen.
pub fn manual_config_step(value_mkw: i64, button: ButtonPressed) -> (r: (i64, Option<Screen>))
    requires
        0 <= value_mkw <= POWER_LIMIT_MKW,
    ensures
        0 <= r.0 <= POWER_LIMIT_MKW,
        button == ButtonPressed::Up ==> r.0 == clamped(
            value_mkw + MANUAL_STEP_MKW,
            0,
            POWER_LIMIT_MKW as int,
        ) && r.1 is None,
        button == ButtonPressed::Down ==> r.0 == clamped(
            value_mkw - MANUAL_STEP_MKW,
            0,
            POWER_LIMIT_MKW as int,
        ) && r.1 is None,
        button == ButtonPressed::Enter ==> r.0 == value_mkw && r.1 == Some(Screen::ManualStatus),
{
    match button {
        ButtonPressed::Up => (clamp_i64(value_mkw + MANUAL_STEP_MKW, 0, POWER_LIMIT_MKW), None),
        ButtonPressed::Down => (clamp_i64(value_mkw - MANUAL_STEP_MKW, 0, POWER_LIMIT_MKW), None),
        ButtonPressed::Enter => (value_mkw, Some(Screen::ManualStatus)),
    }
}

/// One press on the target temperature screen: up and down step the target
/// by ten degrees inside its limits, enter moves on to the status screen.
pub fn temperature_config_step(value_mc: i64, button: ButtonPressed) -> (r: (i64, Option<Screen>))
    requires
        TARGET_TEMP_MIN_MC <= value_mc <= TARGET_TEMP_MAX_MC,
    ensures
        TARGET_TEMP_MIN_MC <= r.0 <= TARGET_TEMP_MAX_MC,
        button == ButtonPressed::Up ==> r.0 == clamped(
            value_mc + TEMP_STEP_MC,
            TARGET_TEMP_MIN_MC as int,
            TARGET_TEMP_MAX_MC as int,
        ) && r.1 is None,
        button == ButtonPressed::Down ==> r.0 == clamped(
            value_mc - TEMP_STEP_MC,
            TARGET_TEMP_MIN_MC as int,
            TARGET_TEMP_MAX_MC as int,
        ) && r.1 is None,
        button == ButtonPressed::Enter ==> r.0 == value_mc && r.1 == Some(
            Screen::TemperatureStatus,
        ),
{
    match button {
        ButtonPressed::Up => (
            clamp_i64(value_mc + TEMP_STEP_MC, TARGET_TEMP_MIN_MC, TARGET_TEMP_MAX_MC),
            None,
        ),
        ButtonPressed::Down => (
            clamp_i64(value_mc - TEMP_STEP_MC, TARGET_TEMP_MIN_MC, TARGET_TEMP_MAX_MC),
            None,
        ),
        ButtonPressed::Enter => (value_mc, Some(Screen::TemperatureStatus)),
    }
}

/// A press on the manual status screen: up returns to the configuration,
/// enter and down leave for the mode selector.
pub fn manual_status_next(button: ButtonPressed) -> (next: Screen)
    ensures
        next == (match button {
            ButtonPressed::Up => Screen::ManualConfig,
            ButtonPressed::Down => Screen::ModeSelect,
            ButtonPressed::Enter => Screen::ModeSelect,
        }),
{
    match button {
        ButtonPressed::Up => Screen::ManualConfig,
        ButtonPressed::Down => Screen::ModeSelect,
        ButtonPressed::Enter => Screen::ModeSelect,
    }
}

/// A press on the temperature status screen: enter starts the cooldown
/// once the target is reached and otherwise reopens the configuration; up
/// reopens the configuration, down leaves for the mode selector.
pub fn temperature_status_next(button: ButtonPressed, target_reached: bool) -> (next: Screen)
    ensures
        next == (match button {
            ButtonPressed::Up => Screen::TemperatureConfig,
            ButtonPressed::Down => Screen::ModeSelect,
            ButtonPressed::Enter => if target_reached {
                Screen::Cooldown
            } else {
                Screen::TemperatureConfig
            },
        }),
{
    match button {
        ButtonPressed::Up => Screen::TemperatureConfig,
        ButtonPressed::Down => Screen::ModeSelect,
        ButtonPressed::Enter => {
            if target_reached {
                Screen::Cooldown
            } else {
                Screen::TemperatureConfig
            }
        },
    }
}

/// Any press on the cooldown screen ends it and returns to the selector.
pub fn cooldown_next(button: ButtonPressed) -> (next: Screen)
    ensures
        next == Screen::ModeSelect,
{
    let _ = button;
    Screen::ModeSelect
}

/// An active fault captures the display; once it clears the menu restarts
/// at the mode selector.
pub fn fault_screen_next(fault: FaultCode) -> (r: Option<Screen>)
    ensures
        r == (if fault == FaultCode::NoFault {
            Some(Screen::ModeSelect)
        } else {
            Option::<Screen>::None
        }),
{
    if fault == FaultCode::NoFault {
        Some(Screen::ModeSelect)
    } else {
        None
    }
}

/// A display line: the text cut to the display width and padded on the
/// right with spaces, so every write covers the whole row.
pub fn fit_to_line(text: &Vec<u8>) -> (line: Vec<u8>)
    ensures
        line@.len() == DISPLAY_COLUMNS,
        forall|j: int|
            0 <= j < DISPLAY_COLUMNS ==> #[trigger] line@[j] == (if j < text@.len() {
                text@[j]
            } else {
                32u8
            }),
{
    let mut line: Vec<u8> = Vec::new();
    let mut idx: usize = 0;
    while idx < DISPLAY_COLUMNS
        invariant
            idx <= DISPLAY_COLUMNS,
            line@.len() == idx,
            forall|j: int|
                0 <= j < idx ==> #[trigger] line@[j] == (if j < text@.len() {
                    text@[j]
                } else {
                    32u8
                }),
        decreases DISPLAY_COLUMNS - idx,
    {
        if idx < text.len() {
            line.push(text[idx]);
        } else {
            line.push(32);
        }
        idx = idx + 1;
    }
    line
}

} // verus!
