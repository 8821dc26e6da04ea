use shrinkfit_core::menu::{
    cooldown_next, fault_screen_next, fit_to_line, manual_config_step, manual_status_next,
    mode_select_index, mode_select_step, screen_mode, temperature_config_step,
    temperature_status_next, ButtonPressed, Screen,
};
use shrinkfit_core::state::{ControlMode, FaultCode};

#[test]
fn screens_pin_the_operating_mode() {
    assert_eq!(screen_mode(Screen::ModeSelect), ControlMode::Idle);
    assert_eq!(screen_mode(Screen::ManualConfig), ControlMode::ManualPower);
    assert_eq!(screen_mode(Screen::ManualStatus), ControlMode::ManualPower);
    assert_eq!(screen_mode(Screen::TemperatureConfig), ControlMode::Temperature);
    assert_eq!(screen_mode(Screen::TemperatureStatus), ControlMode::Temperature);
    assert_eq!(screen_mode(Screen::Cooldown), ControlMode::Cooldown);
}

#[test]
fn mode_selector_flips_and_enters() {
    assert_eq!(mode_select_index(ControlMode::Temperature), 1);
    assert_eq!(mode_select_index(ControlMode::ManualPower), 0);
    assert_eq!(mode_select_index(ControlMode::Idle), 0);

    assert_eq!(mode_select_step(0, ButtonPressed::Up), (1, None));
    assert_eq!(mode_select_step(1, ButtonPressed::Down), (0, None));
    assert_eq!(mode_select_step(0, ButtonPressed::Enter), (0, Some(Screen::ManualConfig)));
    assert_eq!(mode_select_step(1, ButtonPressed::Enter), (1, Some(Screen::TemperatureConfig)));
}

#[test]
fn manual_power_steps_by_half_a_kilowatt_and_clamps() {
    assert_eq!(manual_config_step(5_000, ButtonPressed::Up), (5_500, None));
    assert_eq!(manual_config_step(5_000, ButtonPressed::Down), (4_500, None));
    assert_eq!(manual_config_step(9_800, ButtonPressed::Up), (10_000, None));
    assert_eq!(manual_config_step(200, ButtonPressed::Down), (0, None));
    assert_eq!(
        manual_config_step(5_000, ButtonPressed::Enter),
        (5_000, Some(Screen::ManualStatus))
    );
}

#[test]
fn target_temperature_steps_by_ten_degrees_and_clamps() {
    assert_eq!(temperature_config_step(120_000, ButtonPressed::Up), (130_000, None));
    assert_eq!(temperature_config_step(120_000, ButtonPressed::Down), (110_000, None));
    assert_eq!(temperature_config_step(345_000, ButtonPressed::Up), (350_000, None));
    assert_eq!(temperature_config_step(45_000, ButtonPressed::Down), (40_000, None));
    assert_eq!(
        temperature_config_step(120_000, ButtonPressed::Enter),
        (120_000, Some(Screen::TemperatureStatus))
    );
}

#[test]
fn status_screens_route_by_button_and_progress() {
    assert_eq!(manual_status_next(ButtonPressed::Up), Screen::ManualConfig);
    assert_eq!(manual_status_next(ButtonPressed::Down), Screen::ModeSelect);
    assert_eq!(manual_status_next(ButtonPressed::Enter), Screen::ModeSelect);

    assert_eq!(
        temperature_status_next(ButtonPressed::Enter, true),
        Screen::Cooldown
    );
    assert_eq!(
        temperature_status_next(ButtonPressed::Enter, false),
        Screen::TemperatureConfig
    );
    assert_eq!(
        temperature_status_next(ButtonPressed::Up, false),
        Screen::TemperatureConfig
    );
    assert_eq!(temperature_status_next(ButtonPressed::Down, true), Screen::ModeSelect);

    assert_eq!(cooldown_next(ButtonPressed::Up), Screen::ModeSelect);
    assert_eq!(cooldown_next(ButtonPressed::Enter), Screen::ModeSelect);
}

#[test]
fn fault_display_holds_until_the_fault_clears() {
    assert_eq!(fault_screen_next(FaultCode::InterlockOpen), None);
    assert_eq!(fault_screen_next(FaultCode::SensorFault), None);
    assert_eq!(fault_screen_next(FaultCode::NoFault), Some(Screen::ModeSelect));
}

#[test]
fn lines_are_padded_and_cut_to_the_display_width() {
    let short = fit_to_line(&b"Cooling active".to_vec());
    assert_eq!(short.len(), 16);
    assert_eq!(&short[..14], b"Cooling active");
    assert_eq!(&short[14..], b"  ");

    let long = fit_to_line(&b"Target temperature".to_vec());
    assert_eq!(long, b"Target temperatu".to_vec());

    let empty = fit_to_line(&Vec::new());
    assert_eq!(empty, vec![b' '; 16]);
}
