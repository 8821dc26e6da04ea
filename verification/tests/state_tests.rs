use shrinkfit_core::state::{
    ControlMode, ControlSettings, ControlStatus, FaultCode, FaultState, Measurements, Store,
};

#[test]
fn defaults_match_power_up_state() {
    let settings = ControlSettings::new();
    assert_eq!(settings.mode, ControlMode::ManualPower);
    assert_eq!(settings.manual_power_mkw, 5_000);
    assert_eq!(settings.target_temp_mc, 120_000);

    let status = ControlStatus::new();
    assert_eq!(status.mode, ControlMode::Idle);
    assert!(!status.heating_enabled);
    assert!(!status.run_active);
    assert!(!status.target_reached);
    assert!(!status.cooldown_active);
    assert_eq!(status.power_setpoint_mkw, 0);
    assert_eq!(status.switching_freq_uhz, 0);
    assert_eq!(status.fault, FaultCode::NoFault);

    let meas = Measurements::new();
    assert!(!meas.valid);
    assert!(!meas.coil_temp_disconnected);
    assert_eq!(meas.dc_voltage_mv, 0);
    assert_eq!(meas.object_temp_mc, 0);

    assert_eq!(FaultState::new().code, FaultCode::NoFault);
}

#[test]
fn snapshot_reads_are_idempotent() {
    let mut store = Store::new();
    let mut m = Measurements::new();
    m.coil_temp_mc = 42_000;
    m.coil_power_mkw = 1_500;
    m.valid = true;
    store.set_measurements(m);

    let first = store.measurements_snapshot();
    let second = store.measurements_snapshot();
    let third = store.measurements_snapshot();
    assert_eq!(first, second);
    assert_eq!(second, third);
    assert_eq!(first.coil_temp_mc, 42_000);

    let s1 = store.settings_snapshot();
    let s2 = store.settings_snapshot();
    assert_eq!(s1, s2);
}

#[test]
fn records_are_independent() {
    let mut store = Store::new();
    let mut settings = ControlSettings::new();
    settings.mode = ControlMode::Temperature;
    settings.target_temp_mc = 200_000;
    store.set_settings(settings);

    assert_eq!(store.settings_snapshot().target_temp_mc, 200_000);
    assert_eq!(store.measurements_snapshot(), Measurements::new());
    assert_eq!(store.current_fault(), FaultCode::NoFault);
}

#[test]
fn apply_fault_reports_edges_only() {
    let mut store = Store::new();
    assert!(!store.apply_fault(FaultCode::NoFault));
    assert!(store.apply_fault(FaultCode::InterlockOpen));
    assert!(!store.apply_fault(FaultCode::InterlockOpen));
    assert_eq!(store.current_fault(), FaultCode::InterlockOpen);
    assert!(store.apply_fault(FaultCode::CoilOverTemp));
    assert!(store.apply_fault(FaultCode::NoFault));
    assert_eq!(store.current_fault(), FaultCode::NoFault);
}

#[test]
fn clear_fault_resets_the_record() {
    let mut store = Store::new();
    store.set_fault(FaultCode::GateDriverFault);
    assert_eq!(store.current_fault(), FaultCode::GateDriverFault);
    store.clear_fault();
    assert_eq!(store.current_fault(), FaultCode::NoFault);
}

#[test]
fn fault_messages_are_fixed() {
    assert_eq!(FaultCode::NoFault.message(), "OK");
    assert_eq!(FaultCode::PowerLimit.message(), "Power limit exceeded");
    assert_eq!(FaultCode::CoilOverTemp.message(), "Coil over-temp");
    assert_eq!(FaultCode::ModuleOverTemp.message(), "SiC module over-temp");
    assert_eq!(FaultCode::PcbOverTemp.message(), "PCB over-temp");
    assert_eq!(FaultCode::InterlockOpen.message(), "Interlock open");
    assert_eq!(FaultCode::GateDriverFault.message(), "Gate driver fault");
    assert_eq!(FaultCode::GateDriverNotReady.message(), "Gate driver not ready");
    assert_eq!(FaultCode::SensorFault.message(), "Sensor fault");
    assert_eq!(FaultCode::CurrentLimit.message(), "Current limit exceeded");
}
