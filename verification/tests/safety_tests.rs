use shrinkfit_core::safety::{
    check_gpio_faults, detect_measurement_fault, evaluate_fault, should_log_watchdog,
    DigitalInputs, FaultTransition, SafetyMonitor,
};
use shrinkfit_core::state::{FaultCode, Measurements};

fn all_clear() -> DigitalInputs {
    DigitalInputs { interlock_low: false, gate_fault_low: false, gate_ready_low: false }
}

fn nominal_measurements() -> Measurements {
    let mut m = Measurements::new();
    m.coil_temp_mc = 25_000;
    m.pcb_temp_mc = 30_000;
    m.module_temp_mc = 25_000;
    m.object_temp_mc = 20_000;
    m.valid = true;
    m
}

#[test]
fn interlock_outranks_coil_over_temp() {
    let inputs = DigitalInputs { interlock_low: true, gate_fault_low: false, gate_ready_low: false };
    let mut m = nominal_measurements();
    m.coil_temp_mc = 95_000;
    assert_eq!(evaluate_fault(inputs, &m), FaultCode::InterlockOpen);
}

#[test]
fn gpio_priority_order() {
    let both = DigitalInputs { interlock_low: true, gate_fault_low: true, gate_ready_low: true };
    assert_eq!(check_gpio_faults(both), FaultCode::InterlockOpen);
    let fault_and_ready =
        DigitalInputs { interlock_low: false, gate_fault_low: true, gate_ready_low: true };
    assert_eq!(check_gpio_faults(fault_and_ready), FaultCode::GateDriverFault);
    let ready_only =
        DigitalInputs { interlock_low: false, gate_fault_low: false, gate_ready_low: true };
    assert_eq!(check_gpio_faults(ready_only), FaultCode::GateDriverNotReady);
    assert_eq!(check_gpio_faults(all_clear()), FaultCode::NoFault);
}

#[test]
fn each_measurement_fault_has_an_input() {
    let mut m = nominal_measurements();
    m.coil_temp_disconnected = true;
    assert_eq!(detect_measurement_fault(&m), FaultCode::SensorFault);

    let mut m = nominal_measurements();
    m.coil_temp_mc = 80_001;
    assert_eq!(detect_measurement_fault(&m), FaultCode::CoilOverTemp);

    let mut m = nominal_measurements();
    m.module_temp_mc = 35_001;
    assert_eq!(detect_measurement_fault(&m), FaultCode::ModuleOverTemp);

    let mut m = nominal_measurements();
    m.pcb_temp_mc = 85_001;
    assert_eq!(detect_measurement_fault(&m), FaultCode::PcbOverTemp);

    let mut m = nominal_measurements();
    m.coil_power_mkw = 10_501;
    assert_eq!(detect_measurement_fault(&m), FaultCode::PowerLimit);

    let mut m = nominal_measurements();
    m.coil_current_rms_ma = 150_001;
    assert_eq!(detect_measurement_fault(&m), FaultCode::CurrentLimit);

    assert_eq!(detect_measurement_fault(&nominal_measurements()), FaultCode::NoFault);
}

#[test]
fn sensor_fault_outranks_thermal_and_electrical() {
    let mut m = nominal_measurements();
    m.coil_temp_disconnected = true;
    m.coil_temp_mc = 95_000;
    m.coil_power_mkw = 20_000;
    assert_eq!(detect_measurement_fault(&m), FaultCode::SensorFault);
}

#[test]
fn power_and_current_checks_wait_for_valid_measurements() {
    let mut m = nominal_measurements();
    m.valid = false;
    m.coil_power_mkw = 20_000;
    m.coil_current_rms_ma = 800_000;
    assert_eq!(detect_measurement_fault(&m), FaultCode::NoFault);
    m.valid = true;
    assert_eq!(detect_measurement_fault(&m), FaultCode::PowerLimit);
}

#[test]
fn power_fault_needs_the_overshoot_margin() {
    let mut m = nominal_measurements();
    m.coil_power_mkw = 10_500;
    assert_eq!(detect_measurement_fault(&m), FaultCode::NoFault);
    m.coil_power_mkw = 10_501;
    assert_eq!(detect_measurement_fault(&m), FaultCode::PowerLimit);
}

#[test]
fn watchdog_reports_near_limits() {
    let m = nominal_measurements();
    assert!(!should_log_watchdog(&m, FaultCode::NoFault));
    assert!(should_log_watchdog(&m, FaultCode::InterlockOpen));

    let mut warm = nominal_measurements();
    warm.coil_temp_mc = 74_999;
    assert!(!should_log_watchdog(&warm, FaultCode::NoFault));
    warm.coil_temp_mc = 75_000;
    assert!(should_log_watchdog(&warm, FaultCode::NoFault));

    let mut loaded = nominal_measurements();
    loaded.coil_power_mkw = 9_000;
    assert!(should_log_watchdog(&loaded, FaultCode::NoFault));
    loaded.valid = false;
    assert!(!should_log_watchdog(&loaded, FaultCode::NoFault));
}

#[test]
fn step_reports_edges_and_rate_limits_the_watchdog() {
    let mut monitor = SafetyMonitor::new();
    let m = nominal_measurements();
    let open = DigitalInputs { interlock_low: true, gate_fault_low: false, gate_ready_low: false };

    let raised = monitor.step(FaultCode::NoFault, open, &m, 100);
    assert_eq!(raised.code, FaultCode::InterlockOpen);
    assert_eq!(raised.transition, FaultTransition::Raised { code: FaultCode::InterlockOpen });
    assert!(raised.watchdog_log);

    // Still faulted 50 ms later: no edge, and the watchdog holds its tongue.
    let held = monitor.step(FaultCode::InterlockOpen, open, &m, 150);
    assert_eq!(held.transition, FaultTransition::Unchanged);
    assert!(!held.watchdog_log);

    // Two seconds after the first report the watchdog may speak again.
    let again = monitor.step(FaultCode::InterlockOpen, open, &m, 2_100);
    assert_eq!(again.transition, FaultTransition::Unchanged);
    assert!(again.watchdog_log);

    // The condition resolves: a cleared edge carrying the previous code.
    let cleared = monitor.step(FaultCode::InterlockOpen, all_clear(), &m, 2_200);
    assert_eq!(cleared.code, FaultCode::NoFault);
    assert_eq!(
        cleared.transition,
        FaultTransition::Cleared { previous: FaultCode::InterlockOpen }
    );
}
