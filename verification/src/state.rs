//! Shared state records and the store that holds them.
//!
//! Four independently held records couple the components: measurements
//! (written by sensor fusion), control settings (written by the menu layer),
//! control status (written by the control loop), and the fault state
//! (written by the safety monitor).  Each record is plain data with a
//! well-formedness invariant; the store hands out snapshot copies and
//! replaces whole records, so a reader always sees a consistent record.

use vstd::prelude::*;

verus! {

/// Maximum coil power the controller may request, in milli-kilowatts.
pub const POWER_LIMIT_MKW: i64 = 10_000;
/// Upper bound of the power measurement itself, in milli-kilowatts.
pub const POWER_MEASURE_MAX_MKW: i64 = 20_000;
/// Coil current limit, in milliamps.
pub const CURRENT_LIMIT_MA: i64 = 150_000;
/// Largest representable current measurement, in milliamps.
pub const CURRENT_MEASURE_MAX_MA: i64 = 900_000;
/// Largest representable DC bus voltage, in millivolts.
pub const VOLTAGE_MEASURE_MAX_MV: i64 = 1_000_000;
/// Coil temperature fault limit, in milli-degrees Celsius.
pub const COIL_TEMP_LIMIT_MC: i64 = 80_000;
/// Power-module temperature fault limit, in milli-degrees Celsius.
pub const MODULE_TEMP_LIMIT_MC: i64 = 35_000;
/// Circuit-board temperature fault limit, in milli-degrees Celsius.
pub const PCB_TEMP_LIMIT_MC: i64 = 85_000;
/// Lowest temperature any sensor may report, in milli-degrees Celsius.
pub const TEMP_MEASURE_MIN_MC: i64 = -273_150;
/// Highest temperature any sensor may report, in milli-degrees Celsius.
pub const TEMP_MEASURE_MAX_MC: i64 = 1_100_000;
/// Lowest selectable target temperature, in milli-degrees Celsius.
pub const TARGET_TEMP_MIN_MC: i64 = 40_000;
/// Highest selectable target temperature, in milli-degrees Celsius.
pub const TARGET_TEMP_MAX_MC: i64 = 350_000;

/// Operating mode of the control loop.  Exactly one mode is active; any
/// transition resets the controllers.
#[derive(Debug, Clone, Copy, PartialEq, Eq, Structural)]
pub enum ControlMode {
    Idle,
    ManualPower,
    Temperature,
    Cooldown,
}

/// Settings written by the menu layer and read by the control loop.
#[derive(Debug, Clone, Copy, PartialEq, Eq, Structural)]
pub struct ControlSettings {
    pub mode: ControlMode,
    /// Requested power in manual mode, milli-kilowatts.
    pub manual_power_mkw: i64,
    /// Requested workpiece temperature, milli-degrees Celsius.
    pub target_temp_mc: i64,
}

impl ControlSettings {
    /// The settings are inside the ranges the menu layer may select.
    pub open spec fn wf(&self) -> bool {
        &&& 0 <= self.manual_power_mkw <= POWER_LIMIT_MKW
        &&& TARGET_TEMP_MIN_MC <= self.target_temp_mc <= TARGET_TEMP_MAX_MC
    }

    /// Default settings: manual mode at 5 kW, 120 degrees Celsius target.
    pub open spec fn initial() -> Self {
        ControlSettings { mode: ControlMode::ManualPower, manual_power_mkw: 5_000, target_temp_mc: 120_000 }
    }

    pub fn new() -> (r: Self)
        ensures
            r == Self::initial(),
            r.wf(),
    {
        ControlSettings { mode: ControlMode::ManualPower, manual_power_mkw: 5_000, target_temp_mc: 120_000 }
    }
}

/// Status published by the control loop every tick, for display consumers.
#[derive(Debug, Clone, Copy, PartialEq, Eq, Structural)]
pub struct ControlStatus {
    pub mode: ControlMode,
    pub heating_enabled: bool,
    pub run_active: bool,
    pub target_reached: bool,
    pub cooldown_active: bool,
    /// Power setpoint handed to the inner controller, milli-kilowatts.
    pub power_setpoint_mkw: i64,
    /// Switching frequency driven onto the power stage, microhertz.
    pub switching_freq_uhz: i64,
    pub fault: FaultCode,
}

impl ControlStatus {
    /// Everything off and no fault, as published before the first tick.
    pub open spec fn initial() -> Self {
        ControlStatus {
            mode: ControlMode::Idle,
            heating_enabled: false,
            run_active: false,
            target_reached: false,
            cooldown_active: false,
            power_setpoint_mkw: 0,
            switching_freq_uhz: 0,
            fault: FaultCode::NoFault,
        }
    }

    pub fn new() -> (r: Self)
        ensures
            r == Self::initial(),
    {
        ControlStatus {
            mode: ControlMode::Idle,
            heating_enabled: false,
            run_active: false,
            target_reached: false,
            cooldown_active: false,
            power_setpoint_mkw: 0,
            switching_freq_uhz: 0,
            fault: FaultCode::NoFault,
        }
    }
}

/// Calibrated, smoothed measurements written by sensor fusion.
#[derive(Debug, Clone, Copy, PartialEq, Eq, Structural)]
pub struct Measurements {
    /// DC bus voltage (RMS over the sample window), millivolts.
    pub dc_voltage_mv: i64,
    /// Coil current (RMS over the sample window), milliamps.
    pub coil_current_rms_ma: i64,
    /// Mean coil power over the sample window, milli-kilowatts.
    pub coil_power_mkw: i64,
    /// Coil thermistor temperature, milli-degrees Celsius.
    pub coil_temp_mc: i64,
    /// Circuit-board sensor temperature, milli-degrees Celsius.
    pub pcb_temp_mc: i64,
    /// Power-module thermistor temperature, milli-degrees Celsius.
    pub module_temp_mc: i64,
    /// Infrared workpiece temperature, milli-degrees Celsius.
    pub object_temp_mc: i64,
    /// The RMS window has produced at least one result; gates the
    /// power and current fault checks.
    pub valid: bool,
    /// The coil temperature sense line reads open-circuit.
    pub coil_temp_disconnected: bool,
}

impl Measurements {
    /// Every value is inside the range its producer clamps to.
    pub open spec fn wf(&self) -> bool {
        &&& 0 <= self.dc_voltage_mv <= VOLTAGE_MEASURE_MAX_MV
        &&& 0 <= self.coil_current_rms_ma <= CURRENT_MEASURE_MAX_MA
        &&& 0 <= self.coil_power_mkw <= POWER_MEASURE_MAX_MKW
        &&& TEMP_MEASURE_MIN_MC <= self.coil_temp_mc <= TEMP_MEASURE_MAX_MC
        &&& TEMP_MEASURE_MIN_MC <= self.pcb_temp_mc <= TEMP_MEASURE_MAX_MC
        &&& TEMP_MEASURE_MIN_MC <= self.module_temp_mc <= TEMP_MEASURE_MAX_MC
        &&& TEMP_MEASURE_MIN_MC <= self.object_temp_mc <= TEMP_MEASURE_MAX_MC
    }

    /// All channels at zero and not yet valid, as before any sensor write.
    pub open spec fn initial() -> Self {
        Measurements {
            dc_voltage_mv: 0,
            coil_current_rms_ma: 0,
            coil_power_mkw: 0,
            coil_temp_mc: 0,
            pcb_temp_mc: 0,
            module_temp_mc: 0,
            object_temp_mc: 0,
            valid: false,
            coil_temp_disconnected: false,
        }
    }

    pub fn new() -> (r: Self)
        ensures
            r == Self::initial(),
            r.wf(),
    {
        Measurements {
            dc_voltage_mv: 0,
            coil_current_rms_ma: 0,
            coil_power_mkw: 0,
            coil_temp_mc: 0,
            pcb_temp_mc: 0,
            module_temp_mc: 0,
            object_temp_mc: 0,
            valid: false,
            coil_temp_disconnected: false,
        }
    }
}

/// The prioritized fault taxonomy; exactly one code is active at a time.
#[derive(Debug, Clone, Copy, PartialEq, Eq, Structural)]
pub enum FaultCode {
    NoFault,
    PowerLimit,
    CoilOverTemp,
    ModuleOverTemp,
    PcbOverTemp,
    InterlockOpen,
    GateDriverFault,
    GateDriverNotReady,
    SensorFault,
    CurrentLimit,
}

impl FaultCode {
    /// The fixed human-readable message for this code.
    pub open spec fn spec_message(self) -> Seq<char> {
        match self {
            FaultCode::NoFault => "OK"@,
            FaultCode::PowerLimit => "Power limit exceeded"@,
            FaultCode::CoilOverTemp => "Coil over-temp"@,
            FaultCode::ModuleOverTemp => "SiC module over-temp"@,
            FaultCode::PcbOverTemp => "PCB over-temp"@,
            FaultCode::InterlockOpen => "Interlock open"@,
            FaultCode::GateDriverFault => "Gate driver fault"@,
            FaultCode::GateDriverNotReady => "Gate driver not ready"@,
            FaultCode::SensorFault => "Sensor fault"@,
            FaultCode::CurrentLimit => "Current limit exceeded"@,
        }
    }

    pub fn message(self) -> (r: &'static str)
        ensures
            r@ == self.spec_message(),
    {
        match self {
            FaultCode::NoFault => "OK",
            FaultCode::PowerLimit => "Power limit exceeded",
            FaultCode::CoilOverTemp => "Coil over-temp",
            FaultCode::ModuleOverTemp => "SiC module over-temp",
            FaultCode::PcbOverTemp => "PCB over-temp",
            FaultCode::InterlockOpen => "Interlock open",
            FaultCode::GateDriverFault => "Gate driver fault",
            FaultCode::GateDriverNotReady => "Gate driver not ready",
            FaultCode::SensorFault => "Sensor fault",
            FaultCode::CurrentLimit => "Current limit exceeded",
        }
    }
}

/// The fault record: the single active fault code.
#[derive(Debug, Clone, Copy, PartialEq, Eq, Structural)]
pub struct FaultState {
    pub code: FaultCode,
}

impl FaultState {
    /// No active fault.
    pub open spec fn initial() -> Self {
        FaultState { code: FaultCode::NoFault }
    }

    pub fn new() -> (r: Self)
        ensures
            r == (FaultState { code: FaultCode::NoFault }),
    {
        FaultState { code: FaultCode::NoFault }
    }
}

/// The shared state store: the four records, each replaced whole and read
/// as a snapshot copy.  Reading never changes the store, so two reads with
/// no write in between return the same record.
pub struct Store {
    pub measurements: Measurements,
    pub settings: ControlSettings,
    pub status: ControlStatus,
    pub fault: FaultState,
}

impl Store {
    /// The writable records respect their invariants.
    pub open spec fn wf(&self) -> bool {
        &&& self.measurements.wf()
        &&& self.settings.wf()
    }

    pub fn new() -> (r: Self)
        ensures
            r.measurements == Measurements::initial(),
            r.settings == ControlSettings::initial(),
            r.status == ControlStatus::initial(),
            r.fault == FaultState::initial(),
            r.wf(),
    {
        Store {
            measurements: Measurements::new(),
            settings: ControlSettings::new(),
            status: ControlStatus::new(),
            fault: FaultState::new(),
        }
    }

    /// Snapshot of the measurement record; a pure read.
    pub fn measurements_snapshot(&self) -> (r: Measurements)
        ensures
            r == self.measurements,
    {
        self.measurements
    }

    /// Snapshot of the control settings; a pure read.
    pub fn settings_snapshot(&self) -> (r: ControlSettings)
        ensures
            r == self.settings,
    {
        self.settings
    }

    /// Snapshot of the control status; a pure read.
    pub fn status_snapshot(&self) -> (r: ControlStatus)
        ensures
            r == self.status,
    {
        self.status
    }

    /// The currently active fault code; a pure read.
    pub fn current_fault(&self) -> (r: FaultCode)
        ensures
            r == self.fault.code,
    {
        self.fault.code
    }

    /// Replace the measurement record (sensor fusion is its only writer).
    pub fn set_measurements(&mut self, m: Measurements)
        requires
            m.wf(),
            old(self).wf(),
        ensures
            *final(self) == (Store { measurements: m, ..*old(self) }),
            final(self).wf(),
    {
        self.measurements = m;
    }

    /// Replace the settings record (the menu layer is its only writer).
    pub fn set_settings(&mut self, s: ControlSettings)
        requires
            s.wf(),
            old(self).wf(),
        ensures
            *final(self) == (Store { settings: s, ..*old(self) }),
            final(self).wf(),
    {
        self.settings = s;
    }

    /// Replace the status record (the control loop is its only writer).
    pub fn set_status(&mut self, s: ControlStatus)
        requires
            old(self).wf(),
        ensures
            *final(self) == (Store { status: s, ..*old(self) }),
            final(self).wf(),
    {
        self.status = s;
    }

    /// Replace the fault code (the safety monitor is its only writer).
    pub fn set_fault(&mut self, code: FaultCode)
        requires
            old(self).wf(),
        ensures
            *final(self) == (Store { fault: FaultState { code }, ..*old(self) }),
            final(self).wf(),
    {
        self.fault = FaultState { code };
    }

    /// Store a newly evaluated fault code, writing the record only when it
    /// actually changes; the answer says whether it did, so the caller can
    /// log the edge.
    pub fn apply_fault(&mut self, code: FaultCode) -> (changed: bool)
        requires
            old(self).wf(),
        ensures
            changed == (old(self).fault.code != code),
            *final(self) == (Store { fault: FaultState { code }, ..*old(self) }),
            final(self).wf(),
    {
        if self.fault.code != code {
            self.fault = FaultState { code };
            true
        } else {
            false
        }
    }

    /// Force the fault record back to no fault (operator acknowledgment).
    pub fn clear_fault(&mut self)
        requires
            old(self).wf(),
        ensures
            *final(self) == (Store { fault: FaultState { code: FaultCode::NoFault }, ..*old(self) }),
            final(self).wf(),
    {
        self.fault = FaultState { code: FaultCode::NoFault };
    }
}

} // verus!
