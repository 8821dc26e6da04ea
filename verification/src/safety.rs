//! The safety monitor: a fixed-priority fault table evaluated every poll,
//! first match wins, with edge-triggered fault-record updates and a
//! rate-limited watchdog report.
//!
//! Priority order: digital safety signals, then sensor integrity, then
//! thermal limits, then electrical limits.  The power and current checks
//! are suppressed until the measurement record is valid; the temperature
//! and digital checks never are.

use vstd::prelude::*;

use crate::num::{sat_add, sat_add_u64};
use crate::state::{
    FaultCode, Measurements, COIL_TEMP_LIMIT_MC, CURRENT_LIMIT_MA, MODULE_TEMP_LIMIT_MC,
    PCB_TEMP_LIMIT_MC,
};

verus! {

/// Power fault threshold: the power limit with a 5 percent overshoot
/// margin, milli-kilowatts.
pub const POWER_FAULT_THRESHOLD_MKW: i64 = 10_500;
/// Power level that already triggers the watchdog report: 90 percent of
/// the power limit, milli-kilowatts.
pub const POWER_WATCH_THRESHOLD_MKW: i64 = 9_000;
/// How close a temperature may come to its limit before the watchdog
/// reports it, milli-degrees Celsius.
pub const EARLY_WARNING_MARGIN_MC: i64 = 5_000;
/// Minimum spacing of two watchdog reports, milliseconds.
pub const WATCHDOG_LOG_INTERVAL_MS: u64 = 2_000;
/// Period of the safety monitor activity, milliseconds.
pub const SAFETY_PERIOD_MS: u64 = 25;

/// Levels of the digital safety inputs.  All three are active low: a low
/// level is the alarming state.
#[derive(Debug, Clone, Copy, PartialEq, Eq, Structural)]
pub struct DigitalInputs {
    pub interlock_low: bool,
    pub gate_fault_low: bool,
    pub gate_ready_low: bool,
}

/// The fault the digital inputs demand, highest priority first.
pub open spec fn spec_gpio_fault(d: DigitalInputs) -> FaultCode {
    if d.interlock_low {
        FaultCode::InterlockOpen
    } else if d.gate_fault_low {
        FaultCode::GateDriverFault
    } else if d.gate_ready_low {
        FaultCode::GateDriverNotReady
    } else {
        FaultCode::NoFault
    }
}

pub fn check_gpio_faults(d: DigitalInputs) -> (r: FaultCode)
    ensures
        r == spec_gpio_fault(d),
{
    if d.interlock_low {
        FaultCode::InterlockOpen
    } else if d.gate_fault_low {
        FaultCode::GateDriverFault
    } else if d.gate_ready_low {
        FaultCode::GateDriverNotReady
    } else {
        FaultCode::NoFault
    }
}

/// The fault the measurement record demands: sensor integrity first, then
/// the three temperature limits, then (only once the record is valid) the
/// power and current limits.
pub open spec fn spec_measurement_fault(m: Measurements) -> FaultCode {
    if m.coil_temp_disconnected {
        FaultCode::SensorFault
    } else if m.coil_temp_mc > COIL_TEMP_LIMIT_MC {
        FaultCode::CoilOverTemp
    } else if m.module_temp_mc > MODULE_TEMP_LIMIT_MC {
        FaultCode::ModuleOverTemp
    } else if m.pcb_temp_mc > PCB_TEMP_LIMIT_MC {
        FaultCode::PcbOverTemp
    } else if m.valid && m.coil_power_mkw > POWER_FAULT_THRESHOLD_MKW {
        FaultCode::PowerLimit
    } else if m.valid && m.coil_current_rms_ma > CURRENT_LIMIT_MA {
        FaultCode::CurrentLimit
    } else {
        FaultCode::NoFault
    }
}

pub fn detect_measurement_fault(m: &Measurements) -> (r: FaultCode)
    ensures
        r == spec_measurement_fault(*m),
{
    if m.coil_temp_disconnected {
        return FaultCode::SensorFault;
    }
    if m.coil_temp_mc > COIL_TEMP_LIMIT_MC {
        return FaultCode::CoilOverTemp;
    }
    if m.module_temp_mc > MODULE_TEMP_LIMIT_MC {
        return FaultCode::ModuleOverTemp;
    }
    if m.pcb_temp_mc > PCB_TEMP_LIMIT_MC {
        return FaultCode::PcbOverTemp;
    }
    if m.valid {
        if m.coil_power_mkw > POWER_FAULT_THRESHOLD_MKW {
            return FaultCode::PowerLimit;
        }
        if m.coil_current_rms_ma > CURRENT_LIMIT_MA {
            return FaultCode::CurrentLimit;
        }
    }
    FaultCode::NoFault
}

/// The whole fault table: the digital inputs take priority over anything
/// the measurements say.
pub open spec fn spec_evaluate_fault(d: DigitalInputs, m: Measurements) -> FaultCode {
    if spec_gpio_fault(d) != FaultCode::NoFault {
        spec_gpio_fault(d)
    } else {
        spec_measurement_fault(m)
    }
}

pub fn evaluate_fault(d: DigitalInputs, m: &Measurements) -> (r: FaultCode)
    ensures
        r == spec_evaluate_fault(d, *m),
{
    let code = check_gpio_faults(d);
    if code != FaultCode::NoFault {
        code
    } else {
        detect_measurement_fault(m)
    }
}

/// A digital safety signal always outranks every measurement-derived
/// fault; in particular, with the interlock open and the coil over its
/// temperature limit at the same time, the monitor reports the open
/// interlock.
pub proof fn lemma_digital_inputs_outrank_measurements(d: DigitalInputs, m: Measurements)
    requires
        spec_gpio_fault(d) != FaultCode::NoFault,
    ensures
        spec_evaluate_fault(d, m) == spec_gpio_fault(d),
        d.interlock_low ==> spec_evaluate_fault(d, m) == FaultCode::InterlockOpen,
{
}

/// The watchdog reports whenever a fault is active or any monitored value
/// is near its limit: a temperature within the early-warning margin, or
/// power at 90 percent of its cap once measurements are valid.
pub open spec fn spec_should_log_watchdog(m: Measurements, code: FaultCode) -> bool {
    ||| code != FaultCode::NoFault
    ||| m.coil_temp_disconnected
    ||| m.coil_temp_mc >= COIL_TEMP_LIMIT_MC - EARLY_WARNING_MARGIN_MC
    ||| m.module_temp_mc >= MODULE_TEMP_LIMIT_MC - EARLY_WARNING_MARGIN_MC
    ||| m.pcb_temp_mc >= PCB_TEMP_LIMIT_MC - EARLY_WARNING_MARGIN_MC
    ||| (m.valid && m.coil_power_mkw >= POWER_WATCH_THRESHOLD_MKW)
}

pub fn should_log_watchdog(m: &Measurements, code: FaultCode) -> (r: bool)
    ensures
        r == spec_should_log_watchdog(*m, code),
{
    if code != FaultCode::NoFault {
        return true;
    }
    m.coil_temp_disconnected
        || m.coil_temp_mc >= COIL_TEMP_LIMIT_MC - EARLY_WARNING_MARGIN_MC
        || m.module_temp_mc >= MODULE_TEMP_LIMIT_MC - EARLY_WARNING_MARGIN_MC
        || m.pcb_temp_mc >= PCB_TEMP_LIMIT_MC - EARLY_WARNING_MARGIN_MC
        || (m.valid && m.coil_power_mkw >= POWER_WATCH_THRESHOLD_MKW)
}

/// How the stored fault code changed on this poll, for edge-triggered
/// logging by the caller.
#[derive(Debug, Clone, Copy, PartialEq, Eq, Structural)]
pub enum FaultTransition {
    Unchanged,
    Raised { code: FaultCode },
    Cleared { previous: FaultCode },
}

/// What one safety poll decided.
#[derive(Debug, Clone, Copy, PartialEq, Eq, Structural)]
pub struct SafetyStep {
    /// The code the fault record must now hold.
    pub code: FaultCode,
    pub transition: FaultTransition,
    /// Emit the watchdog report on this poll.
    pub watchdog_log: bool,
}

/// State the safety monitor carries between polls: when the watchdog may
/// report again.
#[derive(Debug, Clone, Copy, PartialEq, Eq, Structural)]
pub struct SafetyMonitor {
    pub next_watchdog_ms: u64,
}

impl SafetyMonitor {
    /// The watchdog may report at once.
    pub open spec fn spec_new() -> Self {
        SafetyMonitor { next_watchdog_ms: 0 }
    }

    pub fn new() -> (r: Self)
        ensures
            r == Self::spec_new(),
    {
        SafetyMonitor { next_watchdog_ms: 0 }
    }

    /// One poll as a mathematical function.
    pub open spec fn spec_step(
        self,
        stored: FaultCode,
        d: DigitalInputs,
        m: Measurements,
        now_ms: u64,
    ) -> (Self, SafetyStep) {
        let code = spec_evaluate_fault(d, m);
        let transition = if stored != code {
            if code == FaultCode::NoFault {
                FaultTransition::Cleared { previous: stored }
            } else {
                FaultTransition::Raised { code }
            }
        } else {
            FaultTransition::Unchanged
        };
        let watchdog_log = now_ms >= self.next_watchdog_ms && spec_should_log_watchdog(m, code);
        let next = if watchdog_log {
            SafetyMonitor {
                next_watchdog_ms: sat_add(now_ms as int, WATCHDOG_LOG_INTERVAL_MS as int) as u64,
            }
        } else {
            self
        };
        (next, SafetyStep { code, transition, watchdog_log })
    }

    /// One pass of the safety activity.  The caller reads the digital
    /// inputs and a measurement snapshot, hands in the stored fault code,
    /// stores `r.code` back, and logs as `r.transition` and
    /// `r.watchdog_log` say.
    pub fn step(
        &mut self,
        stored: FaultCode,
        d: DigitalInputs,
        m: &Measurements,
        now_ms: u64,
    ) -> (r: SafetyStep)
        ensures
            *final(self) == old(self).spec_step(stored, d, *m, now_ms).0,
            r == old(self).spec_step(stored, d, *m, now_ms).1,
    {
        let code = evaluate_fault(d, m);
        let transition = if stored != code {
            if code == FaultCode::NoFault {
                FaultTransition::Cleared { previous: stored }
            } else {
                FaultTransition::Raised { code }
            }
        } else {
            FaultTransition::Unchanged
        };
        let watchdog_log = now_ms >= self.next_watchdog_ms && should_log_watchdog(m, code);
        if watchdog_log {
            self.next_watchdog_ms = sat_add_u64(now_ms, WATCHDOG_LOG_INTERVAL_MS);
        }
        SafetyStep { code, transition, watchdog_log }
    }
}

} // verus!
