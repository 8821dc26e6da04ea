//! The control loop: the operating-mode state machine, the run-button
//! latch, and the two cascaded PI controllers.
//!
//! One call of [`ControlLoop::tick`] is one pass of the periodic control
//! activity.  It consumes snapshots of the settings, measurements and fault
//! records plus the raw run-button level and the current time, and returns
//! the drive outputs for the power stage together with the status record to
//! publish.  The whole tick is specified by the spec function
//! [`ControlLoop::spec_tick`], so every behavioural property of the loop is
//! a statement about that one function.
//!
//! Gains are stated with the 10 ms control period already folded in, so a
//! controller update is one tick.

use vstd::prelude::*;

use crate::num::{clamp_i64, clamped, sat_sub, sat_sub_u64};
use crate::state::{
    ControlMode, ControlSettings, ControlStatus, FaultCode, Measurements, POWER_LIMIT_MKW,
    POWER_MEASURE_MAX_MKW, TARGET_TEMP_MAX_MC, TARGET_TEMP_MIN_MC, TEMP_MEASURE_MAX_MC,
    TEMP_MEASURE_MIN_MC,
};

verus! {

/// Forced-off interval between the complementary gate drives, nanoseconds.
pub const DEADTIME_NS: u32 = 512;
/// Switching frequency the power controller starts from, microhertz.
pub const BASE_FREQUENCY_UHZ: i64 = 29_700_000_000;
/// Lowest switching frequency the controller may request, microhertz.
pub const MIN_FREQUENCY_UHZ: i64 = 26_000_000_000;
/// Highest switching frequency the controller may request, microhertz.
pub const MAX_FREQUENCY_UHZ: i64 = 32_000_000_000;
/// Period of the control activity, milliseconds.
pub const CONTROL_PERIOD_MS: u64 = 10;
/// Minimum time between two run-button toggles, milliseconds.
pub const RUN_DEBOUNCE_MS: u64 = 80;
/// Acceptance band below the target temperature, milli-degrees Celsius.
pub const TARGET_TOLERANCE_MC: i64 = 2_000;

/// Power-controller proportional gain: 60 Hz per kW of power error, that
/// is 60 000 microhertz per milli-kilowatt.
pub const POWER_KP_UHZ_PER_MKW: i64 = 60_000;
/// Power-controller integral gain times the tick: 8 Hz per kW-second at a
/// 10 ms tick, that is 80 microhertz per milli-kilowatt each tick.
pub const POWER_KI_DT_UHZ_PER_MKW: i64 = 80;
/// Fixed bound on the power-controller integrator: 2000 Hz either way.
pub const POWER_INTEGRATOR_LIMIT_UHZ: i64 = 2_000_000_000;

/// Temperature-controller proportional gain: 0.08 kW per degree Celsius,
/// that is 80 000 microwatts per milli-degree.
pub const TEMP_KP_UW_PER_MC: i64 = 80_000;
/// Temperature-controller integral gain times the tick: 0.03 kW per
/// degree-second at a 10 ms tick, that is 300 microwatts per milli-degree
/// each tick.
pub const TEMP_KI_DT_UW_PER_MC: i64 = 300;
/// Floor on the temperature error, so a large excursion below the target
/// cannot collapse the integrator.
pub const TEMP_ERROR_FLOOR_MC: i64 = -20_000;
/// The power limit expressed in microwatts, the temperature controller's
/// output unit.
pub const POWER_LIMIT_UW: i64 = 10_000_000_000;

/// Inner PI controller: walks the switching frequency toward the power
/// setpoint, integrating onto the previous frequency, so its output is a
/// rate-limited frequency walk.
#[derive(Debug, Clone, Copy, PartialEq, Eq, Structural)]
pub struct PowerController {
    /// Current switching frequency, microhertz.
    pub freq_uhz: i64,
    /// Integrator, microhertz.
    pub integrator_uhz: i64,
}

impl PowerController {
    pub open spec fn wf(&self) -> bool {
        &&& MIN_FREQUENCY_UHZ <= self.freq_uhz <= MAX_FREQUENCY_UHZ
        &&& -POWER_INTEGRATOR_LIMIT_UHZ <= self.integrator_uhz <= POWER_INTEGRATOR_LIMIT_UHZ
    }

    /// The reset state: base frequency, empty integrator.
    pub open spec fn initial() -> Self {
        PowerController { freq_uhz: BASE_FREQUENCY_UHZ, integrator_uhz: 0 }
    }

    /// One update: integrate the clamped error, then walk the frequency by
    /// the proportional term plus the integrator, clamped to the band.
    pub open spec fn spec_update(self, setpoint_mkw: int, measured_mkw: int) -> Self {
        let error = setpoint_mkw - measured_mkw;
        let integ = clamped(
            self.integrator_uhz + POWER_KI_DT_UHZ_PER_MKW * error,
            -POWER_INTEGRATOR_LIMIT_UHZ as int,
            POWER_INTEGRATOR_LIMIT_UHZ as int,
        );
        let freq = clamped(
            self.freq_uhz + POWER_KP_UHZ_PER_MKW * error + integ,
            MIN_FREQUENCY_UHZ as int,
            MAX_FREQUENCY_UHZ as int,
        );
        PowerController { freq_uhz: freq as i64, integrator_uhz: integ as i64 }
    }

    pub fn new() -> (r: Self)
        ensures
            r == Self::initial(),
            r.wf(),
    {
        PowerController { freq_uhz: BASE_FREQUENCY_UHZ, integrator_uhz: 0 }
    }

    pub fn reset(&mut self)
        ensures
            *final(self) == Self::initial(),
    {
        self.freq_uhz = BASE_FREQUENCY_UHZ;
        self.integrator_uhz = 0;
    }

    pub fn update(&mut self, setpoint_mkw: i64, measured_mkw: i64) -> (freq_uhz: i64)
        requires
            old(self).wf(),
            0 <= setpoint_mkw <= POWER_LIMIT_MKW,
            0 <= measured_mkw <= POWER_MEASURE_MAX_MKW,
        ensures
            *final(self) == old(self).spec_update(setpoint_mkw as int, measured_mkw as int),
            freq_uhz == final(self).freq_uhz,
            final(self).wf(),
    {
        let error: i64 = setpoint_mkw - measured_mkw;
        self.integrator_uhz = clamp_i64(
            self.integrator_uhz + POWER_KI_DT_UHZ_PER_MKW * error,
            -POWER_INTEGRATOR_LIMIT_UHZ,
            POWER_INTEGRATOR_LIMIT_UHZ,
        );
        self.freq_uhz = clamp_i64(
            self.freq_uhz + POWER_KP_UHZ_PER_MKW * error + self.integrator_uhz,
            MIN_FREQUENCY_UHZ,
            MAX_FREQUENCY_UHZ,
        );
        self.freq_uhz
    }
}

/// Outer PI controller: computes a power setpoint from the temperature
/// error.  Its integrator cannot go negative: the loop cannot request
/// cooling.
#[derive(Debug, Clone, Copy, PartialEq, Eq, Structural)]
pub struct TemperatureController {
    /// Integrator, microwatts.
    pub integrator_uw: i64,
}

impl TemperatureController {
    pub open spec fn wf(&self) -> bool {
        0 <= self.integrator_uw <= POWER_LIMIT_UW
    }

    pub open spec fn initial() -> Self {
        TemperatureController { integrator_uw: 0 }
    }

    /// The floored temperature error driving one update.
    pub open spec fn spec_error(target_mc: int, measured_mc: int) -> int {
        if target_mc - measured_mc >= TEMP_ERROR_FLOOR_MC {
            target_mc - measured_mc
        } else {
            TEMP_ERROR_FLOOR_MC as int
        }
    }

    /// The controller state after one update.
    pub open spec fn spec_updated(self, target_mc: int, measured_mc: int) -> Self {
        let error = Self::spec_error(target_mc, measured_mc);
        let integ = clamped(
            self.integrator_uw + TEMP_KI_DT_UW_PER_MC * error,
            0,
            POWER_LIMIT_UW as int,
        );
        TemperatureController { integrator_uw: integ as i64 }
    }

    /// The power that one update requests, microwatts, within
    /// `[0, POWER_LIMIT_UW]`.
    pub open spec fn spec_output(self, target_mc: int, measured_mc: int) -> int {
        let error = Self::spec_error(target_mc, measured_mc);
        clamped(
            TEMP_KP_UW_PER_MC * error + self.spec_updated(target_mc, measured_mc).integrator_uw,
            0,
            POWER_LIMIT_UW as int,
        )
    }

    pub fn new() -> (r: Self)
        ensures
            r == Self::initial(),
            r.wf(),
    {
        TemperatureController { integrator_uw: 0 }
    }

    pub fn reset(&mut self)
        ensures
            *final(self) == Self::initial(),
    {
        self.integrator_uw = 0;
    }

    pub fn update(&mut self, target_mc: i64, measured_mc: i64) -> (power_uw: i64)
        requires
            old(self).wf(),
            TARGET_TEMP_MIN_MC <= target_mc <= TARGET_TEMP_MAX_MC,
            TEMP_MEASURE_MIN_MC <= measured_mc <= TEMP_MEASURE_MAX_MC,
        ensures
            *final(self) == old(self).spec_updated(target_mc as int, measured_mc as int),
            power_uw == old(self).spec_output(target_mc as int, measured_mc as int),
            final(self).wf(),
            0 <= power_uw <= POWER_LIMIT_UW,
    {
        let raw_error: i64 = target_mc - measured_mc;
        let error: i64 = if raw_error >= TEMP_ERROR_FLOOR_MC {
            raw_error
        } else {
            TEMP_ERROR_FLOOR_MC
        };
        self.integrator_uw = clamp_i64(
            self.integrator_uw + TEMP_KI_DT_UW_PER_MC * error,
            0,
            POWER_LIMIT_UW,
        );
        clamp_i64(TEMP_KP_UW_PER_MC * error + self.integrator_uw, 0, POWER_LIMIT_UW)
    }
}

/// Everything one tick of the control loop reads.
#[derive(Debug, Clone, Copy, PartialEq, Eq, Structural)]
pub struct TickInputs {
    pub settings: ControlSettings,
    pub fault: FaultCode,
    pub measurements: Measurements,
    /// Level of the run button, which is active low.
    pub button_low: bool,
    /// Time of this tick, milliseconds.
    pub now_ms: u64,
}

impl TickInputs {
    pub open spec fn wf(&self) -> bool {
        &&& self.settings.wf()
        &&& self.measurements.wf()
    }
}

/// What to drive onto the PWM peripheral this tick.
#[derive(Debug, Clone, Copy, PartialEq, Eq, Structural)]
pub enum PwmCommand {
    Off,
    On { frequency_hz: u32, deadtime_ns: u32 },
}

/// Everything one tick of the control loop drives or publishes.
#[derive(Debug, Clone, Copy, PartialEq, Eq, Structural)]
pub struct TickOutputs {
    /// Coolant solenoid drive level.
    pub solenoid_on: bool,
    /// High- and low-side gate-driver enable lines (driven together).
    pub enable_lines_on: bool,
    pub pwm: PwmCommand,
    /// The status record to publish for this tick.
    pub status: ControlStatus,
}

/// State the control loop carries from tick to tick.
#[derive(Debug, Clone, Copy, PartialEq, Eq, Structural)]
pub struct ControlLoop {
    pub power: PowerController,
    pub temp: TemperatureController,
    /// The debounced run latch.
    pub run_active: bool,
    /// Button level seen on the previous tick, for edge detection.
    pub last_button_low: bool,
    /// Time of the last accepted button toggle, milliseconds.
    pub last_toggle_ms: u64,
    /// The PWM peripheral is currently running.
    pub pwm_running: bool,
    /// Mode seen on the previous tick, for transition detection.
    pub last_mode: ControlMode,
}

/// The run latch may only be armed in the two heating modes.
pub open spec fn mode_allows_run(mode: ControlMode) -> bool {
    mode == ControlMode::ManualPower || mode == ControlMode::Temperature
}

impl ControlLoop {
    pub open spec fn wf(&self) -> bool {
        &&& self.power.wf()
        &&& self.temp.wf()
    }

    /// The state the loop starts from: controllers reset, latch clear,
    /// power stage off, and the debounce timer already expired so the
    /// first button press is accepted.
    pub open spec fn spec_new(now_ms: u64) -> Self {
        ControlLoop {
            power: PowerController::initial(),
            temp: TemperatureController::initial(),
            run_active: false,
            last_button_low: false,
            last_toggle_ms: sat_sub(now_ms as int, RUN_DEBOUNCE_MS as int) as u64,
            pwm_running: false,
            last_mode: ControlMode::Idle,
        }
    }

    pub fn new(now_ms: u64) -> (r: Self)
        ensures
            r == Self::spec_new(now_ms),
            r.wf(),
    {
        ControlLoop {
            power: PowerController::new(),
            temp: TemperatureController::new(),
            run_active: false,
            last_button_low: false,
            last_toggle_ms: sat_sub_u64(now_ms, RUN_DEBOUNCE_MS),
            pwm_running: false,
            last_mode: ControlMode::Idle,
        }
    }

    /// A mode change resets both controllers, clears the run latch and
    /// stops the power stage before the new mode is evaluated.
    pub open spec fn after_transition(self, mode: ControlMode) -> Self {
        if mode != self.last_mode {
            ControlLoop {
                power: PowerController::initial(),
                temp: TemperatureController::initial(),
                run_active: false,
                pwm_running: false,
                last_mode: mode,
                ..self
            }
        } else {
            self
        }
    }

    /// Debounced run-button edge handling: a falling edge at least
    /// `RUN_DEBOUNCE_MS` after the last accepted toggle flips the latch,
    /// but only in the heating modes.
    pub open spec fn after_button(self, mode: ControlMode, button_low: bool, now_ms: u64) -> Self {
        if button_low != self.last_button_low {
            let qualifies = button_low
                && sat_sub(now_ms as int, self.last_toggle_ms as int) >= RUN_DEBOUNCE_MS;
            let toggles = qualifies && mode_allows_run(mode);
            ControlLoop {
                run_active: if toggles {
                    !self.run_active
                } else {
                    self.run_active
                },
                last_toggle_ms: if qualifies {
                    now_ms
                } else {
                    self.last_toggle_ms
                },
                last_button_low: button_low,
                ..self
            }
        } else {
            self
        }
    }

    /// Any active fault, or a mode outside the heating modes, forces the
    /// run latch off regardless of the button.
    pub open spec fn after_preemption(self, mode: ControlMode, fault: FaultCode) -> Self {
        if fault != FaultCode::NoFault || !mode_allows_run(mode) {
            ControlLoop { run_active: false, ..self }
        } else {
            self
        }
    }

    /// One full tick as a mathematical function: the next state and the
    /// outputs, from the previous state and the inputs.
    pub open spec fn spec_tick(self, inp: TickInputs) -> (Self, TickOutputs) {
        let mode = inp.settings.mode;
        let st = self
            .after_transition(mode)
            .after_button(mode, inp.button_low, inp.now_ms)
            .after_preemption(mode, inp.fault);
        if mode_allows_run(mode) {
            let heating = st.run_active && inp.fault == FaultCode::NoFault;
            let target_reached = mode == ControlMode::Temperature
                && inp.measurements.object_temp_mc
                    >= inp.settings.target_temp_mc - TARGET_TOLERANCE_MC;
            let temp2 = if mode == ControlMode::Temperature {
                st.temp.spec_updated(
                    inp.settings.target_temp_mc as int,
                    inp.measurements.object_temp_mc as int,
                )
            } else {
                st.temp
            };
            let setpoint_mkw = if mode == ControlMode::ManualPower {
                clamped(inp.settings.manual_power_mkw as int, 0, POWER_LIMIT_MKW as int)
            } else {
                clamped(
                    st.temp.spec_output(
                        inp.settings.target_temp_mc as int,
                        inp.measurements.object_temp_mc as int,
                    ) / 1_000_000,
                    0,
                    POWER_LIMIT_MKW as int,
                )
            };
            let power2 = if heating {
                st.power.spec_update(setpoint_mkw, inp.measurements.coil_power_mkw as int)
            } else {
                st.power
            };
            let next = ControlLoop { power: power2, temp: temp2, pwm_running: heating, ..st };
            let outputs = TickOutputs {
                solenoid_on: false,
                enable_lines_on: heating,
                pwm: if heating {
                    PwmCommand::On {
                        frequency_hz: (power2.freq_uhz / 1_000_000) as u32,
                        deadtime_ns: DEADTIME_NS,
                    }
                } else {
                    PwmCommand::Off
                },
                status: ControlStatus {
                    mode,
                    heating_enabled: heating,
                    run_active: st.run_active,
                    target_reached,
                    cooldown_active: false,
                    power_setpoint_mkw: setpoint_mkw as i64,
                    switching_freq_uhz: power2.freq_uhz,
                    fault: inp.fault,
                },
            };
            (next, outputs)
        } else {
            let next = ControlLoop { run_active: false, pwm_running: false, ..st };
            let outputs = TickOutputs {
                solenoid_on: mode == ControlMode::Cooldown,
                enable_lines_on: false,
                pwm: PwmCommand::Off,
                status: ControlStatus {
                    mode,
                    heating_enabled: false,
                    run_active: false,
                    target_reached: false,
                    cooldown_active: mode == ControlMode::Cooldown,
                    power_setpoint_mkw: 0,
                    switching_freq_uhz: 0,
                    fault: inp.fault,
                },
            };
            (next, outputs)
        }
    }

    /// One pass of the control activity.  The caller reads the record
    /// snapshots and the button level, then drives the power stage as the
    /// outputs say and publishes the returned status record.
    pub fn tick(&mut self, inp: TickInputs) -> (out: TickOutputs)
        requires
            old(self).wf(),
            inp.wf(),
        ensures
            *final(self) == old(self).spec_tick(inp).0,
            out == old(self).spec_tick(inp).1,
            final(self).wf(),
    {
        let mode = inp.settings.mode;

        if mode != self.last_mode {
            self.power.reset();
            self.temp.reset();
            self.run_active = false;
            self.pwm_running = false;
            self.last_mode = mode;
        }

        if inp.button_low != self.last_button_low {
            if inp.button_low && sat_sub_u64(inp.now_ms, self.last_toggle_ms) >= RUN_DEBOUNCE_MS {
                if mode == ControlMode::ManualPower || mode == ControlMode::Temperature {
                    self.run_active = !self.run_active;
                }
                self.last_toggle_ms = inp.now_ms;
            }
            self.last_button_low = inp.button_low;
        }

        if !(inp.fault == FaultCode::NoFault)
            || !(mode == ControlMode::ManualPower || mode == ControlMode::Temperature)
        {
            self.run_active = false;
        }

        match mode {
            ControlMode::ManualPower | ControlMode::Temperature => {
                let heating = self.run_active && inp.fault == FaultCode::NoFault;

                let mut target_reached = false;
                let setpoint_mkw: i64 = if mode == ControlMode::ManualPower {
                    clamp_i64(inp.settings.manual_power_mkw, 0, POWER_LIMIT_MKW)
                } else {
                    target_reached = inp.measurements.object_temp_mc
                        >= inp.settings.target_temp_mc - TARGET_TOLERANCE_MC;
                    let requested_uw = self.temp.update(
                        inp.settings.target_temp_mc,
                        inp.measurements.object_temp_mc,
                    );
                    clamp_i64(requested_uw / 1_000_000, 0, POWER_LIMIT_MKW)
                };

                if heating {
                    self.power.update(setpoint_mkw, inp.measurements.coil_power_mkw);
                }
                self.pwm_running = heating;

                TickOutputs {
                    solenoid_on: false,
                    enable_lines_on: heating,
                    pwm: if heating {
                        PwmCommand::On {
                            frequency_hz: (self.power.freq_uhz / 1_000_000) as u32,
                            deadtime_ns: DEADTIME_NS,
                        }
                    } else {
                        PwmCommand::Off
                    },
                    status: ControlStatus {
                        mode,
                        heating_enabled: heating,
                        run_active: self.run_active,
                        target_reached,
                        cooldown_active: false,
                        power_setpoint_mkw: setpoint_mkw,
                        switching_freq_uhz: self.power.freq_uhz,
                        fault: inp.fault,
                    },
                }
            },
            ControlMode::Idle | ControlMode::Cooldown => {
                self.run_active = false;
                self.pwm_running = false;
                TickOutputs {
                    solenoid_on: mode == ControlMode::Cooldown,
                    enable_lines_on: false,
                    pwm: PwmCommand::Off,
                    status: ControlStatus {
                        mode,
                        heating_enabled: false,
                        run_active: false,
                        target_reached: false,
                        cooldown_active: mode == ControlMode::Cooldown,
                        power_setpoint_mkw: 0,
                        switching_freq_uhz: 0,
                        fault: inp.fault,
                    },
                }
            },
        }
    }
}

// ------------------------------------------------------------------
// Properties of the controllers and of the tick.
// ------------------------------------------------------------------

/// The power controller after a whole sequence of updates, each given as a
/// pair of setpoint and measured power in milli-kilowatts.
pub open spec fn power_after_updates(c: PowerController, inputs: Seq<(int, int)>) -> PowerController
    decreases inputs.len(),
{
    if inputs.len() == 0 {
        c
    } else {
        power_after_updates(
            c.spec_update(inputs[0].0, inputs[0].1),
            inputs.subrange(1, inputs.len() as int),
        )
    }
}

/// The temperature controller after a whole sequence of updates, each
/// given as a pair of target and measured temperature in milli-degrees.
pub open spec fn temp_after_updates(
    c: TemperatureController,
    inputs: Seq<(int, int)>,
) -> TemperatureController
    decreases inputs.len(),
{
    if inputs.len() == 0 {
        c
    } else {
        temp_after_updates(
            c.spec_updated(inputs[0].0, inputs[0].1),
            inputs.subrange(1, inputs.len() as int),
        )
    }
}

/// For any sequence of updates, whatever the error magnitudes, the power
/// controller's integrator stays within its fixed bounds and its frequency
/// within the switching band.
pub proof fn lemma_power_controller_bounded(c: PowerController, inputs: Seq<(int, int)>)
    requires
        c.wf(),
    ensures
        power_after_updates(c, inputs).wf(),
        -POWER_INTEGRATOR_LIMIT_UHZ <= power_after_updates(c, inputs).integrator_uhz
            <= POWER_INTEGRATOR_LIMIT_UHZ,
    decreases inputs.len(),
{
    if inputs.len() > 0 {
        lemma_power_controller_bounded(
            c.spec_update(inputs[0].0, inputs[0].1),
            inputs.subrange(1, inputs.len() as int),
        );
    }
}

/// For any sequence of updates, whatever the error magnitudes, the
/// temperature controller's integrator stays within zero and the power
/// limit: it can never request cooling nor wind up past the limit.
pub proof fn lemma_temp_integrator_bounded(c: TemperatureController, inputs: Seq<(int, int)>)
    requires
        c.wf(),
    ensures
        temp_after_updates(c, inputs).wf(),
        0 <= temp_after_updates(c, inputs).integrator_uw <= POWER_LIMIT_UW,
    decreases inputs.len(),
{
    if inputs.len() > 0 {
        lemma_temp_integrator_bounded(
            c.spec_updated(inputs[0].0, inputs[0].1),
            inputs.subrange(1, inputs.len() as int),
        );
    }
}

/// A mode transition resets both integrators to zero, clears the run
/// latch, and stops the power stage, before the new mode is evaluated.
pub proof fn lemma_mode_transition_resets(st: ControlLoop, mode: ControlMode)
    requires
        mode != st.last_mode,
    ensures
        st.after_transition(mode).power == PowerController::initial(),
        st.after_transition(mode).power.integrator_uhz == 0,
        st.after_transition(mode).temp.integrator_uw == 0,
        !st.after_transition(mode).run_active,
        !st.after_transition(mode).pwm_running,
{
}

/// A tick that changes mode behaves exactly as if the loop had entered it
/// with reset controllers, a cleared latch, and a stopped power stage:
/// nothing of the prior controller or latch state leaks across the
/// transition.  Its published status shows the latch and heating off, and
/// the power controller leaves the tick still at its reset state.  (The
/// run button can arm the latch again no earlier than the next tick: a
/// qualifying press edge on the very transition tick is the one input this
/// statement leaves out.)
pub proof fn lemma_mode_transition_tick(st: ControlLoop, inp: TickInputs)
    requires
        inp.settings.mode != st.last_mode,
        inp.button_low == st.last_button_low,
    ensures
        st.spec_tick(inp) == (ControlLoop {
            power: PowerController::initial(),
            temp: TemperatureController::initial(),
            run_active: false,
            pwm_running: false,
            ..st
        }).spec_tick(inp),
        !st.spec_tick(inp).1.status.run_active,
        !st.spec_tick(inp).1.status.heating_enabled,
        st.spec_tick(inp).0.power == PowerController::initial(),
{
    let reset = ControlLoop {
        power: PowerController::initial(),
        temp: TemperatureController::initial(),
        run_active: false,
        pwm_running: false,
        ..st
    };
    assert(st.after_transition(inp.settings.mode) == reset.after_transition(inp.settings.mode));
}

/// Steady state of the power loop: with the measured power equal to the
/// setpoint and an empty integrator, an update changes nothing — the
/// frequency holds its previous value.
pub proof fn lemma_power_steady_state(c: PowerController, setpoint_mkw: int)
    requires
        c.wf(),
        c.integrator_uhz == 0,
    ensures
        c.spec_update(setpoint_mkw, setpoint_mkw) == c,
{
}

/// Every published status is a consistent single-tick snapshot: it carries
/// the mode and fault code the tick read, flags cooldown exactly in
/// cooldown mode, never reports heating without the run latch and a clear
/// fault record, and its setpoint and frequency lie inside their bands.
/// The drive outputs agree with it: the PWM runs and the enable lines are
/// driven exactly when it reports heating, and the solenoid is driven
/// exactly in cooldown mode.
pub proof fn lemma_status_consistency(st: ControlLoop, inp: TickInputs)
    requires
        st.wf(),
    ensures
        ({
            let (next, out) = st.spec_tick(inp);
            &&& out.status.mode == inp.settings.mode
            &&& out.status.fault == inp.fault
            &&& out.status.cooldown_active == (inp.settings.mode == ControlMode::Cooldown)
            &&& out.status.heating_enabled ==> out.status.run_active && inp.fault
                == FaultCode::NoFault
            &&& (out.pwm is On) == out.status.heating_enabled
            &&& out.enable_lines_on == out.status.heating_enabled
            &&& out.solenoid_on == (inp.settings.mode == ControlMode::Cooldown)
            &&& 0 <= out.status.power_setpoint_mkw <= POWER_LIMIT_MKW
            &&& out.status.switching_freq_uhz == 0 || MIN_FREQUENCY_UHZ
                <= out.status.switching_freq_uhz <= MAX_FREQUENCY_UHZ
            &&& next.wf()
        }),
{
}

/// In temperature mode the published target-reached flag is exactly the
/// acceptance test: the object temperature has come within the tolerance
/// band below the target.
pub proof fn lemma_target_reached_boundary(st: ControlLoop, inp: TickInputs)
    requires
        inp.settings.mode == ControlMode::Temperature,
    ensures
        st.spec_tick(inp).1.status.target_reached == (inp.measurements.object_temp_mc
            >= inp.settings.target_temp_mc - TARGET_TOLERANCE_MC),
{
}

} // verus!
