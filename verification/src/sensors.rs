//! Sensor fusion: converting raw transducer readings into calibrated,
//! smoothed physical measurements.
//!
//! Covered here: the paired voltage/current sampling channel with its RMS
//! window, the thermistor linearizations (pull-up divider and current-source
//! models, both through the Beta equation), the linear circuit-board sensor,
//! the infrared sensor word, and the duty-cycle-encoded module temperature.
//!
//! The Beta equation needs a natural logarithm, which the library does not
//! compute: [`ntc_temperature_mc`] takes `ln(R / R0)` scaled to micro-units
//! as an argument, and the caller obtains it from its math runtime.  With
//! the logarithm argument at zero (measured resistance equal to the nominal
//! resistance) the computed temperature is the nominal temperature exactly,
//! which [`lemma_ntc_reference_point`] proves.

use vstd::prelude::*;

use vstd::arithmetic::div_mod::{lemma_div_is_ordered, lemma_div_multiples_vanish, lemma_div_pos_is_pos};

use crate::num::{clamp_i64, clamped, div_tz, div_tz_i64, isqrt_u64};
use crate::state::{
    Measurements, CURRENT_MEASURE_MAX_MA, POWER_MEASURE_MAX_MKW, TEMP_MEASURE_MAX_MC,
    TEMP_MEASURE_MIN_MC, VOLTAGE_MEASURE_MAX_MV,
};

verus! {

/// Full-scale reading of the 12-bit sampling converters.
pub const ADC_FULL_SCALE: i64 = 4_095;
/// Reference of the on-chip sampling converter, microvolts.
pub const ADC_REF_UV: i64 = 3_321_000;
/// DC-bus divider gain: ADC volts per bus volt, in parts per billion.
pub const VDC_GAIN_PPB: i64 = 1_861_509;
/// Zero-current output of the bidirectional current sensor, microvolts.
pub const CURRENT_CENTER_UV: i64 = 1_245_000;
/// Current-sensor sensitivity: 1280 amps per volt is 1280 microamps per
/// microvolt; divide by 1000 for milliamps.
pub const CURRENT_SENSITIVITY_UA_PER_UV: i64 = 1_280;
/// Smoothing divisor: the exponential filter moves one fifth of the way to
/// each new value.
pub const SMOOTH_DIVISOR: i64 = 5;

/// Supply rail of the multiplexed temperature converter, millivolts.
pub const ADS_SUPPLY_MV: i64 = 5_000;
/// Series resistance above the coil thermistor, ohms.
pub const NTC_SERIES_R_OHM: i64 = 10_000;
/// Coil thermistor Beta constant, kelvins.
pub const COIL_NTC_BETA_K: i64 = 3_950;
/// Coil thermistor nominal point, milli-kelvins (25 degrees Celsius).
pub const COIL_NTC_T0_MK: i64 = 298_150;
/// Coil thermistor nominal resistance, ohms.
pub const COIL_NTC_R0_OHM: i64 = 10_000;
/// Sense voltage above which the coil thermistor counts as disconnected,
/// millivolts.
pub const COIL_SENSOR_DISCONNECT_MV: i64 = 4_500;

/// Module thermistor Beta constant, kelvins.
pub const MODULE_NTC_BETA_K: i64 = 3_468;
/// Module thermistor nominal point, milli-kelvins (25 degrees Celsius).
pub const MODULE_NTC_T0_MK: i64 = 298_150;
/// Module thermistor nominal resistance, ohms.
pub const MODULE_NTC_R0_OHM: i64 = 5_000;
/// Resistance put in series with the module thermistor's current source,
/// ohms.
pub const MODULE_SERIES_R_OHM: i64 = 5_100;
/// Current-source scale: 0.000203 volts per ohm means 203 microvolts per
/// kilo-ohm; a sense millivolt is 1000/203 ohms.
pub const MODULE_V_PER_R_SCALE: i64 = 203;

/// Observable duty range of the temperature-to-duty signal, parts per
/// million.
pub const PWM_MIN_DUTY_PPM: i64 = 50_000;
pub const PWM_MAX_DUTY_PPM: i64 = 950_000;
/// Calibration points of the duty-to-voltage mapping: duty 10 percent
/// corresponds to 4.5 volts and duty 88 percent to 0.6 volts (the mapping
/// is inverted: higher duty, lower voltage).
pub const PWM_LOW_DUTY_PPM: i64 = 100_000;
pub const PWM_HIGH_DUTY_PPM: i64 = 880_000;
pub const PWM_LOW_MV: i64 = 600;
pub const PWM_HIGH_MV: i64 = 4_500;

/// Absolute-zero offset, milli-kelvins per milli-degree-Celsius scale.
pub const KELVIN_OFFSET_MK: i64 = 273_150;

// ------------------------------------------------------------------
// Paired voltage/current channel.
// ------------------------------------------------------------------

/// The sampling converter's reading in microvolts.
pub open spec fn spec_adc_code_uv(code: u16) -> int {
    code * ADC_REF_UV / (ADC_FULL_SCALE as int)
}

/// DC bus voltage for one raw code, millivolts, clamped to the
/// representable range.
pub open spec fn spec_dc_voltage_mv(code: u16) -> int {
    clamped(spec_adc_code_uv(code) * 1_000_000 / (VDC_GAIN_PPB as int), 0, VOLTAGE_MEASURE_MAX_MV as int)
}

/// Coil current for one raw code, milliamps, signed around the sensor's
/// center voltage and clamped to the representable magnitude.
pub open spec fn spec_coil_current_ma(code: u16) -> int {
    clamped(
        div_tz((spec_adc_code_uv(code) - CURRENT_CENTER_UV) * CURRENT_SENSITIVITY_UA_PER_UV, 1_000),
        -CURRENT_MEASURE_MAX_MA as int,
        CURRENT_MEASURE_MAX_MA as int,
    )
}

pub fn convert_dc_voltage(code: u16) -> (mv: i64)
    ensures
        mv == spec_dc_voltage_mv(code),
        0 <= mv <= VOLTAGE_MEASURE_MAX_MV,
{
    let adc_uv: i64 = code as i64 * ADC_REF_UV / ADC_FULL_SCALE;
    clamp_i64(adc_uv * 1_000_000 / VDC_GAIN_PPB, 0, VOLTAGE_MEASURE_MAX_MV)
}

pub fn convert_coil_current(code: u16) -> (ma: i64)
    ensures
        ma == spec_coil_current_ma(code),
        -CURRENT_MEASURE_MAX_MA <= ma <= CURRENT_MEASURE_MAX_MA,
{
    let adc_uv: i64 = code as i64 * ADC_REF_UV / ADC_FULL_SCALE;
    let scaled_ua: i64 = (adc_uv - CURRENT_CENTER_UV) * CURRENT_SENSITIVITY_UA_PER_UV;
    clamp_i64(div_tz_i64(scaled_ua, 1_000), -CURRENT_MEASURE_MAX_MA, CURRENT_MEASURE_MAX_MA)
}

// ------------------------------------------------------------------
// Exponential smoothing.
// ------------------------------------------------------------------

/// One step of the exponential filter: move one fifth of the way from
/// `prev` toward `next`.  A previous value of zero means no sample has
/// been taken yet, and the new value is adopted directly.
pub open spec fn spec_smoothed(prev: int, next: int) -> int {
    if prev == 0 {
        next
    } else {
        prev + div_tz(next - prev, SMOOTH_DIVISOR as int)
    }
}

pub fn smooth_value(previous: i64, new_value: i64) -> (r: i64)
    requires
        -1_000_000_000_000 <= previous <= 1_000_000_000_000,
        -1_000_000_000_000 <= new_value <= 1_000_000_000_000,
    ensures
        r == spec_smoothed(previous as int, new_value as int),
        previous == 0 ==> r == new_value,
        previous != 0 && previous <= new_value ==> previous <= r <= new_value,
        previous != 0 && new_value <= previous ==> new_value <= r <= previous,
{
    if previous == 0 {
        new_value
    } else {
        let delta = new_value - previous;
        let step = div_tz_i64(delta, SMOOTH_DIVISOR);
        proof {
            if delta >= 0 {
                lemma_div_is_ordered(0, delta as int, SMOOTH_DIVISOR as int);
                assert((delta as int) / (SMOOTH_DIVISOR as int) <= delta as int) by (nonlinear_arith)
                    requires
                        delta >= 0,
                ;
            } else {
                assert((-(delta as int)) / (SMOOTH_DIVISOR as int) <= -(delta as int))
                    by (nonlinear_arith)
                    requires
                        delta < 0,
                ;
                lemma_div_is_ordered(0, -(delta as int), SMOOTH_DIVISOR as int);
            }
        }
        previous + step
    }
}

// ------------------------------------------------------------------
// Thermistor linearization through the Beta equation.
// ------------------------------------------------------------------

/// The Beta model temperature in milli-degrees Celsius, as an exact
/// rational: `1/T = 1/T0 + ln(R/R0) / beta` rearranged over a common
/// denominator, so `T_mK = T0_mK * beta * 10^9 / (beta * 10^9 + L * T0_mK)`
/// with `L = ln(R/R0)` in micro-units.  A non-positive denominator is the
/// limit of a vanishing resistance ratio and saturates hot.
pub open spec fn spec_ntc_temperature_mc(log_ratio_micro: int, beta_k: int, t0_mk: int) -> int {
    let denom = beta_k * 1_000_000_000 + log_ratio_micro * t0_mk;
    if denom <= 0 {
        TEMP_MEASURE_MAX_MC as int
    } else {
        clamped(
            t0_mk * beta_k * 1_000_000_000 / denom - KELVIN_OFFSET_MK,
            TEMP_MEASURE_MIN_MC as int,
            TEMP_MEASURE_MAX_MC as int,
        )
    }
}

pub fn ntc_temperature_mc(log_ratio_micro: i64, beta_k: i64, t0_mk: i64) -> (mc: i64)
    requires
        1_000 <= beta_k <= 10_000,
        200_000 <= t0_mk <= 400_000,
        -20_000_000 <= log_ratio_micro <= 20_000_000,
    ensures
        mc == spec_ntc_temperature_mc(log_ratio_micro as int, beta_k as int, t0_mk as int),
        TEMP_MEASURE_MIN_MC <= mc <= TEMP_MEASURE_MAX_MC,
{
    proof {
        assert(-8_000_000_000_000 <= log_ratio_micro * t0_mk <= 8_000_000_000_000)
            by (nonlinear_arith)
            requires
                -20_000_000 <= log_ratio_micro <= 20_000_000,
                200_000 <= t0_mk <= 400_000,
        ;
        assert(200_000_000 <= t0_mk * beta_k <= 4_000_000_000) by (nonlinear_arith)
            requires
                1_000 <= beta_k <= 10_000,
                200_000 <= t0_mk <= 400_000,
        ;
    }
    let denom: i64 = beta_k * 1_000_000_000 + log_ratio_micro * t0_mk;
    if denom <= 0 {
        TEMP_MEASURE_MAX_MC
    } else {
        let t_mk: i64 = t0_mk * beta_k * 1_000_000_000 / denom;
        proof {
            lemma_div_pos_is_pos(t0_mk * beta_k * 1_000_000_000, denom as int);
        }
        clamp_i64(t_mk - KELVIN_OFFSET_MK, TEMP_MEASURE_MIN_MC, TEMP_MEASURE_MAX_MC)
    }
}

/// At the thermistor's nominal point — measured resistance equal to the
/// nominal resistance, so a logarithm term of zero — the Beta model
/// reproduces the nominal temperature exactly.
pub proof fn lemma_ntc_reference_point(beta_k: int, t0_mk: int)
    requires
        1_000 <= beta_k <= 10_000,
        200_000 <= t0_mk <= 400_000,
    ensures
        spec_ntc_temperature_mc(0, beta_k, t0_mk) == t0_mk - KELVIN_OFFSET_MK,
{
    let denom = beta_k * 1_000_000_000;
    assert(beta_k * 1_000_000_000 > 0);
    lemma_div_multiples_vanish(t0_mk, denom);
    assert(denom * t0_mk == t0_mk * beta_k * 1_000_000_000) by (nonlinear_arith)
        requires
            denom == beta_k * 1_000_000_000,
    ;
    assert(t0_mk * beta_k * 1_000_000_000 / denom == t0_mk);
}

/// Resistance of the coil thermistor from its divider sense voltage:
/// `R = R_series * V / (Vsupply - V)`, ohms.  A sense voltage at either
/// rail means the divider is not reading a sensor, and no resistance is
/// returned; the caller treats it as a disconnected or shorted line.
pub open spec fn spec_ntc_pullup_resistance(voltage_mv: int) -> Option<int> {
    if voltage_mv <= 10 || voltage_mv >= ADS_SUPPLY_MV - 10 {
        Option::None
    } else {
        Option::Some(NTC_SERIES_R_OHM * voltage_mv / (ADS_SUPPLY_MV - voltage_mv))
    }
}

pub fn ntc_pullup_resistance(voltage_mv: i64) -> (r: Option<i64>)
    requires
        0 <= voltage_mv <= ADS_SUPPLY_MV,
    ensures
        r is Some <==> 10 < voltage_mv < ADS_SUPPLY_MV - 10,
        r is Some ==> r->0 == spec_ntc_pullup_resistance(voltage_mv as int)->0,
        r is Some ==> 0 < r->0 <= 5_000_000,
{
    if voltage_mv <= 10 || voltage_mv >= ADS_SUPPLY_MV - 10 {
        Option::None
    } else {
        let r_ohm: i64 = NTC_SERIES_R_OHM * voltage_mv / (ADS_SUPPLY_MV - voltage_mv);
        proof {
            let num = NTC_SERIES_R_OHM * voltage_mv;
            let den = ADS_SUPPLY_MV - voltage_mv;
            lemma_div_is_ordered(den as int, num as int, den as int);
            assert(num / den >= 1);
            lemma_div_is_ordered(num as int, 49_890_000, den as int);
            assert(49_890_000int / den <= 4_989_000) by (nonlinear_arith)
                requires
                    den >= 10,
            ;
        }
        Option::Some(r_ohm)
    }
}

// ------------------------------------------------------------------
// The remaining simple channels.
// ------------------------------------------------------------------

/// The multiplexed converter's reading in millivolts of its 5 volt scale.
pub open spec fn spec_code_to_voltage_mv(code: u16) -> int {
    code * ADS_SUPPLY_MV / (ADC_FULL_SCALE as int)
}

pub fn code_to_voltage(code: u16) -> (mv: i64)
    requires
        code <= ADC_FULL_SCALE,
    ensures
        mv == spec_code_to_voltage_mv(code),
        0 <= mv <= ADS_SUPPLY_MV,
{
    proof {
        lemma_div_pos_is_pos(code * ADS_SUPPLY_MV, ADC_FULL_SCALE as int);
        lemma_div_is_ordered(code * ADS_SUPPLY_MV, ADC_FULL_SCALE * ADS_SUPPLY_MV, ADC_FULL_SCALE as int);
        lemma_div_multiples_vanish(ADS_SUPPLY_MV as int, ADC_FULL_SCALE as int);
    }
    code as i64 * ADS_SUPPLY_MV / ADC_FULL_SCALE
}

/// Circuit-board sensor: 10 millivolts per degree around a 500 millivolt
/// zero offset, clamped to its operating range.
pub open spec fn spec_pcb_temp_mc(voltage_mv: int) -> int {
    clamped((voltage_mv - 500) * 100, -40_000, 150_000)
}

pub fn pcb_temp_v_to_c(voltage_mv: i64) -> (mc: i64)
    requires
        0 <= voltage_mv <= ADS_SUPPLY_MV,
    ensures
        mc == spec_pcb_temp_mc(voltage_mv as int),
        -40_000 <= mc <= 150_000,
{
    clamp_i64((voltage_mv - 500) * 100, -40_000, 150_000)
}

/// Infrared sensor word to milli-degrees Celsius: 0.02 kelvins per count
/// above absolute zero.
pub open spec fn spec_object_temp_mc(raw: u16) -> int {
    raw * 20 - KELVIN_OFFSET_MK
}

pub fn object_temp_from_raw(raw: u16) -> (mc: i64)
    ensures
        mc == spec_object_temp_mc(raw),
        TEMP_MEASURE_MIN_MC <= mc <= TEMP_MEASURE_MAX_MC,
{
    raw as i64 * 20 - KELVIN_OFFSET_MK
}

// ------------------------------------------------------------------
// The RMS window over paired voltage/current samples.
// ------------------------------------------------------------------

/// Largest window the accumulators are proved against.
pub const MAX_WINDOW_PAIRS: usize = 1_000_000;

/// Every pair of a window of converted samples is a voltage and a current
/// inside their measurement ranges.
pub open spec fn window_values_wf(s: Seq<(i64, i64)>) -> bool {
    forall|j: int|
        0 <= j < s.len() ==> 0 <= (#[trigger] s[j]).0 <= VOLTAGE_MEASURE_MAX_MV
            && -CURRENT_MEASURE_MAX_MA <= s[j].1 <= CURRENT_MEASURE_MAX_MA
}

/// A window of raw code pairs taken through the two channel conversions.
pub open spec fn spec_converted_pairs(s: Seq<(u16, u16)>) -> Seq<(i64, i64)> {
    s.map_values(
        |p: (u16, u16)| (spec_dc_voltage_mv(p.0) as i64, spec_coil_current_ma(p.1) as i64),
    )
}

/// Sum of the squared bus voltages over a window of converted pairs.
pub open spec fn spec_sum_v_sq(s: Seq<(i64, i64)>) -> int
    decreases s.len(),
{
    if s.len() == 0 {
        0
    } else {
        spec_sum_v_sq(s.drop_last()) + s.last().0 * s.last().0
    }
}

/// Sum of the squared coil currents over a window of converted pairs.
pub open spec fn spec_sum_i_sq(s: Seq<(i64, i64)>) -> int
    decreases s.len(),
{
    if s.len() == 0 {
        0
    } else {
        spec_sum_i_sq(s.drop_last()) + s.last().1 * s.last().1
    }
}

/// Sum of the instantaneous voltage-current products over a window.
pub open spec fn spec_sum_vi(s: Seq<(i64, i64)>) -> int
    decreases s.len(),
{
    if s.len() == 0 {
        0
    } else {
        spec_sum_vi(s.drop_last()) + s.last().0 * s.last().1
    }
}

/// The accumulated sums stay inside bounds linear in the window length.
pub proof fn lemma_window_sums_bounded(s: Seq<(i64, i64)>)
    requires
        window_values_wf(s),
    ensures
        0 <= spec_sum_v_sq(s) <= s.len() * 1_000_000_000_000,
        0 <= spec_sum_i_sq(s) <= s.len() * 810_000_000_000,
        -(s.len() * 900_000_000_000) <= spec_sum_vi(s) <= s.len() * 900_000_000_000,
    decreases s.len(),
{
    if s.len() > 0 {
        assert(window_values_wf(s.drop_last()));
        lemma_window_sums_bounded(s.drop_last());
        let v = s.last().0 as int;
        let i = s.last().1 as int;
        assert(0 <= v * v <= 1_000_000_000_000 && 0 <= i * i <= 810_000_000_000
            && -900_000_000_000 <= v * i <= 900_000_000_000) by (nonlinear_arith)
            requires
                0 <= v <= 1_000_000,
                -900_000 <= i <= 900_000,
        ;
        assert(s.len() * 1_000_000_000_000 == (s.len() - 1) * 1_000_000_000_000
            + 1_000_000_000_000) by (nonlinear_arith);
        assert(s.len() * 810_000_000_000 == (s.len() - 1) * 810_000_000_000 + 810_000_000_000)
            by (nonlinear_arith);
        assert(s.len() * 900_000_000_000 == (s.len() - 1) * 900_000_000_000 + 900_000_000_000)
            by (nonlinear_arith);
    }
}

/// What one completed sample window yields.
#[derive(Debug, Clone, Copy, PartialEq, Eq, Structural)]
pub struct WindowResult {
    /// Root of the mean squared bus voltage, millivolts.
    pub v_rms_mv: i64,
    /// Root of the mean squared coil current, milliamps.
    pub i_rms_ma: i64,
    /// Mean instantaneous power, milli-kilowatts, clamped at the
    /// measurement maximum and never negative.
    pub power_mkw: i64,
}

/// Root-mean-square and mean-power computation over one window of already
/// converted voltage/current pairs (millivolts and milliamps).  The RMS
/// outputs are the exact integer square roots of the mean squared values;
/// the power output is the mean voltage-current product scaled to
/// milli-kilowatts and clamped.
pub fn compute_window_rms(values: &Vec<(i64, i64)>) -> (r: WindowResult)
    requires
        1 <= values@.len() <= MAX_WINDOW_PAIRS,
        window_values_wf(values@),
    ensures
        r.v_rms_mv * r.v_rms_mv <= spec_sum_v_sq(values@) / (values@.len() as int),
        spec_sum_v_sq(values@) / (values@.len() as int) < (r.v_rms_mv + 1) * (r.v_rms_mv + 1),
        r.i_rms_ma * r.i_rms_ma <= spec_sum_i_sq(values@) / (values@.len() as int),
        spec_sum_i_sq(values@) / (values@.len() as int) < (r.i_rms_ma + 1) * (r.i_rms_ma + 1),
        r.power_mkw == clamped(
            div_tz(div_tz(spec_sum_vi(values@), values@.len() as int), 1_000_000),
            0,
            POWER_MEASURE_MAX_MKW as int,
        ),
        0 <= r.v_rms_mv <= VOLTAGE_MEASURE_MAX_MV,
        0 <= r.i_rms_ma <= CURRENT_MEASURE_MAX_MA,
        0 <= r.power_mkw <= POWER_MEASURE_MAX_MKW,
{
    let n = values.len();
    let mut sum_v_sq: i64 = 0;
    let mut sum_i_sq: i64 = 0;
    let mut sum_vi: i64 = 0;
    let mut idx: usize = 0;
    while idx < n
        invariant
            idx <= n,
            n == values@.len(),
            1 <= n <= MAX_WINDOW_PAIRS,
            window_values_wf(values@),
            sum_v_sq == spec_sum_v_sq(values@.take(idx as int)),
            sum_i_sq == spec_sum_i_sq(values@.take(idx as int)),
            sum_vi == spec_sum_vi(values@.take(idx as int)),
        decreases n - idx,
    {
        let (v, i) = values[idx];
        proof {
            assert(window_values_wf(values@.take(idx as int)));
            lemma_window_sums_bounded(values@.take(idx as int));
            assert(0 <= v * v <= 1_000_000_000_000 && 0 <= i * i <= 810_000_000_000
                && -900_000_000_000 <= v * i <= 900_000_000_000) by (nonlinear_arith)
                requires
                    0 <= v <= 1_000_000,
                    -900_000 <= i <= 900_000,
            ;
            assert((idx as int) * 1_000_000_000_000 <= 1_000_000_000_000_000_000
                && (idx as int) * 810_000_000_000 <= 810_000_000_000_000_000
                && (idx as int) * 900_000_000_000 <= 900_000_000_000_000_000)
                by (nonlinear_arith)
                requires
                    0 <= idx < 1_000_000,
            ;
            assert(values@.take(idx + 1).drop_last() =~= values@.take(idx as int));
            assert(values@.take(idx + 1).last() == values@[idx as int]);
        }
        sum_v_sq = sum_v_sq + v * v;
        sum_i_sq = sum_i_sq + i * i;
        sum_vi = sum_vi + v * i;
        idx = idx + 1;
    }
    proof {
        assert(values@.take(n as int) =~= values@);
        lemma_window_sums_bounded(values@);
        lemma_div_pos_is_pos(spec_sum_v_sq(values@), n as int);
        lemma_div_pos_is_pos(spec_sum_i_sq(values@), n as int);
        assert(spec_sum_v_sq(values@) <= (n as int) * 1_000_000_000_000 ==> spec_sum_v_sq(values@)
            / (n as int) <= 1_000_000_000_000) by (nonlinear_arith)
            requires
                n >= 1,
                0 <= spec_sum_v_sq(values@),
        ;
        assert(spec_sum_i_sq(values@) <= (n as int) * 810_000_000_000 ==> spec_sum_i_sq(values@)
            / (n as int) <= 810_000_000_000) by (nonlinear_arith)
            requires
                n >= 1,
                0 <= spec_sum_i_sq(values@),
        ;
    }
    let mean_v_sq: i64 = sum_v_sq / n as i64;
    let mean_i_sq: i64 = sum_i_sq / n as i64;
    let v_rms_u = isqrt_u64(mean_v_sq as u64);
    let i_rms_u = isqrt_u64(mean_i_sq as u64);
    proof {
        assert(v_rms_u * v_rms_u <= 1_000_000_000_000 ==> v_rms_u <= 1_000_000)
            by (nonlinear_arith);
        assert(i_rms_u * i_rms_u <= 810_000_000_000 ==> i_rms_u <= 900_000) by (nonlinear_arith);
    }
    let power_mkw = clamp_i64(
        div_tz_i64(div_tz_i64(sum_vi, n as i64), 1_000_000),
        0,
        POWER_MEASURE_MAX_MKW,
    );
    WindowResult { v_rms_mv: v_rms_u as i64, i_rms_ma: i_rms_u as i64, power_mkw }
}

/// The same computation over a window of raw code pairs: each pair is put
/// through the two channel conversions, then the window statistics are
/// taken over the converted values.
pub fn process_sample_window(pairs: &Vec<(u16, u16)>) -> (r: WindowResult)
    requires
        1 <= pairs@.len() <= MAX_WINDOW_PAIRS,
    ensures
        ({
            let vals = spec_converted_pairs(pairs@);
            &&& r.v_rms_mv * r.v_rms_mv <= spec_sum_v_sq(vals) / (vals.len() as int)
            &&& spec_sum_v_sq(vals) / (vals.len() as int) < (r.v_rms_mv + 1) * (r.v_rms_mv + 1)
            &&& r.i_rms_ma * r.i_rms_ma <= spec_sum_i_sq(vals) / (vals.len() as int)
            &&& spec_sum_i_sq(vals) / (vals.len() as int) < (r.i_rms_ma + 1) * (r.i_rms_ma + 1)
            &&& r.power_mkw == clamped(
                div_tz(div_tz(spec_sum_vi(vals), vals.len() as int), 1_000_000),
                0,
                POWER_MEASURE_MAX_MKW as int,
            )
        }),
        0 <= r.v_rms_mv <= VOLTAGE_MEASURE_MAX_MV,
        0 <= r.i_rms_ma <= CURRENT_MEASURE_MAX_MA,
        0 <= r.power_mkw <= POWER_MEASURE_MAX_MKW,
{
    let n = pairs.len();
    let mut values: Vec<(i64, i64)> = Vec::new();
    let mut idx: usize = 0;
    while idx < n
        invariant
            idx <= n,
            n == pairs@.len(),
            values@.len() == idx,
            forall|j: int|
                0 <= j < idx ==> #[trigger] values@[j] == (spec_dc_voltage_mv(pairs@[j].0) as i64,
                spec_coil_current_ma(pairs@[j].1) as i64),
        decreases n - idx,
    {
        let (v_code, i_code) = pairs[idx];
        let v = convert_dc_voltage(v_code);
        let i = convert_coil_current(i_code);
        values.push((v, i));
        idx = idx + 1;
    }
    proof {
        assert(values@ =~= spec_converted_pairs(pairs@));
        assert forall|j: int| 0 <= j < values@.len() implies 0 <= (#[trigger] values@[j]).0
            <= VOLTAGE_MEASURE_MAX_MV && -CURRENT_MEASURE_MAX_MA <= values@[j].1
            <= CURRENT_MEASURE_MAX_MA by {
            assert(values@[j] == (spec_dc_voltage_mv(pairs@[j].0) as i64, spec_coil_current_ma(
                pairs@[j].1,
            ) as i64));
        }
    }
    compute_window_rms(&values)
}

// ------------------------------------------------------------------
// Duty-cycle-encoded module temperature.
// ------------------------------------------------------------------

/// Duty of one observed cycle, parts per million, clamped to the valid
/// range; nothing when the capture saw no cycle at all.
pub open spec fn spec_duty_ppm(high_cycles: u32, low_cycles: u32) -> Option<int> {
    let total = high_cycles + low_cycles;
    if total == 0 {
        Option::None
    } else {
        Option::Some(
            clamped(
                high_cycles * 1_000_000 / total,
                PWM_MIN_DUTY_PPM as int,
                PWM_MAX_DUTY_PPM as int,
            ),
        )
    }
}

pub fn duty_from_cycles(high_cycles: u32, low_cycles: u32) -> (r: Option<i64>)
    ensures
        r == match spec_duty_ppm(high_cycles, low_cycles) {
            Option::Some(d) => Option::Some(d as i64),
            Option::None => Option::<i64>::None,
        },
        r is Some ==> PWM_MIN_DUTY_PPM <= r->0 <= PWM_MAX_DUTY_PPM,
{
    let total: i64 = high_cycles as i64 + low_cycles as i64;
    if total == 0 {
        Option::None
    } else {
        proof {
            lemma_div_pos_is_pos(high_cycles * 1_000_000, total as int);
            lemma_div_is_ordered(
                high_cycles * 1_000_000,
                0xffff_ffff_int * 1_000_000,
                total as int,
            );
        }
        let duty: i64 = high_cycles as i64 * 1_000_000 / total;
        Option::Some(clamp_i64(duty, PWM_MIN_DUTY_PPM, PWM_MAX_DUTY_PPM))
    }
}

/// Sum of a sequence of duty samples.
pub open spec fn spec_sum_i64(s: Seq<i64>) -> int
    decreases s.len(),
{
    if s.len() == 0 {
        0
    } else {
        spec_sum_i64(s.drop_last()) + s.last()
    }
}

/// Mean of the collected duty samples, clamped to the valid duty range.
pub fn average_duty_ppm(duties: &Vec<i64>) -> (r: i64)
    requires
        1 <= duties@.len() <= MAX_WINDOW_PAIRS,
        forall|j: int|
            0 <= j < duties@.len() ==> PWM_MIN_DUTY_PPM <= #[trigger] duties@[j]
                <= PWM_MAX_DUTY_PPM,
    ensures
        r == clamped(
            spec_sum_i64(duties@) / (duties@.len() as int),
            PWM_MIN_DUTY_PPM as int,
            PWM_MAX_DUTY_PPM as int,
        ),
        PWM_MIN_DUTY_PPM <= r <= PWM_MAX_DUTY_PPM,
{
    let n = duties.len();
    let mut sum: i64 = 0;
    let mut idx: usize = 0;
    while idx < n
        invariant
            idx <= n,
            n == duties@.len(),
            1 <= n <= MAX_WINDOW_PAIRS,
            forall|j: int|
                0 <= j < duties@.len() ==> PWM_MIN_DUTY_PPM <= #[trigger] duties@[j]
                    <= PWM_MAX_DUTY_PPM,
            sum == spec_sum_i64(duties@.take(idx as int)),
            0 <= sum <= (idx as int) * (PWM_MAX_DUTY_PPM as int),
        decreases n - idx,
    {
        proof {
            assert(duties@.take(idx + 1).drop_last() =~= duties@.take(idx as int));
            assert((idx as int) * (PWM_MAX_DUTY_PPM as int) <= 950_000_000_000)
                by (nonlinear_arith)
                requires
                    0 <= idx < 1_000_000,
            ;
            assert((idx + 1) * (PWM_MAX_DUTY_PPM as int) == (idx as int) * (
            PWM_MAX_DUTY_PPM as int) + PWM_MAX_DUTY_PPM) by (nonlinear_arith);
        }
        sum = sum + duties[idx];
        idx = idx + 1;
    }
    proof {
        assert(duties@.take(n as int) =~= duties@);
        lemma_div_pos_is_pos(spec_sum_i64(duties@), n as int);
    }
    clamp_i64(sum / n as i64, PWM_MIN_DUTY_PPM, PWM_MAX_DUTY_PPM)
}

/// The duty-to-voltage calibration line: duty 10 percent reads 4.5 volts,
/// duty 88 percent reads 0.6 volts, linear and decreasing in between, in
/// millivolts.  One part per million of duty is worth 1/200 millivolt.
pub open spec fn spec_duty_to_voltage_mv(duty_ppm: int) -> int {
    let d = clamped(duty_ppm, PWM_LOW_DUTY_PPM as int, PWM_HIGH_DUTY_PPM as int);
    PWM_LOW_MV + (PWM_HIGH_DUTY_PPM - d) / 200
}

pub fn duty_to_voltage(duty_ppm: i64) -> (mv: i64)
    requires
        0 <= duty_ppm <= 1_000_000,
    ensures
        mv == spec_duty_to_voltage_mv(duty_ppm as int),
        PWM_LOW_MV <= mv <= PWM_HIGH_MV,
{
    let d = clamp_i64(duty_ppm, PWM_LOW_DUTY_PPM, PWM_HIGH_DUTY_PPM);
    proof {
        lemma_div_pos_is_pos(PWM_HIGH_DUTY_PPM - d, 200);
        lemma_div_is_ordered(PWM_HIGH_DUTY_PPM - d, 780_000, 200);
    }
    PWM_LOW_MV + (PWM_HIGH_DUTY_PPM - d) / 200
}

/// Resistance seen by the module thermistor's current source for a sense
/// voltage: the scale is 0.000203 volts per ohm, and the series resistor
/// below the sense point is subtracted.
pub open spec fn spec_module_resistance_ohm(voltage_mv: int) -> int {
    voltage_mv * 1_000 / (MODULE_V_PER_R_SCALE as int) - MODULE_SERIES_R_OHM
}

pub fn module_resistance_ohm(voltage_mv: i64) -> (r_ohm: i64)
    requires
        0 <= voltage_mv <= ADS_SUPPLY_MV,
    ensures
        r_ohm == spec_module_resistance_ohm(voltage_mv as int),
        -MODULE_SERIES_R_OHM <= r_ohm <= 20_000_000,
{
    proof {
        lemma_div_pos_is_pos(voltage_mv * 1_000, MODULE_V_PER_R_SCALE as int);
        lemma_div_is_ordered(voltage_mv * 1_000, 5_000_000, MODULE_V_PER_R_SCALE as int);
    }
    voltage_mv * 1_000 / MODULE_V_PER_R_SCALE - MODULE_SERIES_R_OHM
}

// ------------------------------------------------------------------
// Writing fused results into the measurement record.
// ------------------------------------------------------------------

impl Measurements {
    /// Publish one completed RMS window: smooth the three electrical
    /// channels and mark the record valid.  No other field changes.
    pub fn apply_power_window(&mut self, w: WindowResult)
        requires
            old(self).wf(),
            0 <= w.v_rms_mv <= VOLTAGE_MEASURE_MAX_MV,
            0 <= w.i_rms_ma <= CURRENT_MEASURE_MAX_MA,
            0 <= w.power_mkw <= POWER_MEASURE_MAX_MKW,
        ensures
            *final(self) == (Measurements {
                dc_voltage_mv: spec_smoothed(
                    old(self).dc_voltage_mv as int,
                    w.v_rms_mv as int,
                ) as i64,
                coil_current_rms_ma: spec_smoothed(
                    old(self).coil_current_rms_ma as int,
                    w.i_rms_ma as int,
                ) as i64,
                coil_power_mkw: spec_smoothed(
                    old(self).coil_power_mkw as int,
                    w.power_mkw as int,
                ) as i64,
                valid: true,
                ..*old(self)
            }),
            final(self).wf(),
    {
        self.dc_voltage_mv = smooth_value(self.dc_voltage_mv, w.v_rms_mv);
        self.coil_current_rms_ma = smooth_value(self.coil_current_rms_ma, w.i_rms_ma);
        self.coil_power_mkw = smooth_value(self.coil_power_mkw, w.power_mkw);
        self.valid = true;
    }

    /// Publish one poll of the multiplexed temperature converter.  The
    /// disconnect flag is always stored; a disconnected coil sensor keeps
    /// its previous smoothed temperature.  No other field changes.
    pub fn apply_coil_pcb(&mut self, coil_temp_mc: i64, disconnected: bool, pcb_temp_mc: i64)
        requires
            old(self).wf(),
            TEMP_MEASURE_MIN_MC <= coil_temp_mc <= TEMP_MEASURE_MAX_MC,
            TEMP_MEASURE_MIN_MC <= pcb_temp_mc <= TEMP_MEASURE_MAX_MC,
        ensures
            *final(self) == (Measurements {
                coil_temp_disconnected: disconnected,
                coil_temp_mc: if disconnected {
                    old(self).coil_temp_mc
                } else {
                    spec_smoothed(old(self).coil_temp_mc as int, coil_temp_mc as int) as i64
                },
                pcb_temp_mc: spec_smoothed(old(self).pcb_temp_mc as int, pcb_temp_mc as int) as i64,
                ..*old(self)
            }),
            final(self).wf(),
    {
        self.coil_temp_disconnected = disconnected;
        if !disconnected {
            self.coil_temp_mc = smooth_value(self.coil_temp_mc, coil_temp_mc);
        }
        self.pcb_temp_mc = smooth_value(self.pcb_temp_mc, pcb_temp_mc);
    }

    /// Publish one infrared reading.  No other field changes.
    pub fn apply_object_temp(&mut self, object_temp_mc: i64)
        requires
            old(self).wf(),
            TEMP_MEASURE_MIN_MC <= object_temp_mc <= TEMP_MEASURE_MAX_MC,
        ensures
            *final(self) == (Measurements {
                object_temp_mc: spec_smoothed(
                    old(self).object_temp_mc as int,
                    object_temp_mc as int,
                ) as i64,
                ..*old(self)
            }),
            final(self).wf(),
    {
        self.object_temp_mc = smooth_value(self.object_temp_mc, object_temp_mc);
    }

    /// Publish one duty-cycle temperature result.  No other field changes.
    pub fn apply_module_temp(&mut self, module_temp_mc: i64)
        requires
            old(self).wf(),
            TEMP_MEASURE_MIN_MC <= module_temp_mc <= TEMP_MEASURE_MAX_MC,
        ensures
            *final(self) == (Measurements {
                module_temp_mc: spec_smoothed(
                    old(self).module_temp_mc as int,
                    module_temp_mc as int,
                ) as i64,
                ..*old(self)
            }),
            final(self).wf(),
    {
        self.module_temp_mc = smooth_value(self.module_temp_mc, module_temp_mc);
    }
}

} // verus!
