use shrinkfit_core::ads7828::{decode_sample, generate_command_byte, word_from_le_bytes};
use shrinkfit_core::channel_buffers::ChannelBuffers;
use shrinkfit_core::num::isqrt_u64;
use shrinkfit_core::sensors::{
    average_duty_ppm, code_to_voltage, compute_window_rms, convert_coil_current,
    convert_dc_voltage, duty_from_cycles, duty_to_voltage, module_resistance_ohm,
    ntc_pullup_resistance, ntc_temperature_mc, object_temp_from_raw, pcb_temp_v_to_c,
    process_sample_window, smooth_value, COIL_NTC_BETA_K, COIL_NTC_T0_MK, MODULE_NTC_BETA_K,
    MODULE_NTC_T0_MK,
};
use shrinkfit_core::state::Measurements;

#[test]
fn constant_dc_window_gives_exact_rms_and_power() {
    // A full window of the same pair: 100 volts and 10 amps.  The RMS of a
    // constant is the constant, and the mean power is 1 kilowatt.
    let values: Vec<(i64, i64)> = vec![(100_000, 10_000); 512];
    let r = compute_window_rms(&values);
    assert_eq!(r.v_rms_mv, 100_000);
    assert_eq!(r.i_rms_ma, 10_000);
    assert_eq!(r.power_mkw, 1_000);
}

#[test]
fn reversed_current_still_yields_nonnegative_power_clamp() {
    // Current flowing the other way gives a negative mean product, which
    // the power output clamps at zero.
    let values: Vec<(i64, i64)> = vec![(100_000, -10_000); 64];
    let r = compute_window_rms(&values);
    assert_eq!(r.v_rms_mv, 100_000);
    assert_eq!(r.i_rms_ma, 10_000);
    assert_eq!(r.power_mkw, 0);
}

#[test]
fn single_pair_window_works() {
    let values: Vec<(i64, i64)> = vec![(3_000, 2_000)];
    let r = compute_window_rms(&values);
    assert_eq!(r.v_rms_mv, 3_000);
    assert_eq!(r.i_rms_ma, 2_000);
    // 3 V times 2 A is 6 W.
    assert_eq!(r.power_mkw, 6);
}

#[test]
fn raw_window_uses_the_channel_conversions() {
    // Raw zero codes: zero bus volts, and a current clamped at the
    // negative sensor maximum (the reading sits far below the center tap).
    let pairs: Vec<(u16, u16)> = vec![(0, 0); 16];
    let r = process_sample_window(&pairs);
    assert_eq!(r.v_rms_mv, 0);
    assert_eq!(r.i_rms_ma, 900_000);
    assert_eq!(r.power_mkw, 0);
}

#[test]
fn isqrt_exact_values() {
    assert_eq!(isqrt_u64(0), 0);
    assert_eq!(isqrt_u64(1), 1);
    assert_eq!(isqrt_u64(3), 1);
    assert_eq!(isqrt_u64(4), 2);
    assert_eq!(isqrt_u64(99), 9);
    assert_eq!(isqrt_u64(10_000_000_000), 100_000);
    assert_eq!(isqrt_u64(u64::MAX), 4_294_967_295);
}

#[test]
fn dc_voltage_conversion_clamps_at_the_rail() {
    assert_eq!(convert_dc_voltage(0), 0);
    // Full scale reads far above the representable bus voltage.
    assert_eq!(convert_dc_voltage(4_095), 1_000_000);
}

#[test]
fn current_conversion_is_centered_and_clamped() {
    // Code zero sits the full center voltage below the zero-current tap.
    assert_eq!(convert_coil_current(0), -900_000);
    assert_eq!(convert_coil_current(4_095), 900_000);
}

#[test]
fn smoothing_moves_one_fifth_of_the_way() {
    assert_eq!(smooth_value(0, 12_345), 12_345);
    assert_eq!(smooth_value(1_000, 2_000), 1_200);
    assert_eq!(smooth_value(2_000, 1_000), 1_800);
    assert_eq!(smooth_value(-1_000, 0), -800);
    assert_eq!(smooth_value(1_000, 1_000), 1_000);
}

#[test]
fn thermistor_reads_its_nominal_temperature_at_nominal_resistance() {
    // Resistance equal to the nominal resistance: the logarithm term is
    // zero and both thermistors read exactly 25 degrees Celsius.
    assert_eq!(ntc_temperature_mc(0, COIL_NTC_BETA_K, COIL_NTC_T0_MK), 25_000);
    assert_eq!(ntc_temperature_mc(0, MODULE_NTC_BETA_K, MODULE_NTC_T0_MK), 25_000);
}

#[test]
fn thermistor_direction_follows_the_beta_model() {
    // More resistance than nominal (positive logarithm) means colder;
    // less resistance means hotter.
    let colder = ntc_temperature_mc(693_147, COIL_NTC_BETA_K, COIL_NTC_T0_MK);
    let hotter = ntc_temperature_mc(-693_147, COIL_NTC_BETA_K, COIL_NTC_T0_MK);
    assert!(colder < 25_000);
    assert!(hotter > 25_000);
}

#[test]
fn divider_midpoint_reads_the_nominal_resistance() {
    // At half the supply the divider reads exactly the series resistance,
    // which equals the coil thermistor's nominal resistance.
    assert_eq!(ntc_pullup_resistance(2_500), Some(10_000));
    // Saturated sense voltages mean no sensor is being read.
    assert_eq!(ntc_pullup_resistance(5), None);
    assert_eq!(ntc_pullup_resistance(4_995), None);
}

#[test]
fn ads_codes_convert_to_divider_voltages() {
    assert_eq!(code_to_voltage(0), 0);
    assert_eq!(code_to_voltage(4_095), 5_000);
    assert_eq!(code_to_voltage(2_048), 2_500);
}

#[test]
fn pcb_sensor_formula_and_range() {
    assert_eq!(pcb_temp_v_to_c(500), 0);
    assert_eq!(pcb_temp_v_to_c(1_000), 50_000);
    assert_eq!(pcb_temp_v_to_c(0), -40_000);
    assert_eq!(pcb_temp_v_to_c(5_000), 150_000);
}

#[test]
fn infrared_word_converts_through_the_kelvin_offset() {
    assert_eq!(object_temp_from_raw(0), -273_150);
    // 14908 counts of 0.02 K are 298.16 K, which is 25.01 degrees Celsius.
    assert_eq!(object_temp_from_raw(14_908), 25_010);
}

#[test]
fn duty_cycles_to_parts_per_million() {
    assert_eq!(duty_from_cycles(0, 0), None);
    assert_eq!(duty_from_cycles(1, 3), Some(250_000));
    // Degenerate all-high and all-low cycles clamp to the valid range.
    assert_eq!(duty_from_cycles(1, 0), Some(950_000));
    assert_eq!(duty_from_cycles(0, 1), Some(50_000));
}

#[test]
fn duty_average_is_the_clamped_mean() {
    let duties: Vec<i64> = vec![200_000, 400_000, 600_000];
    assert_eq!(average_duty_ppm(&duties), 400_000);
    let single: Vec<i64> = vec![950_000];
    assert_eq!(average_duty_ppm(&single), 950_000);
}

#[test]
fn duty_to_voltage_is_the_inverted_calibration_line() {
    assert_eq!(duty_to_voltage(100_000), 4_500);
    assert_eq!(duty_to_voltage(880_000), 600);
    assert_eq!(duty_to_voltage(490_000), 2_550);
    // Duties outside the calibration points clamp to them.
    assert_eq!(duty_to_voltage(50_000), 4_500);
    assert_eq!(duty_to_voltage(950_000), 600);
}

#[test]
fn module_resistance_subtracts_the_series_resistor() {
    assert_eq!(module_resistance_ohm(2_500), 2_500_000 / 203 - 5_100);
    assert_eq!(module_resistance_ohm(0), -5_100);
}

#[test]
fn measurement_updates_touch_only_their_own_fields() {
    let mut m = Measurements::new();
    m.apply_object_temp(25_010);
    assert_eq!(m.object_temp_mc, 25_010);
    assert_eq!(m.coil_temp_mc, 0);
    assert!(!m.valid);

    m.apply_coil_pcb(40_000, false, 30_000);
    assert_eq!(m.coil_temp_mc, 40_000);
    assert_eq!(m.pcb_temp_mc, 30_000);
    assert!(!m.coil_temp_disconnected);
    assert_eq!(m.object_temp_mc, 25_010);

    // A disconnected coil sensor keeps the previous smoothed temperature.
    m.apply_coil_pcb(0, true, 30_000);
    assert_eq!(m.coil_temp_mc, 40_000);
    assert!(m.coil_temp_disconnected);

    m.apply_module_temp(25_000);
    assert_eq!(m.module_temp_mc, 25_000);

    // Smoothing engages once a value is nonzero.
    m.apply_object_temp(30_010);
    assert_eq!(m.object_temp_mc, 26_010);
}

#[test]
fn window_publication_marks_the_record_valid() {
    let mut m = Measurements::new();
    let values: Vec<(i64, i64)> = vec![(100_000, 10_000); 512];
    let w = compute_window_rms(&values);
    m.apply_power_window(w);
    assert!(m.valid);
    assert_eq!(m.dc_voltage_mv, 100_000);
    assert_eq!(m.coil_current_rms_ma, 10_000);
    assert_eq!(m.coil_power_mkw, 1_000);
}

#[test]
fn command_bytes_select_mode_channel_and_power_bits() {
    assert_eq!(generate_command_byte(0, false, false), 0x80);
    assert_eq!(generate_command_byte(0, true, true), 0x8C);
    assert_eq!(generate_command_byte(6, false, true), 0xB4);
    assert_eq!(generate_command_byte(3, false, true), 0xD4);
    assert_eq!(generate_command_byte(7, true, false), 0xF8);
    assert_eq!(generate_command_byte(8, true, true), 0);
}

#[test]
fn sample_decoding_masks_to_twelve_bits() {
    assert_eq!(decode_sample(0xFF, 0xFF), 4_095);
    assert_eq!(decode_sample(0x0A, 0x34), 2_612);
    assert_eq!(decode_sample(0xF0, 0x01), 1);
    assert_eq!(word_from_le_bytes(0x34, 0x12), 0x1234);
}

#[test]
fn channel_buffers_average_and_clear() {
    let mut buffers = ChannelBuffers::new();
    assert_eq!(buffers.read_and_clear(0), 0);

    let full = [4_095u16; 8];
    buffers.add_samples(&full);
    buffers.add_samples(&full);
    assert_eq!(buffers.read_and_clear(3), 65_535);
    // Reading cleared the channel.
    assert_eq!(buffers.read_and_clear(3), 0);

    let mut buffers = ChannelBuffers::new();
    let half = [2_048u16; 8];
    buffers.add_samples(&half);
    assert_eq!(buffers.read_and_clear(0), (2_048u64 * 65_535 / 4_095) as u16);
    // Channel numbers wrap onto the eight channels.
    assert_eq!(buffers.read_and_clear(9), (2_048u64 * 65_535 / 4_095) as u16);
}
