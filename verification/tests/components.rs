// Behavioural tests for the chip's building blocks: envelope, oscillator,
// voice, filter, output stage and sampling configuration.

use resid::ChipModel;
use resid::envelope::EnvelopeGenerator;
use resid::envelope::rate_period;
use resid::external_filter::ExternalFilter;
use resid::filter::Filter;
use resid::filter::cutoff_f0;
use resid::sampler::Sampler;
use resid::voice::Voice;
use resid::wave::WaveformGenerator;
use resid::wave::combined_st;

fn wave_at(freq: u16, cycles: u32, control: u8, pw: u16) -> WaveformGenerator {
    let mut w = WaveformGenerator::new(ChipModel::Mos6581, 0);
    w.set_frequency_lo((freq & 0xff) as u8);
    w.set_frequency_hi((freq >> 8) as u8);
    w.set_pulse_width_lo((pw & 0xff) as u8);
    w.set_pulse_width_hi((pw >> 8) as u8);
    w.set_control(control);
    w.clock_delta(cycles);
    w
}

#[test]
fn envelope_attack_first_step() {
    let mut e = EnvelopeGenerator::new();
    assert_eq!(e.output(), 0);
    e.set_control(1);
    e.clock_delta(8);
    assert_eq!(e.output(), 0);
    e.clock_delta(1);
    assert_eq!(e.output(), 1);
}

#[test]
fn envelope_attack_reaches_top() {
    let mut e = EnvelopeGenerator::new();
    e.set_control(1);
    e.clock_delta(9 * 255);
    assert_eq!(e.output(), 255);
    // decay nibble 0: the level starts falling toward sustain 0
    e.clock_delta(9);
    assert_eq!(e.output(), 254);
}

#[test]
fn envelope_gate_off_releases() {
    let mut e = EnvelopeGenerator::new();
    e.set_control(1);
    e.clock_delta(9 * 255);
    e.set_control(0);
    e.clock_delta(9);
    assert_eq!(e.output(), 254);
}

#[test]
fn envelope_holds_at_zero() {
    let mut e = EnvelopeGenerator::new();
    // never gated: the level stays frozen at zero
    e.clock_delta(100000);
    assert_eq!(e.output(), 0);
}

#[test]
fn envelope_rate_table() {
    assert_eq!(rate_period(0), 9);
    assert_eq!(rate_period(9), 977);
    assert_eq!(rate_period(15), 31251);
}

#[test]
fn envelope_reset_restores_power_on() {
    let mut e = EnvelopeGenerator::new();
    e.set_control(1);
    e.clock_delta(12345);
    e.reset();
    let f = EnvelopeGenerator::new();
    assert_eq!(e.output(), f.output());
    assert_eq!(e.gate, f.gate);
    assert_eq!(e.rate_counter, f.rate_counter);
}

#[test]
fn oscillator_phase_accumulates() {
    let w = wave_at(0x19b1, 0x1000, 0x20, 0);
    assert_eq!(w.accumulator, 0x9b1000);
    assert_eq!(w.output(), 2481); // sawtooth: top 12 bits
}

#[test]
fn oscillator_triangle() {
    let w = wave_at(0x19b1, 0x1000, 0x10, 0);
    assert_eq!(w.output(), 3229);
}

#[test]
fn oscillator_pulse() {
    let w = wave_at(0x19b1, 0x1000, 0x40, 0x200);
    assert_eq!(w.output(), 4095);
    let low = wave_at(0x19b1, 1, 0x40, 0x200);
    assert_eq!(low.output(), 0);
}

#[test]
fn oscillator_noise_seed() {
    let w = wave_at(0x0001, 0, 0x80, 0);
    assert_eq!(w.output(), 0xfe0);
}

#[test]
fn oscillator_phase_wraparound() {
    // 4096 cycles at frequency 4096 add exactly 2^24: back to phase 0
    let w = wave_at(0x1000, 0x1000, 0x20, 0);
    assert_eq!(w.accumulator, 0);
}

#[test]
fn oscillator_test_bit_freezes() {
    let mut w = WaveformGenerator::new(ChipModel::Mos6581, 0);
    w.set_frequency_lo(0xff);
    w.set_control(0x08);
    w.clock_delta(100000);
    assert_eq!(w.accumulator, 0);
    assert_eq!(w.shift_register, 0x7ffff8);
}

#[test]
fn combined_waveform_bytes() {
    assert_eq!(combined_st(ChipModel::Mos6581, 2044), 127);
    assert_eq!(combined_st(ChipModel::Mos6581, 3839), 7);
    assert_eq!(combined_st(ChipModel::Mos6581, 4089), 62);
    assert_eq!(combined_st(ChipModel::Mos6581, 100), 0);
}

#[test]
fn voice_silent_output_is_dc() {
    let v = Voice::new(ChipModel::Mos6581, 0);
    assert_eq!(v.output(), 0x800 * 0xff);
}

#[test]
fn voice_reset_restores_power_on() {
    let mut v = Voice::new(ChipModel::Mos6581, 2);
    v.set_control(0x41);
    v.reset();
    assert_eq!(v.output(), 0x800 * 0xff);
    assert_eq!(v.get_wave().accumulator, 0);
    assert_eq!(v.get_wave().sync_source, 2);
}

#[test]
fn voice_sync_source_wiring() {
    let mut v = Voice::new(ChipModel::Mos6581, 0);
    v.set_sync_source(1);
    assert_eq!(v.get_wave().sync_source, 1);
}

#[test]
fn cutoff_curve_calibration_points() {
    assert_eq!(cutoff_f0(ChipModel::Mos6581, 0), 220);
    assert_eq!(cutoff_f0(ChipModel::Mos6581, 7), 220);
    assert_eq!(cutoff_f0(ChipModel::Mos6581, 128), 230);
    assert_eq!(cutoff_f0(ChipModel::Mos6581, 1023), 6000);
    assert_eq!(cutoff_f0(ChipModel::Mos8580, 0), 0);
    // the last register value sits at the far end of its curve segment;
    // the fixed-point cubic lands a fraction of a percent from the
    // 12500 Hz calibration point
    assert_eq!(cutoff_f0(ChipModel::Mos8580, 2047), 12526);
}

#[test]
fn filter_power_on_coefficients() {
    let f = Filter::new(ChipModel::Mos6581);
    assert_eq!(f.q1024, 1448); // 1024 / 0.707
    assert_eq!(f.w0_ceil_dt, 1449); // 2*pi*220*1.048576
    assert_eq!(f.mixer_dc, -454);
    let g = Filter::new(ChipModel::Mos8580);
    assert_eq!(g.mixer_dc, 0);
}

#[test]
fn filter_bypass_mixes_unfiltered() {
    let mut f = Filter::new(ChipModel::Mos6581);
    f.enable_filter(false);
    f.set_mode_vol(4);
    let dc = 0x800 * 0xff; // a silent voice's output
    f.clock_delta(22, dc, dc, dc, 0);
    assert_eq!(f.output(), ((dc as i64 / 128) * 3 - 454) * 4);
}

#[test]
fn filter_zero_state_is_transparent() {
    // with no input routed through it, the enabled filter mixes the same
    // signal as the bypassed one
    let dc = 0x800 * 0xff;
    let mut a = Filter::new(ChipModel::Mos6581);
    a.enable_filter(false);
    a.set_mode_vol(4);
    a.clock_delta(22, dc, dc, dc, 0);
    let mut b = Filter::new(ChipModel::Mos6581);
    b.set_mode_vol(4);
    b.clock_delta(22, dc, dc, dc, 0);
    assert_eq!(a.output(), b.output());
}

#[test]
fn filter_voice3_disconnect() {
    let dc = 0x800 * 0xff;
    let mut f = Filter::new(ChipModel::Mos6581);
    f.enable_filter(false);
    f.set_mode_vol(0x80 | 4); // voice-3 disconnect + volume 4
    f.clock_delta(22, dc, dc, dc, 0);
    assert_eq!(f.output(), ((dc as i64 / 128) * 2 - 454) * 4);
}

#[test]
fn filter_resonance_coefficient_range() {
    let mut f = Filter::new(ChipModel::Mos6581);
    f.set_res_filt(0xf0);
    assert_eq!(f.q1024, 599); // 1024 / (0.707 + 15/15)
    assert_eq!(f.filt, 0);
    f.set_res_filt(0x0f);
    assert_eq!(f.q1024, 1448);
    assert_eq!(f.filt, 0xf);
}

#[test]
fn external_filter_bypass_removes_dc() {
    let mut e = ExternalFilter::new(ChipModel::Mos6581);
    e.enable_filter(false);
    e.clock_delta(1, 47144);
    assert_eq!(e.output(), 47144 - 280065);
}

#[test]
fn external_filter_poles_track_input() {
    let mut e = ExternalFilter::new(ChipModel::Mos6581);
    e.clock_delta(1, 47144);
    assert_eq!(e.output(), 0); // capacitors start discharged
    e.clock_delta(1, 47144);
    assert_eq!(e.output(), 4707); // low-pass pole moving toward the input
}

#[test]
fn sampler_default_ratio() {
    let p = Sampler::new();
    // 985248 cycles per second against 44100 samples per second, 16.16
    assert_eq!(p.cycles_per_sample, 1464154);
    assert_eq!(p.sample_offset, 0);
}

#[test]
fn chip_register_shadow_readback() {
    let mut sid = resid::sid::Sid::new(ChipModel::Mos6581);
    sid.write(0x00, 0xb1);
    sid.write(0x01, 0x19);
    assert_eq!(sid.read(0x00), 0xb1);
    assert_eq!(sid.read(0x01), 0x19);
    // the two read-only addresses expose voice 3's live state
    assert_eq!(sid.read(0x1b), 0);
    assert_eq!(sid.read(0x1c), 0);
    // addresses beyond the map are accepted and ignored
    sid.write(0x20, 5);
    assert_eq!(sid.read(0x20), 0);
}

#[test]
fn chip_reset_clears_registers() {
    let mut sid = resid::sid::Sid::new(ChipModel::Mos6581);
    sid.write(0x00, 0xff);
    sid.write(0x18, 0x0f);
    sid.reset();
    assert_eq!(sid.read(0x00), 0);
    assert_eq!(sid.read(0x18), 0);
    assert_eq!(sid.output(), 0);
}

#[test]
fn chip_clock_advances_oscillator() {
    let mut sid = resid::sid::Sid::new(ChipModel::Mos6581);
    // voice 3 at frequency 0x1000, sawtooth: its live output is readable
    sid.write(0x0e, 0x00);
    sid.write(0x0f, 0x10);
    sid.write(0x12, 0x20);
    sid.clock_chip(0x100);
    // accumulator 0x100000, sawtooth 0x100, readback is its top 8 bits
    assert_eq!(sid.read(0x1b), 0x10);
}
