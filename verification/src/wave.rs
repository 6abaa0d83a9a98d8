//! Oscillator and noise generator for one voice.
//!
//! The oscillator is a 24-bit phase accumulator advanced by a 16-bit
//! frequency register every clock cycle.  Four waveforms (triangle,
//! sawtooth, pulse, noise) are derived combinationally from the accumulator
//! and from a 23-bit linear-feedback shift register that is clocked on the
//! rising edge of accumulator bit 19.  Selecting several waveforms at once
//! does not produce their logical combination: the selector lines interact,
//! and the result is modelled by per-revision calibration functions.

use vstd::prelude::*;
use vstd::arithmetic::div_mod::{lemma_add_mod_noop, lemma_small_mod};
use vstd::arithmetic::mul::lemma_mul_is_distributive_add_other_way;
use crate::ChipModel;

verus! {

/// Oscillator state.  `sync_source` is the index of the voice whose
/// oscillator drives hard sync and ring modulation into this one;
/// `sync_source_msb` caches that oscillator's current accumulator top bit,
/// refreshed by the orchestrator whenever any accumulator changes.
pub struct WaveformGenerator {
    pub model: ChipModel,
    pub accumulator: u32,
    pub shift_register: u32,
    pub freq: u16,
    pub pw: u16,
    pub waveform: u8,
    pub test: bool,
    pub ring_mod: bool,
    pub sync: bool,
    pub msb_rising: bool,
    pub sync_source: usize,
    pub sync_source_msb: bool,
}

/// Well-formedness: the accumulator is 24 bits, the noise register 23 bits,
/// the pulse width 12 bits, the waveform selector 4 bits, and the sync
/// source one of the three voices.
pub open spec fn wave_wf(w: WaveformGenerator) -> bool {
    &&& w.accumulator < 0x1000000
    &&& w.shift_register < 0x800000
    &&& w.pw < 0x1000
    &&& w.waveform < 16
    &&& w.sync_source < 3
}

/// Seed pattern the noise shift register holds at power-on and while the
/// test bit is asserted.
pub open spec fn spec_noise_seed() -> u32 {
    0x7ffff8
}

/// One step of the 23-bit noise LFSR: feedback is bit 22 xor bit 17.
pub open spec fn spec_noise_shift(sr: u32) -> u32 {
    (((sr << 1) & 0x7fffff) | (((sr >> 22) ^ (sr >> 17)) & 1)) as u32
}

/// Whether the final, partial accumulator increment of an advance fails to
/// produce a rising edge on accumulator bit 19 (the noise clock).  `acc` is
/// the accumulator after the whole advance and `sp` the size of the final
/// increment.
pub open spec fn spec_noise_break(acc: u32, sp: u64) -> bool {
    let dm = ((acc as i64) - (sp as i64)) as i64;
    if sp <= 0x80000 {
        (dm & 0x80000) != 0 || ((acc as i64) & 0x80000) == 0
    } else {
        (dm & 0x80000) != 0 && ((acc as i64) & 0x80000) == 0
    }
}

/// Noise register after an advance that added `delta_acc` to the
/// accumulator, ending at `acc`: one shift per full period of accumulator
/// bit 19, plus one more if the last partial period clocks it.
pub open spec fn spec_noise_clock(sr: u32, acc: u32, delta_acc: int) -> u32
    decreases delta_acc,
    when delta_acc >= 0
{
    if delta_acc <= 0 {
        sr
    } else if delta_acc >= 0x100000 {
        spec_noise_clock(spec_noise_shift(sr), acc, delta_acc - 0x100000)
    } else if spec_noise_break(acc, delta_acc as u64) {
        sr
    } else {
        spec_noise_shift(sr)
    }
}

/// Oscillator state after `delta` clock cycles.  With `test` asserted
/// nothing moves; otherwise the accumulator advances by `delta * freq`
/// modulo 2^24, the rising edge of its top bit is recorded for hard sync,
/// and the noise register is clocked as bit 19 demands.
pub open spec fn spec_wave_clock(w: WaveformGenerator, delta: int) -> WaveformGenerator {
    if w.test || delta <= 0 {
        w
    } else {
        let delta_acc = delta * w.freq;
        let acc = (((w.accumulator + delta_acc) as u64) & 0xffffff) as u32;
        WaveformGenerator {
            accumulator: acc,
            msb_rising: (w.accumulator & 0x800000) == 0 && (acc & 0x800000) != 0,
            shift_register: spec_noise_clock(w.shift_register, acc, delta_acc),
            ..w
        }
    }
}

/// Triangle output: the accumulator's top bit (xored with the sync source's
/// top bit under ring modulation) selects the rising or falling slope.
pub open spec fn spec_wave_tri(w: WaveformGenerator) -> u16 {
    let msb_set = if w.ring_mod {
        ((w.accumulator & 0x800000) != 0) != w.sync_source_msb
    } else {
        (w.accumulator & 0x800000) != 0
    };
    if msb_set {
        ((!w.accumulator >> 11) & 0xfff) as u16
    } else {
        ((w.accumulator >> 11) & 0xfff) as u16
    }
}

/// Sawtooth output: the accumulator's top 12 bits.
pub open spec fn spec_wave_saw(w: WaveformGenerator) -> u16 {
    (w.accumulator >> 12) as u16
}

/// Pulse output: all ones while the accumulator's top 12 bits are at or
/// above the pulse width (and during test), else all zeros.
pub open spec fn spec_wave_pulse(w: WaveformGenerator) -> u16 {
    if w.test || (w.accumulator >> 12) >= w.pw as u32 { 0xfff } else { 0 }
}

/// Noise output: eight tapped bits of the shift register, spread over the
/// top eight bits of the 12-bit output.
pub open spec fn spec_wave_noise(w: WaveformGenerator) -> u16 {
    let s = w.shift_register;
    (((s & 0x400000) >> 11) | ((s & 0x100000) >> 10) | ((s & 0x010000) >> 7)
        | ((s & 0x002000) >> 5) | ((s & 0x000800) >> 4) | ((s & 0x000080) >> 1)
        | ((s & 0x000010) << 1) | ((s & 0x000004) << 2)) as u16
}

/// Triangle value reconstructible from a sawtooth index (the top 12
/// accumulator bits); used by the second revision's combined-waveform model.
pub open spec fn spec_tri_of_saw(idx: u16) -> u16 {
    if idx & 0x800 != 0 {
        let d = (0xfff - (idx & 0xfff)) as u16;
        (d << 1) & 0xfff
    } else {
        (idx << 1) & 0xfff
    }
}

/// Combined sawtooth+triangle byte for a sawtooth index.  On the first
/// revision the fighting selector lines pull the output to ground at all
/// but a few accumulator positions; the nonzero bytes are calibration data.
/// The second revision's cleaner combiner is modelled as the bitwise meet
/// of the two ideal waveforms.
pub open spec fn spec_combined_st(model: ChipModel, idx: u16) -> u8 {
    if model == ChipModel::Mos6581 {
        if idx == 2044 { 127 } else if idx == 3839 { 7 } else if idx == 4089 { 62 } else { 0 }
    } else {
        ((idx & spec_tri_of_saw(idx)) >> 4) as u8
    }
}

/// Combined pulse+triangle byte for a triangle index (the triangle output
/// shifted right once).  First revision: ground; second: the triangle bits.
pub open spec fn spec_combined_pt(model: ChipModel, idx: u16) -> u8 {
    if model == ChipModel::Mos6581 { 0 } else { (idx >> 3) as u8 }
}

/// Combined pulse+sawtooth byte for a sawtooth index.
pub open spec fn spec_combined_ps(model: ChipModel, idx: u16) -> u8 {
    if model == ChipModel::Mos6581 { 0 } else { (idx >> 4) as u8 }
}

/// Combined pulse+sawtooth+triangle byte for a sawtooth index.
pub open spec fn spec_combined_pst(model: ChipModel, idx: u16) -> u8 {
    if model == ChipModel::Mos6581 {
        0
    } else {
        ((idx & spec_tri_of_saw(idx)) >> 4) as u8
    }
}

/// The 12-bit oscillator output for the selected waveform combination.
/// Combinations that include noise pull the output to zero on both
/// revisions.
pub open spec fn spec_wave_output(w: WaveformGenerator) -> u16 {
    if w.waveform == 1 { spec_wave_tri(w) }
    else if w.waveform == 2 { spec_wave_saw(w) }
    else if w.waveform == 3 { (spec_combined_st(w.model, spec_wave_saw(w)) as u16) << 4 }
    else if w.waveform == 4 { spec_wave_pulse(w) }
    else if w.waveform == 5 {
        ((spec_combined_pt(w.model, spec_wave_tri(w) >> 1) as u16) << 4) & spec_wave_pulse(w)
    }
    else if w.waveform == 6 {
        ((spec_combined_ps(w.model, spec_wave_saw(w)) as u16) << 4) & spec_wave_pulse(w)
    }
    else if w.waveform == 7 {
        ((spec_combined_pst(w.model, spec_wave_saw(w)) as u16) << 4) & spec_wave_pulse(w)
    }
    else if w.waveform == 8 { spec_wave_noise(w) }
    else { 0 }
}

/// A calibration byte placed in the top eight bits of the 12-bit output.
fn shl4(v: u8) -> (r: u16)
    ensures
        r == (v as u16) << 4,
        r < 0x1000,
{
    proof {
        assert((v as u16) << 4 < 0x1000) by (bit_vector);
    }
    (v as u16) << 4
}

/// Masking a 12-bit value with another keeps it 12 bits.
proof fn lemma_and_keeps_range(r: u16)
    ensures
        forall|a: u16, b: u16| a < 0x1000 && (b == 0xfff || b == 0) ==> #[trigger] (a & b) < 0x1000,
{
    assert(forall|a: u16, b: u16| a < 0x1000 && (b == 0xfff || b == 0) ==> #[trigger] (a & b) < 0x1000)
        by (bit_vector);
}

/// Power-on state of the oscillator for a given revision and sync partner.
pub open spec fn spec_wave_default(model: ChipModel, sync_source: usize) -> WaveformGenerator {
    WaveformGenerator {
        model: model,
        accumulator: 0,
        shift_register: spec_noise_seed(),
        freq: 0,
        pw: 0,
        waveform: 0,
        test: false,
        ring_mod: false,
        sync: false,
        msb_rising: false,
        sync_source: sync_source,
        sync_source_msb: false,
    }
}

/// Effect of a control-register write on the oscillator: decode the
/// waveform selector and the ring/sync/test bits.  Asserting `test` forces
/// the accumulator to zero and holds the noise register at its seed
/// pattern until the bit is cleared.
pub open spec fn spec_wave_control(w: WaveformGenerator, value: u8) -> WaveformGenerator {
    let w1 = WaveformGenerator {
        waveform: (value >> 4) & 0x0f,
        ring_mod: value & 0x04 != 0,
        sync: value & 0x02 != 0,
        test: value & 0x08 != 0,
        ..w
    };
    if value & 0x08 != 0 {
        WaveformGenerator { accumulator: 0, shift_register: spec_noise_seed(), ..w1 }
    } else {
        w1
    }
}

/// One LFSR step.
fn noise_shift(sr: u32) -> (r: u32)
    ensures
        r == spec_noise_shift(sr),
        r < 0x800000,
{
    let bit0: u32 = ((sr >> 22) ^ (sr >> 17)) & 1;
    let r: u32 = ((sr << 1) & 0x7fffff) | bit0;
    proof {
        assert((((sr << 1) & 0x7fffff) | (((sr >> 22) ^ (sr >> 17)) & 1)) < 0x800000) by (bit_vector);
    }
    r
}

impl WaveformGenerator {
    /// A new oscillator in its power-on state, synced from voice
    /// `sync_source`.
    pub fn new(model: ChipModel, sync_source: usize) -> (r: WaveformGenerator)
        requires
            sync_source < 3,
        ensures
            r == spec_wave_default(model, sync_source),
            wave_wf(r),
    {
        WaveformGenerator {
            model: model,
            accumulator: 0,
            shift_register: 0x7ffff8,
            freq: 0,
            pw: 0,
            waveform: 0,
            test: false,
            ring_mod: false,
            sync: false,
            msb_rising: false,
            sync_source: sync_source,
            sync_source_msb: false,
        }
    }

    /// Restore the power-on state, keeping the revision and sync wiring.
    pub fn reset(&mut self)
        ensures
            *final(self) == spec_wave_default(old(self).model, old(self).sync_source),
            old(self).sync_source < 3 ==> wave_wf(*final(self)),
    {
        self.accumulator = 0;
        self.shift_register = 0x7ffff8;
        self.freq = 0;
        self.pw = 0;
        self.waveform = 0;
        self.test = false;
        self.ring_mod = false;
        self.sync = false;
        self.msb_rising = false;
        self.sync_source_msb = false;
    }

    /// Write the low byte of the 16-bit frequency register.
    pub fn set_frequency_lo(&mut self, value: u8)
        ensures
            *final(self) == (WaveformGenerator {
                freq: (old(self).freq & 0xff00) | value as u16,
                ..*old(self)
            }),
    {
        self.freq = (self.freq & 0xff00) | value as u16;
    }

    /// Write the high byte of the 16-bit frequency register.
    pub fn set_frequency_hi(&mut self, value: u8)
        ensures
            *final(self) == (WaveformGenerator {
                freq: ((value as u16) << 8) | (old(self).freq & 0x00ff),
                ..*old(self)
            }),
    {
        self.freq = ((value as u16) << 8) | (self.freq & 0x00ff);
    }

    /// Write the low byte of the 12-bit pulse-width register.
    pub fn set_pulse_width_lo(&mut self, value: u8)
        requires
            wave_wf(*old(self)),
        ensures
            *final(self) == (WaveformGenerator {
                pw: (old(self).pw & 0xf00) | value as u16,
                ..*old(self)
            }),
            wave_wf(*final(self)),
    {
        proof {
            let pwv = old(self).pw;
            assert(pwv < 0x1000 ==> ((pwv & 0xf00) | value as u16) < 0x1000) by (bit_vector);
        }
        self.pw = (self.pw & 0xf00) | value as u16;
    }

    /// Write the high nibble of the 12-bit pulse-width register.
    pub fn set_pulse_width_hi(&mut self, value: u8)
        requires
            wave_wf(*old(self)),
        ensures
            *final(self) == (WaveformGenerator {
                pw: (((value as u16) & 0x0f) << 8) | (old(self).pw & 0x0ff),
                ..*old(self)
            }),
            wave_wf(*final(self)),
    {
        proof {
            let pwv = old(self).pw;
            assert(pwv < 0x1000 ==> ((((value as u16) & 0x0f) << 8) | (pwv & 0x0ff)) < 0x1000)
                by (bit_vector);
        }
        self.pw = (((value as u16) & 0x0f) << 8) | (self.pw & 0x0ff);
    }

    /// Decode a control-register write.
    pub fn set_control(&mut self, value: u8)
        requires
            wave_wf(*old(self)),
        ensures
            *final(self) == spec_wave_control(*old(self), value),
            wave_wf(*final(self)),
    {
        proof {
            assert((value >> 4) & 0x0f < 16) by (bit_vector);
        }
        self.waveform = (value >> 4) & 0x0f;
        self.ring_mod = value & 0x04 != 0;
        self.sync = value & 0x02 != 0;
        let test_next = value & 0x08 != 0;
        if test_next {
            self.accumulator = 0;
            self.shift_register = 0x7ffff8;
        }
        self.test = test_next;
    }

    /// Advance the oscillator by `delta_t` clock cycles.
    pub fn clock_delta(&mut self, delta_t: u32)
        requires
            wave_wf(*old(self)),
        ensures
            *final(self) == spec_wave_clock(*old(self), delta_t as int),
            wave_wf(*final(self)),
    {
        if self.test || delta_t == 0 {
            return;
        }
        let acc_prev: u32 = self.accumulator;
        proof {
            assert((delta_t as int) * (self.freq as int) <= 0xffffffff_i64 * 0xffff_i64)
                by (nonlinear_arith)
                requires
                    delta_t <= 0xffffffff_u32,
                    self.freq <= 0xffff_u16,
            ;
        }
        let delta_acc0: u64 = (delta_t as u64) * (self.freq as u64);
        let acc: u32 = (((acc_prev as u64) + delta_acc0) & 0xffffff) as u32;
        proof {
            let s: u64 = ((acc_prev as u64) + delta_acc0) as u64;
            assert(s & 0xffffff < 0x1000000) by (bit_vector);
        }
        self.accumulator = acc;
        self.msb_rising = (acc_prev & 0x800000) == 0 && (acc & 0x800000) != 0;
        let ghost target = spec_wave_clock(*old(self), delta_t as int);
        let mut delta_acc: u64 = delta_acc0;
        let mut stop: bool = false;
        while delta_acc > 0 && !stop
            invariant
                acc == self.accumulator,
                self.shift_register < 0x800000,
                *self == (WaveformGenerator { shift_register: self.shift_register, ..target }),
                spec_noise_clock(old(self).shift_register, acc, delta_acc0 as int)
                    == (if stop {
                        self.shift_register as u32
                    } else {
                        spec_noise_clock(self.shift_register, acc, delta_acc as int)
                    }),
                target.shift_register
                    == spec_noise_clock(old(self).shift_register, acc, delta_acc0 as int),
            decreases delta_acc, (if stop { 0int } else { 1int }),
        {
            if delta_acc >= 0x100000 {
                self.shift_register = noise_shift(self.shift_register);
                delta_acc = delta_acc - 0x100000;
            } else {
                let sp: u64 = delta_acc;
                let dm: i64 = (acc as i64) - (sp as i64);
                let cond: bool = if sp <= 0x80000 {
                    (dm & 0x80000) != 0 || ((acc as i64) & 0x80000) == 0
                } else {
                    (dm & 0x80000) != 0 && ((acc as i64) & 0x80000) == 0
                };
                if cond {
                    stop = true;
                } else {
                    self.shift_register = noise_shift(self.shift_register);
                    delta_acc = 0;
                }
            }
        }
        proof {
            assert(self.shift_register == target.shift_register);
            assert(*self == target);
        }
    }

    /// The 12-bit oscillator output for the selected waveform combination.
    pub fn output(&self) -> (r: u16)
        requires
            wave_wf(*self),
        ensures
            r == spec_wave_output(*self),
            r < 0x1000,
    {
        let r: u16 = match self.waveform {
            1 => self.output_tri(),
            2 => self.output_saw(),
            3 => shl4(combined_st(self.model, self.output_saw())),
            4 => self.output_pulse(),
            5 => shl4(combined_pt(self.model, self.output_tri() >> 1)) & self.output_pulse(),
            6 => shl4(combined_ps(self.model, self.output_saw())) & self.output_pulse(),
            7 => shl4(combined_pst(self.model, self.output_saw())) & self.output_pulse(),
            8 => self.output_noise(),
            _ => 0,
        };
        proof {
            lemma_and_keeps_range(r);
        }
        r
    }

    /// Triangle waveform.
    fn output_tri(&self) -> (r: u16)
        ensures
            r == spec_wave_tri(*self),
            r < 0x1000,
    {
        let msb_set: bool = if self.ring_mod {
            ((self.accumulator & 0x800000) != 0) != self.sync_source_msb
        } else {
            (self.accumulator & 0x800000) != 0
        };
        proof {
            let a = self.accumulator;
            assert((!a >> 11) & 0xfff < 0x1000 && (a >> 11) & 0xfff < 0x1000) by (bit_vector);
        }
        if msb_set {
            ((!self.accumulator >> 11) & 0xfff) as u16
        } else {
            ((self.accumulator >> 11) & 0xfff) as u16
        }
    }

    /// Sawtooth waveform.
    fn output_saw(&self) -> (r: u16)
        requires
            self.accumulator < 0x1000000,
        ensures
            r == spec_wave_saw(*self),
            r < 0x1000,
    {
        proof {
            let a = self.accumulator;
            assert(a < 0x1000000 ==> (a >> 12) < 0x1000) by (bit_vector);
        }
        (self.accumulator >> 12) as u16
    }

    /// Pulse waveform.
    fn output_pulse(&self) -> (r: u16)
        ensures
            r == spec_wave_pulse(*self),
            r < 0x1000,
    {
        if self.test || (self.accumulator >> 12) >= self.pw as u32 { 0xfff } else { 0 }
    }

    /// Noise waveform.
    fn output_noise(&self) -> (r: u16)
        ensures
            r == spec_wave_noise(*self),
            r < 0x1000,
    {
        let s: u32 = self.shift_register;
        proof {
            assert((((s & 0x400000) >> 11) | ((s & 0x100000) >> 10) | ((s & 0x010000) >> 7)
                | ((s & 0x002000) >> 5) | ((s & 0x000800) >> 4) | ((s & 0x000080) >> 1)
                | ((s & 0x000010) << 1) | ((s & 0x000004) << 2)) < 0x1000) by (bit_vector);
        }
        (((s & 0x400000) >> 11) | ((s & 0x100000) >> 10) | ((s & 0x010000) >> 7)
            | ((s & 0x002000) >> 5) | ((s & 0x000800) >> 4) | ((s & 0x000080) >> 1)
            | ((s & 0x000010) << 1) | ((s & 0x000004) << 2)) as u16
    }
}

/// Combined sawtooth+triangle calibration byte (see `spec_combined_st`).
pub fn combined_st(model: ChipModel, idx: u16) -> (r: u8)
    ensures
        r == spec_combined_st(model, idx),
{
    match model {
        ChipModel::Mos6581 => {
            match idx {
                2044 => 127,
                3839 => 7,
                4089 => 62,
                _ => 0,
            }
        }
        ChipModel::Mos8580 => ((idx & tri_of_saw(idx)) >> 4) as u8,
    }
}

/// Combined pulse+triangle calibration byte (see `spec_combined_pt`).
pub fn combined_pt(model: ChipModel, idx: u16) -> (r: u8)
    ensures
        r == spec_combined_pt(model, idx),
{
    match model {
        ChipModel::Mos6581 => 0,
        ChipModel::Mos8580 => (idx >> 3) as u8,
    }
}

/// Combined pulse+sawtooth calibration byte (see `spec_combined_ps`).
pub fn combined_ps(model: ChipModel, idx: u16) -> (r: u8)
    ensures
        r == spec_combined_ps(model, idx),
{
    match model {
        ChipModel::Mos6581 => 0,
        ChipModel::Mos8580 => (idx >> 4) as u8,
    }
}

/// Combined pulse+sawtooth+triangle calibration byte (see
/// `spec_combined_pst`).
pub fn combined_pst(model: ChipModel, idx: u16) -> (r: u8)
    ensures
        r == spec_combined_pst(model, idx),
{
    match model {
        ChipModel::Mos6581 => 0,
        ChipModel::Mos8580 => ((idx & tri_of_saw(idx)) >> 4) as u8,
    }
}

/// Triangle value reconstructed from a sawtooth index.
fn tri_of_saw(idx: u16) -> (r: u16)
    ensures
        r == spec_tri_of_saw(idx),
{
    if idx & 0x800 != 0 {
        proof {
            assert(idx & 0xfff <= 0xfff) by (bit_vector);
        }
        let d: u16 = 0xfff - (idx & 0xfff);
        (d << 1) & 0xfff
    } else {
        (idx << 1) & 0xfff
    }
}

/// Sum of a sequence of cycle counts.
pub open spec fn spec_cycle_sum(ds: Seq<u32>) -> int
    decreases ds.len(),
{
    if ds.len() == 0 { 0 } else { ds[0] + spec_cycle_sum(ds.drop_first()) }
}

/// The oscillator after a sequence of advances.
pub open spec fn spec_wave_clock_seq(w: WaveformGenerator, ds: Seq<u32>) -> WaveformGenerator
    decreases ds.len(),
{
    if ds.len() == 0 { w } else { spec_wave_clock_seq(spec_wave_clock(w, ds[0] as int), ds.drop_first()) }
}

/// One advance moves the accumulator to its start value plus the phase
/// increment, modulo 2^24 — in particular it stays inside [0, 2^24).
pub proof fn lemma_phase_step(w: WaveformGenerator, delta: int)
    requires
        wave_wf(w),
        !w.test,
        0 <= delta <= 0xffffffff,
    ensures
        spec_wave_clock(w, delta).accumulator
            == (w.accumulator + delta * w.freq) % 0x1000000,
        spec_wave_clock(w, delta).accumulator < 0x1000000,
        spec_wave_clock(w, delta).freq == w.freq,
        spec_wave_clock(w, delta).test == w.test,
        wave_wf(spec_wave_clock(w, delta)),
{
    if delta <= 0 {
        assert(delta * w.freq == 0) by (nonlinear_arith)
            requires
                delta == 0,
        ;
        lemma_small_mod(w.accumulator as nat, 0x1000000);
    } else {
        assert(0 <= delta * w.freq <= 0xffffffff_i64 * 0xffff_i64) by (nonlinear_arith)
            requires
                0 <= delta <= 0xffffffff,
                0 <= w.freq <= 0xffff,
        ;
        let sum = w.accumulator + delta * w.freq;
        let s64 = sum as u64;
        assert(s64 == sum);
        assert(s64 & 0xffffff == s64 % 0x1000000 && s64 & 0xffffff < 0x1000000) by (bit_vector);
        let target = spec_wave_clock(w, delta);
        assert(target.accumulator == (s64 & 0xffffff) as u32);
        assert((s64 & 0xffffff) as u32 == s64 % 0x1000000);
        assert(s64 % 0x1000000 == sum % 0x1000000);
        lemma_noise_clock_bound(w.shift_register, target.accumulator, delta * w.freq);
    }
}

/// The noise register never leaves its 23-bit range.
pub proof fn lemma_noise_clock_bound(sr: u32, acc: u32, d: int)
    requires
        sr < 0x800000,
        d >= 0,
    ensures
        spec_noise_clock(sr, acc, d) < 0x800000,
    decreases d,
{
    assert(spec_noise_shift(sr) < 0x800000) by (bit_vector)
        requires
            sr < 0x800000,
    ;
    if d >= 0x100000 {
        lemma_noise_clock_bound(spec_noise_shift(sr), acc, d - 0x100000);
    }
}

/// Law (phase wraparound): with `test` clear, the accumulator always stays
/// in [0, 2^24), and after any sequence of advances it equals the start
/// value plus the summed phase increment modulo 2^24.
pub proof fn lemma_phase_wraparound(w: WaveformGenerator, ds: Seq<u32>)
    requires
        wave_wf(w),
        !w.test,
    ensures
        spec_wave_clock_seq(w, ds).accumulator
            == (w.accumulator + spec_cycle_sum(ds) * w.freq) % 0x1000000,
        spec_wave_clock_seq(w, ds).accumulator < 0x1000000,
        spec_wave_clock_seq(w, ds).freq == w.freq,
        spec_wave_clock_seq(w, ds).test == w.test,
    decreases ds.len(),
{
    let m = 0x1000000int;
    if ds.len() == 0 {
        lemma_small_mod(w.accumulator as nat, m as nat);
        assert(spec_cycle_sum(ds) == 0);
    } else {
        let d0 = ds[0] as int;
        let rest = ds.drop_first();
        let w1 = spec_wave_clock(w, d0);
        lemma_phase_step(w, d0);
        lemma_phase_wraparound(w1, rest);
        let s = spec_cycle_sum(rest);
        // accumulator after the whole run, via the tail:
        //   ((a + d0 f) % m + s f) % m == (a + (d0 + s) f) % m
        lemma_add_mod_noop(w.accumulator + d0 * w.freq, s * w.freq, m);
        lemma_small_mod((s * w.freq % m) as nat, m as nat);
        assert(s * w.freq % m % m == s * w.freq % m);
        lemma_mul_is_distributive_add_other_way(w.freq as int, d0, s);
        assert((d0 + s) * w.freq == d0 * w.freq + s * w.freq);
        assert(spec_cycle_sum(ds) == d0 + s);
    }
}

/// Law (phase return): advances whose summed phase increment is a multiple
/// of 2^24 leave the accumulator where it started.
pub proof fn lemma_phase_return(w: WaveformGenerator, ds: Seq<u32>)
    requires
        wave_wf(w),
        !w.test,
        (spec_cycle_sum(ds) * w.freq) % 0x1000000 == 0,
    ensures
        spec_wave_clock_seq(w, ds).accumulator == w.accumulator,
{
    let m = 0x1000000int;
    lemma_phase_wraparound(w, ds);
    lemma_add_mod_noop(w.accumulator as int, spec_cycle_sum(ds) * w.freq, m);
    lemma_small_mod(w.accumulator as nat, m as nat);
    lemma_small_mod(((w.accumulator as int) % m) as nat, m as nat);
}

/// Law (split advances): advancing the oscillator by two cycle counts in
/// turn leaves the phase accumulator exactly where the single combined
/// advance leaves it, so a caller may stop and resume mid-stream without
/// disturbing the phase.  (Only the phase: the noise register's clocking
/// is approximated once per advance, so it is not split-invariant.)
pub proof fn lemma_phase_split(w: WaveformGenerator, d1: int, d2: int)
    requires
        wave_wf(w),
        !w.test,
        0 <= d1,
        0 <= d2,
        d1 + d2 <= 0xffffffff,
    ensures
        spec_wave_clock(spec_wave_clock(w, d1), d2).accumulator
            == spec_wave_clock(w, d1 + d2).accumulator,
{
    let m = 0x1000000int;
    let w1 = spec_wave_clock(w, d1);
    lemma_phase_step(w, d1);
    lemma_phase_step(w1, d2);
    lemma_phase_step(w, d1 + d2);
    lemma_add_mod_noop(w.accumulator + d1 * w.freq, d2 * w.freq, m);
    lemma_small_mod(((d2 * w.freq) % m) as nat, m as nat);
    lemma_mul_is_distributive_add_other_way(w.freq as int, d1, d2);
    assert((d1 + d2) * w.freq == d1 * w.freq + d2 * w.freq);
}

/// Law (test-bit freeze): while `test` is asserted, advancing the
/// oscillator by any cycle counts changes nothing — the accumulator, the
/// noise register and hence the output all hold still.
pub proof fn lemma_test_bit_freeze(w: WaveformGenerator, ds: Seq<u32>)
    requires
        w.test,
    ensures
        spec_wave_clock_seq(w, ds) == w,
        spec_wave_output(spec_wave_clock_seq(w, ds)) == spec_wave_output(w),
    decreases ds.len(),
{
    if ds.len() > 0 {
        lemma_test_bit_freeze(w, ds.drop_first());
    }
}

} // verus!
