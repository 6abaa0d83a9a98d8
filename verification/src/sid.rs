//! The chip itself: three voices, the resonant filter, the output RC
//! stage, and the sampling engine, behind a 32-entry byte register map.
//!
//! Voice `i`'s oscillator is hard-sync and ring-modulation source for
//! voice `i+1` (wrapping), as on the real chip.  Register writes take
//! effect immediately; reads of write-only registers return the last
//! value written to that address, except for the two read-only addresses
//! that expose voice 3's live oscillator and envelope state.

use vstd::prelude::*;
use crate::ChipModel;
use crate::envelope::{spec_env_clock, spec_env_default, env_wf};
use crate::external_filter::{
    ExternalFilter, ext_wf, spec_ext_clock, spec_ext_default,
};
use crate::filter::{
    Filter, filter_wf, spec_filter_clock, spec_filter_default, spec_filter_output,
    spec_tdiv, tdiv_i64,
};
use crate::sampler::{
    Sampler, SamplingMethod, sampler_wf, spec_sampler_default, spec_sampler_configured,
    spec_half,
};
use crate::filter::spec_fdiv;
use crate::envelope::spec_env_control;
use crate::voice::{Voice, voice_wf, spec_voice_default, spec_voice_output};
use crate::wave::spec_wave_control;
use crate::wave::{WaveformGenerator, wave_wf, spec_wave_clock, spec_noise_seed};

verus! {

/// The chip model as mathematics: every register and accumulator as a
/// plain value, the shadow register file as a sequence of bytes.
#[verifier::ext_equal]
pub struct SidView {
    pub model: ChipModel,
    pub voice1: Voice,
    pub voice2: Voice,
    pub voice3: Voice,
    pub filter: Filter,
    pub ext_filter: ExternalFilter,
    pub sampler: Sampler,
    pub regs: Seq<u8>,
}

/// The chip: three voices, filter, output stage, sampler, and the
/// write-shadow register file.
pub struct Sid {
    pub model: ChipModel,
    pub voice1: Voice,
    pub voice2: Voice,
    pub voice3: Voice,
    pub filter: Filter,
    pub ext_filter: ExternalFilter,
    pub sampler: Sampler,
    pub regs: Vec<u8>,
}

/// The mathematical value of a chip.
pub open spec fn sid_view(s: Sid) -> SidView {
    SidView {
        model: s.model,
        voice1: s.voice1,
        voice2: s.voice2,
        voice3: s.voice3,
        filter: s.filter,
        ext_filter: s.ext_filter,
        sampler: s.sampler,
        regs: s.regs@,
    }
}

/// Well-formedness of the whole chip: components well-formed, sync wiring
/// as built (voice 1 from voice 3, 2 from 1, 3 from 2), ring-modulation
/// caches holding the sources' current top bits, 32 shadow registers, and
/// one revision throughout.
pub open spec fn sid_wf(v: SidView) -> bool {
    &&& voice_wf(v.voice1)
    &&& voice_wf(v.voice2)
    &&& voice_wf(v.voice3)
    &&& filter_wf(v.filter)
    &&& ext_wf(v.ext_filter)
    &&& sampler_wf(v.sampler)
    &&& v.regs.len() == 32
    &&& v.voice1.wave.sync_source == 2
    &&& v.voice2.wave.sync_source == 0
    &&& v.voice3.wave.sync_source == 1
    &&& v.voice1.wave.sync_source_msb == ((v.voice3.wave.accumulator & 0x800000) != 0)
    &&& v.voice2.wave.sync_source_msb == ((v.voice1.wave.accumulator & 0x800000) != 0)
    &&& v.voice3.wave.sync_source_msb == ((v.voice2.wave.accumulator & 0x800000) != 0)
    &&& v.voice1.wave.model == v.model
    &&& v.voice2.wave.model == v.model
    &&& v.voice3.wave.model == v.model
    &&& v.filter.model == v.model
    &&& v.ext_filter.model == v.model
}

/// Cycles until oscillator `w`'s accumulator top bit next toggles.
pub open spec fn spec_osc_next(w: WaveformGenerator) -> int
    recommends
        w.freq != 0,
{
    let da = if w.accumulator & 0x800000 != 0 {
        0x1000000 - w.accumulator
    } else {
        0x800000 - w.accumulator
    };
    da / (w.freq as int) + (if da % (w.freq as int) != 0 { 1int } else { 0 })
}

/// Largest cycle step that skips no sync event: the minimum of the
/// remaining cycles and, for every oscillator that drives a sync
/// destination, the cycles to its next top-bit toggle.
pub open spec fn spec_osc_min(
    w1: WaveformGenerator, w2: WaveformGenerator, w3: WaveformGenerator, delta: int,
) -> int {
    let m1 = if w2.sync && w1.freq != 0 && spec_osc_next(w1) < delta {
        spec_osc_next(w1)
    } else {
        delta
    };
    let m2 = if w3.sync && w2.freq != 0 && spec_osc_next(w2) < m1 { spec_osc_next(w2) } else { m1 };
    if w1.sync && w3.freq != 0 && spec_osc_next(w3) < m2 { spec_osc_next(w3) } else { m2 }
}

/// Hard sync: an oscillator whose top bit just rose resets its
/// destination's phase — unless it is itself being synced by its own
/// source's rising top bit on the same step.
pub open spec fn spec_sync_apply(
    w1: WaveformGenerator, w2: WaveformGenerator, w3: WaveformGenerator,
) -> (WaveformGenerator, WaveformGenerator, WaveformGenerator) {
    let r2 = w1.msb_rising && w2.sync && !(w1.sync && w3.msb_rising);
    let r3 = w2.msb_rising && w3.sync && !(w2.sync && w1.msb_rising);
    let r1 = w3.msb_rising && w1.sync && !(w3.sync && w2.msb_rising);
    (
        (if r1 { WaveformGenerator { accumulator: 0, ..w1 } } else { w1 }),
        (if r2 { WaveformGenerator { accumulator: 0, ..w2 } } else { w2 }),
        (if r3 { WaveformGenerator { accumulator: 0, ..w3 } } else { w3 }),
    )
}

/// Advance the three oscillators together: repeatedly step by the largest
/// sync-safe increment, then apply hard sync.
pub open spec fn spec_osc_run(
    w1: WaveformGenerator, w2: WaveformGenerator, w3: WaveformGenerator, delta: int,
) -> (WaveformGenerator, WaveformGenerator, WaveformGenerator)
    decreases delta,
    when delta >= 0 && wave_wf(w1) && wave_wf(w2) && wave_wf(w3)
    via spec_osc_run_decreases
{
    if delta <= 0 {
        (w1, w2, w3)
    } else {
        let dmin = spec_osc_min(w1, w2, w3, delta);
        let stepped = spec_sync_apply(
            spec_wave_clock(w1, dmin),
            spec_wave_clock(w2, dmin),
            spec_wave_clock(w3, dmin),
        );
        spec_osc_run(stepped.0, stepped.1, stepped.2, delta - dmin)
    }
}

/// A sync-safe oscillator step always advances at least one cycle.
pub proof fn lemma_osc_next_pos(w: WaveformGenerator)
    requires
        wave_wf(w),
        w.freq != 0,
    ensures
        1 <= spec_osc_next(w) <= 0x1000000,
{
    let a = w.accumulator;
    assert(a < 0x1000000 && a & 0x800000 == 0 ==> a < 0x800000) by (bit_vector);
    let da = if w.accumulator & 0x800000 != 0 {
        0x1000000 - w.accumulator
    } else {
        0x800000 - w.accumulator
    };
    assert(1 <= da <= 0x1000000);
    let f = w.freq as int;
    let q = da / f;
    let r = da % f;
    vstd::arithmetic::div_mod::lemma_fundamental_div_mod(da, f);
    vstd::arithmetic::div_mod::lemma_mod_bound(da, f);
    vstd::arithmetic::div_mod::lemma_div_basics_4(da, f);
    vstd::arithmetic::div_mod::lemma_div_basics_5(da, f);
    assert(q <= f * q) by (nonlinear_arith)
        requires
            q >= 0,
            f >= 1,
    ;
    if q == 0 {
        assert(f * q == 0) by (nonlinear_arith)
            requires
                q == 0,
        ;
        assert(r == da);
    }
    if r != 0 {
        assert(q + 1 <= da);
    }
}

#[via_fn]
proof fn spec_osc_run_decreases(
    w1: WaveformGenerator, w2: WaveformGenerator, w3: WaveformGenerator, delta: int,
) {
    if delta > 0 {
        if w2.sync && w1.freq != 0 {
            lemma_osc_next_pos(w1);
        }
        if w3.sync && w2.freq != 0 {
            lemma_osc_next_pos(w2);
        }
        if w1.sync && w3.freq != 0 {
            lemma_osc_next_pos(w3);
        }
    }
}

/// Advancing the oscillators changes only their accumulators, noise
/// registers and edge flags: registers, wiring and caches are untouched,
/// and well-formedness is preserved.
pub proof fn lemma_osc_run_preserves(
    w1: WaveformGenerator, w2: WaveformGenerator, w3: WaveformGenerator, delta: int,
)
    requires
        wave_wf(w1),
        wave_wf(w2),
        wave_wf(w3),
        0 <= delta <= 0xffffffff,
    ensures
        wave_wf(spec_osc_run(w1, w2, w3, delta).0),
        wave_wf(spec_osc_run(w1, w2, w3, delta).1),
        wave_wf(spec_osc_run(w1, w2, w3, delta).2),
        spec_osc_run(w1, w2, w3, delta).0.sync_source == w1.sync_source,
        spec_osc_run(w1, w2, w3, delta).1.sync_source == w2.sync_source,
        spec_osc_run(w1, w2, w3, delta).2.sync_source == w3.sync_source,
        spec_osc_run(w1, w2, w3, delta).0.model == w1.model,
        spec_osc_run(w1, w2, w3, delta).1.model == w2.model,
        spec_osc_run(w1, w2, w3, delta).2.model == w3.model,
    decreases delta,
{
    if delta > 0 {
        let dmin = spec_osc_min(w1, w2, w3, delta);
        if w2.sync && w1.freq != 0 { lemma_osc_next_pos(w1); }
        if w3.sync && w2.freq != 0 { lemma_osc_next_pos(w2); }
        if w1.sync && w3.freq != 0 { lemma_osc_next_pos(w3); }
        lemma_wave_clock_keeps(w1, dmin);
        lemma_wave_clock_keeps(w2, dmin);
        lemma_wave_clock_keeps(w3, dmin);
        let stepped = spec_sync_apply(
            spec_wave_clock(w1, dmin),
            spec_wave_clock(w2, dmin),
            spec_wave_clock(w3, dmin),
        );
        lemma_osc_run_preserves(stepped.0, stepped.1, stepped.2, delta - dmin);
    }
}

/// One oscillator advance preserves well-formedness and every field
/// other than the accumulator, noise register and edge flag.
pub proof fn lemma_wave_clock_keeps(w: WaveformGenerator, delta: int)
    requires
        wave_wf(w),
        0 <= delta <= 0xffffffff,
    ensures
        wave_wf(spec_wave_clock(w, delta)),
        spec_wave_clock(w, delta) == (WaveformGenerator {
            accumulator: spec_wave_clock(w, delta).accumulator,
            shift_register: spec_wave_clock(w, delta).shift_register,
            msb_rising: spec_wave_clock(w, delta).msb_rising,
            ..w
        }),
{
    if !w.test && delta > 0 {
        crate::wave::lemma_phase_step(w, delta);
        crate::wave::lemma_noise_clock_bound(
            w.shift_register, spec_wave_clock(w, delta).accumulator, delta * w.freq,
        );
        assert(delta * w.freq >= 0) by (nonlinear_arith)
            requires
                delta >= 0,
                w.freq >= 0,
        ;
    }
}

/// Refresh each oscillator's cached copy of its ring/sync source's
/// accumulator top bit.
pub open spec fn spec_refresh(
    w1: WaveformGenerator, w2: WaveformGenerator, w3: WaveformGenerator,
) -> (WaveformGenerator, WaveformGenerator, WaveformGenerator) {
    (
        WaveformGenerator { sync_source_msb: (w3.accumulator & 0x800000) != 0, ..w1 },
        WaveformGenerator { sync_source_msb: (w1.accumulator & 0x800000) != 0, ..w2 },
        WaveformGenerator { sync_source_msb: (w2.accumulator & 0x800000) != 0, ..w3 },
    )
}

/// The chip after `delta` clock cycles: envelopes and oscillators
/// advance, hard sync applies, the voices feed the filter, and the filter
/// feeds the output stage.  Zero cycles change nothing.
pub open spec fn spec_sid_clock(v: SidView, delta: int) -> SidView {
    if delta <= 0 {
        v
    } else {
        let e1 = spec_env_clock(v.voice1.envelope, delta);
        let e2 = spec_env_clock(v.voice2.envelope, delta);
        let e3 = spec_env_clock(v.voice3.envelope, delta);
        let ws = spec_osc_run(v.voice1.wave, v.voice2.wave, v.voice3.wave, delta);
        let wr = spec_refresh(ws.0, ws.1, ws.2);
        let voice1 = Voice { envelope: e1, wave: wr.0, ..v.voice1 };
        let voice2 = Voice { envelope: e2, wave: wr.1, ..v.voice2 };
        let voice3 = Voice { envelope: e3, wave: wr.2, ..v.voice3 };
        let f = spec_filter_clock(
            v.filter, delta,
            spec_voice_output(voice1), spec_voice_output(voice2), spec_voice_output(voice3),
            0,
        );
        let e = spec_ext_clock(v.ext_filter, delta, spec_filter_output(f));
        SidView { voice1: voice1, voice2: voice2, voice3: voice3, filter: f, ext_filter: e, ..v }
    }
}

/// The audio output: the output stage's sample scaled from the chip's
/// full dynamic range ((4095*255 >> 7)*3*15*2 per 2^16, which is 11) and
/// clamped to 16 bits.
pub open spec fn spec_sid_output(v: SidView) -> i16 {
    let s = spec_tdiv(v.ext_filter.vo as int, 11);
    if s >= 32768 { 32767 } else if s < -32768 { (-32768) as i16 } else { s as i16 }
}

/// Effect of a voice-local register write (offset 0-6 within the
/// voice's block).
#[verifier::opaque]
pub open spec fn spec_voice_write(v: Voice, r: int, value: u8) -> Voice {
    if r == 0 {
        Voice { wave: (WaveformGenerator { freq: (v.wave.freq & 0xff00) | value as u16, ..v.wave }), ..v }
    } else if r == 1 {
        Voice { wave: (WaveformGenerator { freq: ((value as u16) << 8) | (v.wave.freq & 0x00ff), ..v.wave }), ..v }
    } else if r == 2 {
        Voice { wave: (WaveformGenerator { pw: (v.wave.pw & 0xf00) | value as u16, ..v.wave }), ..v }
    } else if r == 3 {
        Voice { wave: (WaveformGenerator { pw: (((value as u16) & 0x0f) << 8) | (v.wave.pw & 0x0ff), ..v.wave }), ..v }
    } else if r == 4 {
        Voice { envelope: spec_env_control(v.envelope, value), wave: spec_wave_control(v.wave, value), ..v }
    } else if r == 5 {
        Voice { envelope: crate::envelope::spec_env_attack_decay(v.envelope, value), ..v }
    } else if r == 6 {
        Voice { envelope: crate::envelope::spec_env_sustain_release(v.envelope, value), ..v }
    } else {
        v
    }
}

/// Effect of a filter-block register write (addresses 0x15-0x18).
#[verifier::opaque]
pub open spec fn spec_filter_write(f: Filter, reg: int, value: u8) -> Filter {
    if reg == 0x15 {
        Filter {
            fc: (f.fc & 0x7f8) | ((value & 0x07) as u16),
            w0_ceil_dt: crate::filter::spec_w0_ceil_dt(
                f.model, ((f.fc & 0x7f8) | ((value & 0x07) as u16)) as int,
            ) as u32,
            ..f
        }
    } else if reg == 0x16 {
        Filter {
            fc: (((value as u16) << 3) & 0x7f8) | (f.fc & 0x007),
            w0_ceil_dt: crate::filter::spec_w0_ceil_dt(
                f.model, ((((value as u16) << 3) & 0x7f8) | (f.fc & 0x007)) as int,
            ) as u32,
            ..f
        }
    } else if reg == 0x17 {
        Filter {
            res: (value >> 4) & 0x0f,
            q1024: crate::filter::spec_q1024((value >> 4) & 0x0f) as u32,
            filt: value & 0x0f,
            ..f
        }
    } else if reg == 0x18 {
        Filter {
            voice3off: value & 0x80 != 0,
            hp_bp_lp: (value >> 4) & 0x07,
            vol: value & 0x0f,
            ..f
        }
    } else {
        f
    }
}

/// The three voices and the filter after the dispatch of a register
/// write, before the ring-cache refresh.
#[verifier::opaque]
pub open spec fn spec_write_parts(v: SidView, reg: u8, value: u8) -> (Voice, Voice, Voice, Filter) {
    (
        (if reg <= 0x06 { spec_voice_write(v.voice1, reg as int, value) } else { v.voice1 }),
        (if 0x07 <= reg && reg <= 0x0d { spec_voice_write(v.voice2, reg as int - 7, value) } else { v.voice2 }),
        (if 0x0e <= reg && reg <= 0x14 { spec_voice_write(v.voice3, reg as int - 14, value) } else { v.voice3 }),
        (if reg >= 0x15 { spec_filter_write(v.filter, reg as int, value) } else { v.filter }),
    )
}

/// Effect of a register write on the chip's generators and filter (the
/// shadow register file is handled alongside).  Addresses beyond the
/// defined map are accepted and ignored.
#[verifier::opaque]
pub open spec fn spec_sid_write_core(v: SidView, reg: u8, value: u8) -> SidView {
    let upd = if reg <= 0x06 {
        SidView { voice1: spec_voice_write(v.voice1, reg as int, value), ..v }
    } else if reg <= 0x0d {
        SidView { voice2: spec_voice_write(v.voice2, reg as int - 7, value), ..v }
    } else if reg <= 0x14 {
        SidView { voice3: spec_voice_write(v.voice3, reg as int - 14, value), ..v }
    } else {
        SidView { filter: spec_filter_write(v.filter, reg as int, value), ..v }
    };
    let wr = spec_refresh(upd.voice1.wave, upd.voice2.wave, upd.voice3.wave);
    SidView {
        voice1: Voice { wave: wr.0, ..upd.voice1 },
        voice2: Voice { wave: wr.1, ..upd.voice2 },
        voice3: Voice { wave: wr.2, ..upd.voice3 },
        regs: (if reg < 32 { v.regs.update(reg as int, value) } else { v.regs }),
        ..upd
    }
}

/// What a register read returns: the live oscillator or envelope state of
/// voice 3 at the two read-only addresses, the shadow value elsewhere in
/// the map, and zero beyond it.
pub open spec fn spec_sid_read(v: SidView, reg: u8) -> u8 {
    if reg == 0x1b {
        (crate::wave::spec_wave_output(v.voice3.wave) >> 4) as u8
    } else if reg == 0x1c {
        v.voice3.envelope.envelope_counter
    } else if reg < 32 {
        v.regs[reg as int]
    } else {
        0
    }
}

/// The power-on chip state for a revision, shadow registers cleared.
pub open spec fn spec_sid_power_on(model: ChipModel) -> SidView {
    SidView {
        model: model,
        voice1: spec_voice_default(model, 2),
        voice2: spec_voice_default(model, 0),
        voice3: spec_voice_default(model, 1),
        filter: spec_filter_default(model),
        ext_filter: spec_ext_default(model),
        sampler: spec_sampler_default(),
        regs: Seq::new(32, |i: int| 0u8),
    }
}


/// Cycles until oscillator `w`'s accumulator top bit next toggles.
fn osc_next(w: &WaveformGenerator) -> (r: u32)
    requires
        wave_wf(*w),
        w.freq != 0,
    ensures
        r == spec_osc_next(*w),
        1 <= r <= 0x1000000,
{
    proof {
        let a = w.accumulator;
        assert(a < 0x1000000 && a & 0x800000 == 0 ==> a < 0x800000) by (bit_vector);
        lemma_osc_next_pos(*w);
    }
    let da: u32 = if w.accumulator & 0x800000 != 0 {
        0x1000000 - w.accumulator
    } else {
        0x800000 - w.accumulator
    };
    proof {
        vstd::arithmetic::div_mod::lemma_div_basics_4(da as int, w.freq as int);
        vstd::arithmetic::div_mod::lemma_div_basics_5(da as int, w.freq as int);
        if da as int / (w.freq as int) == 0 {
            vstd::arithmetic::div_mod::lemma_fundamental_div_mod(da as int, w.freq as int);
        }
    }
    let q: u32 = da / (w.freq as u32);
    if da % (w.freq as u32) != 0 { q + 1 } else { q }
}

/// Advance the three oscillators by `delta` cycles without skipping a
/// sync event; see `spec_osc_run`.
/// One sync-safe step of the three oscillators: advance by the largest
/// increment that skips no top-bit toggle, then apply hard sync.
#[verifier::rlimit(100)]
fn osc_step(
    w1: &mut WaveformGenerator, w2: &mut WaveformGenerator, w3: &mut WaveformGenerator,
    delta_osc: u32,
) -> (dmin: u32)
    requires
        wave_wf(*old(w1)),
        wave_wf(*old(w2)),
        wave_wf(*old(w3)),
        delta_osc >= 1,
    ensures
        dmin == spec_osc_min(*old(w1), *old(w2), *old(w3), delta_osc as int),
        1 <= dmin <= delta_osc,
        (*final(w1), *final(w2), *final(w3)) == spec_sync_apply(
            spec_wave_clock(*old(w1), dmin as int),
            spec_wave_clock(*old(w2), dmin as int),
            spec_wave_clock(*old(w3), dmin as int),
        ),
        wave_wf(*final(w1)),
        wave_wf(*final(w2)),
        wave_wf(*final(w3)),
{
    let mut dmin: u32 = delta_osc;
    if w2.sync && w1.freq != 0 {
        let dtn: u32 = osc_next(w1);
        if dtn < dmin { dmin = dtn; }
    }
    if w3.sync && w2.freq != 0 {
        let dtn: u32 = osc_next(w2);
        if dtn < dmin { dmin = dtn; }
    }
    if w1.sync && w3.freq != 0 {
        let dtn: u32 = osc_next(w3);
        if dtn < dmin { dmin = dtn; }
    }
    w1.clock_delta(dmin);
    w2.clock_delta(dmin);
    w3.clock_delta(dmin);
    let r2: bool = w1.msb_rising && w2.sync && !(w1.sync && w3.msb_rising);
    let r3: bool = w2.msb_rising && w3.sync && !(w2.sync && w1.msb_rising);
    let r1: bool = w3.msb_rising && w1.sync && !(w3.sync && w2.msb_rising);
    if r1 { w1.accumulator = 0; }
    if r2 { w2.accumulator = 0; }
    if r3 { w3.accumulator = 0; }
    dmin
}

/// Advance the three oscillators by `delta` cycles without skipping a
/// sync event; see `spec_osc_run`.
fn clock_oscillators(
    w1: &mut WaveformGenerator, w2: &mut WaveformGenerator, w3: &mut WaveformGenerator,
    delta: u32,
)
    requires
        wave_wf(*old(w1)),
        wave_wf(*old(w2)),
        wave_wf(*old(w3)),
    ensures
        (*final(w1), *final(w2), *final(w3))
            == spec_osc_run(*old(w1), *old(w2), *old(w3), delta as int),
        wave_wf(*final(w1)),
        wave_wf(*final(w2)),
        wave_wf(*final(w3)),
{
    let ghost target = spec_osc_run(*old(w1), *old(w2), *old(w3), delta as int);
    let mut delta_osc: u32 = delta;
    while delta_osc > 0
        invariant
            wave_wf(*w1),
            wave_wf(*w2),
            wave_wf(*w3),
            target == spec_osc_run(*w1, *w2, *w3, delta_osc as int),
        decreases delta_osc,
    {
        let dmin: u32 = osc_step(w1, w2, w3, delta_osc);
        delta_osc = delta_osc - dmin;
    }
}

/// The dispatched component updates, the ring-cache refresh and the
/// shadow-register update together are exactly the specified write
/// effect.
#[verifier::spinoff_prover]
#[verifier::rlimit(100)]
proof fn lemma_write_compose(v0: SidView, w: SidView, reg: u8, value: u8)
    requires
        sid_wf(v0),
        ({
            let p = spec_write_parts(v0, reg, value);
            &&& w.voice1 == (Voice { wave: spec_refresh(p.0.wave, p.1.wave, p.2.wave).0, ..p.0 })
            &&& w.voice2 == (Voice { wave: spec_refresh(p.0.wave, p.1.wave, p.2.wave).1, ..p.1 })
            &&& w.voice3 == (Voice { wave: spec_refresh(p.0.wave, p.1.wave, p.2.wave).2, ..p.2 })
            &&& w.filter == p.3
        }),
        w.ext_filter == v0.ext_filter,
        w.sampler == v0.sampler,
        w.model == v0.model,
        w.regs =~= (if reg < 32 { v0.regs.update(reg as int, value) } else { v0.regs }),
    ensures
        w =~= spec_sid_write_core(v0, reg, value),
{
    reveal(spec_sid_write_core);
    reveal(spec_write_parts);
}

/// A dispatched and refreshed write keeps the chip well-formed.
#[verifier::spinoff_prover]
#[verifier::rlimit(100)]
proof fn lemma_write_wf(v0: SidView, w: SidView, reg: u8, value: u8)
    requires
        sid_wf(v0),
        ({
            let p = spec_write_parts(v0, reg, value);
            &&& voice_wf(p.0)
            &&& voice_wf(p.1)
            &&& voice_wf(p.2)
            &&& filter_wf(p.3)
            &&& p.0.wave.sync_source == v0.voice1.wave.sync_source
            &&& p.1.wave.sync_source == v0.voice2.wave.sync_source
            &&& p.2.wave.sync_source == v0.voice3.wave.sync_source
            &&& p.0.wave.model == v0.voice1.wave.model
            &&& p.1.wave.model == v0.voice2.wave.model
            &&& p.2.wave.model == v0.voice3.wave.model
            &&& p.3.model == v0.filter.model
            &&& w.voice1 == (Voice { wave: spec_refresh(p.0.wave, p.1.wave, p.2.wave).0, ..p.0 })
            &&& w.voice2 == (Voice { wave: spec_refresh(p.0.wave, p.1.wave, p.2.wave).1, ..p.1 })
            &&& w.voice3 == (Voice { wave: spec_refresh(p.0.wave, p.1.wave, p.2.wave).2, ..p.2 })
            &&& w.filter == p.3
        }),
        w.ext_filter == v0.ext_filter,
        w.sampler == v0.sampler,
        w.model == v0.model,
        w.regs.len() == 32,
    ensures
        sid_wf(w),
{
}

/// Dispatch a voice-local register write; see `spec_voice_write`./// Dispatch a voice-local register write; see `spec_voice_write`.
fn voice_write(v: &mut Voice, r: u8, value: u8)
    requires
        voice_wf(*old(v)),
        r <= 6,
    ensures
        *final(v) == spec_voice_write(*old(v), r as int, value),
        voice_wf(*final(v)),
        final(v).wave.sync_source == old(v).wave.sync_source,
        final(v).wave.model == old(v).wave.model,
{
    proof {
        reveal(spec_voice_write);
    }
    match r {
        0 => v.wave.set_frequency_lo(value),
        1 => v.wave.set_frequency_hi(value),
        2 => v.wave.set_pulse_width_lo(value),
        3 => v.wave.set_pulse_width_hi(value),
        4 => v.set_control(value),
        5 => v.envelope.set_attack_decay(value),
        _ => v.envelope.set_sustain_release(value),
    }
}

/// Dispatch a filter-block register write; see `spec_filter_write`.
fn filter_write(f: &mut Filter, reg: u8, value: u8)
    requires
        filter_wf(*old(f)),
        reg >= 0x15,
    ensures
        *final(f) == spec_filter_write(*old(f), reg as int, value),
        filter_wf(*final(f)),
        final(f).model == old(f).model,
{
    proof {
        reveal(spec_filter_write);
    }
    match reg {
        0x15 => f.set_fc_lo(value),
        0x16 => f.set_fc_hi(value),
        0x17 => f.set_res_filt(value),
        0x18 => f.set_mode_vol(value),
        _ => {}
    }
}

impl Sid {
    /// A new chip of the given revision in its power-on state.
    pub fn new(chip_model: ChipModel) -> (r: Sid)
        ensures
            sid_view(r) =~= spec_sid_power_on(chip_model),
            sid_wf(sid_view(r)),
    {
        let mut regs: Vec<u8> = Vec::new();
        let mut i: usize = 0;
        while i < 32
            invariant
                i <= 32,
                regs@.len() == i,
                forall|j: int| 0 <= j < i ==> regs@[j] == 0u8,
            decreases 32 - i,
        {
            regs.push(0);
            i = i + 1;
        }
        proof {
            assert(regs@ =~= Seq::new(32, |j: int| 0u8));
        }
        let s = Sid {
            model: chip_model,
            voice1: Voice::new(chip_model, 2),
            voice2: Voice::new(chip_model, 0),
            voice3: Voice::new(chip_model, 1),
            filter: Filter::new(chip_model),
            ext_filter: ExternalFilter::new(chip_model),
            sampler: Sampler::new(),
            regs: regs,
        };
        proof {
            assert((0u32 & 0x800000) == 0) by (bit_vector);
        }
        s
    }

    /// Restore the power-on state: every generator, the filter, the
    /// output stage, the sampling configuration and the shadow registers,
    /// keeping only the revision.
    pub fn reset(&mut self)
        requires
            sid_wf(sid_view(*old(self))),
        ensures
            sid_view(*final(self)) =~= spec_sid_power_on(old(self).model),
            sid_wf(sid_view(*final(self))),
    {
        self.voice1.reset();
        self.voice2.reset();
        self.voice3.reset();
        self.filter.reset();
        self.ext_filter.reset();
        self.sampler.reset();
        let ghost pre = *self;
        let mut i: usize = 0;
        while i < 32
            invariant
                i <= 32,
                self.regs@.len() == 32,
                forall|j: int| 0 <= j < i ==> self.regs@[j] == 0u8,
                *self == (Sid { regs: self.regs, ..pre }),
            decreases 32 - i,
        {
            self.regs.set(i, 0);
            i = i + 1;
        }
        proof {
            assert((0u32 & 0x800000) == 0) by (bit_vector);
            assert(self.regs@ =~= Seq::new(32, |j: int| 0u8));
            assert(sid_view(*self) =~= spec_sid_power_on(old(self).model));
        }
    }

    /// Debug bypass of the resonant filter stage.
    pub fn enable_filter(&mut self, enable: bool)
        ensures
            *final(self) == (Sid {
                filter: (Filter { enabled: enable, ..old(self).filter }),
                ..*old(self)
            }),
    {
        self.filter.enable_filter(enable);
    }

    /// Debug bypass of the output RC stage.
    pub fn enable_external_filter(&mut self, enable: bool)
        ensures
            *final(self) == (Sid {
                ext_filter: (ExternalFilter { enabled: enable, ..old(self).ext_filter }),
                ..*old(self)
            }),
    {
        self.ext_filter.enable_filter(enable);
    }

    /// Reconfigure the sampling strategy and rates; the sampling phase
    /// starts afresh.
    pub fn set_sampling_parameters(
        &mut self, method: SamplingMethod, clock_freq: u32, sample_freq: u32,
    )
        requires
            0 < sample_freq <= clock_freq <= 16000000,
        ensures
            *final(self) == (Sid {
                sampler: spec_sampler_configured(method, clock_freq, sample_freq),
                ..*old(self)
            }),
    {
        self.sampler.set_sampling_parameters(method, clock_freq, sample_freq);
    }

    /// Dispatch a register write to the component it addresses.
    #[verifier::rlimit(60)]
    fn write_dispatch(&mut self, reg: u8, value: u8)
        requires
            sid_wf(sid_view(*old(self))),
        ensures
            final(self).voice1 == spec_write_parts(sid_view(*old(self)), reg, value).0,
            final(self).voice2 == spec_write_parts(sid_view(*old(self)), reg, value).1,
            final(self).voice3 == spec_write_parts(sid_view(*old(self)), reg, value).2,
            final(self).filter == spec_write_parts(sid_view(*old(self)), reg, value).3,
            voice_wf(final(self).voice1),
            voice_wf(final(self).voice2),
            voice_wf(final(self).voice3),
            filter_wf(final(self).filter),
            final(self).voice1.wave.sync_source == old(self).voice1.wave.sync_source,
            final(self).voice2.wave.sync_source == old(self).voice2.wave.sync_source,
            final(self).voice3.wave.sync_source == old(self).voice3.wave.sync_source,
            final(self).voice1.wave.model == old(self).voice1.wave.model,
            final(self).voice2.wave.model == old(self).voice2.wave.model,
            final(self).voice3.wave.model == old(self).voice3.wave.model,
            final(self).filter.model == old(self).filter.model,
            final(self).ext_filter == old(self).ext_filter,
            final(self).sampler == old(self).sampler,
            final(self).model == old(self).model,
            final(self).regs == old(self).regs,
    {
        proof {
            reveal(spec_write_parts);
        }
        if reg <= 0x06 {
            voice_write(&mut self.voice1, reg, value);
        } else if reg <= 0x0d {
            voice_write(&mut self.voice2, reg - 7, value);
        } else if reg <= 0x14 {
            voice_write(&mut self.voice3, reg - 14, value);
        } else {
            filter_write(&mut self.filter, reg, value);
        }
    }

    /// Write a chip register; see `spec_sid_write_core`.
    #[verifier::rlimit(100)]
    pub fn write(&mut self, reg: u8, value: u8)
        requires
            sid_wf(sid_view(*old(self))),
        ensures
            sid_view(*final(self)) =~= spec_sid_write_core(sid_view(*old(self)), reg, value),
            sid_wf(sid_view(*final(self))),
    {
        let ghost v0 = sid_view(*old(self));
        self.write_dispatch(reg, value);
        self.refresh_ring();
        if reg < 32 {
            self.regs.set(reg as usize, value);
        }
        proof {
            lemma_write_compose(v0, sid_view(*self), reg, value);
            lemma_write_wf(v0, sid_view(*self), reg, value);
        }
    }

    /// Read a chip register; see `spec_sid_read`.
    pub fn read(&self, reg: u8) -> (r: u8)
        requires
            sid_wf(sid_view(*self)),
        ensures
            r == spec_sid_read(sid_view(*self), reg),
    {
        if reg == 0x1b {
            (self.voice3.wave.output() >> 4) as u8
        } else if reg == 0x1c {
            self.voice3.envelope.output()
        } else if reg < 32 {
            self.regs[reg as usize]
        } else {
            0
        }
    }

    /// Refresh the ring-modulation source caches from the current
    /// accumulators.
    fn refresh_ring(&mut self)
        ensures
            final(self).voice1 == (Voice {
                wave: spec_refresh(
                    old(self).voice1.wave, old(self).voice2.wave, old(self).voice3.wave,
                ).0,
                ..old(self).voice1
            }),
            final(self).voice2 == (Voice {
                wave: spec_refresh(
                    old(self).voice1.wave, old(self).voice2.wave, old(self).voice3.wave,
                ).1,
                ..old(self).voice2
            }),
            final(self).voice3 == (Voice {
                wave: spec_refresh(
                    old(self).voice1.wave, old(self).voice2.wave, old(self).voice3.wave,
                ).2,
                ..old(self).voice3
            }),
            final(self).filter == old(self).filter,
            final(self).ext_filter == old(self).ext_filter,
            final(self).sampler == old(self).sampler,
            final(self).model == old(self).model,
            final(self).regs == old(self).regs,
    {
        let m1: bool = self.voice1.wave.accumulator & 0x800000 != 0;
        let m2: bool = self.voice2.wave.accumulator & 0x800000 != 0;
        let m3: bool = self.voice3.wave.accumulator & 0x800000 != 0;
        self.voice1.wave.sync_source_msb = m3;
        self.voice2.wave.sync_source_msb = m1;
        self.voice3.wave.sync_source_msb = m2;
    }

    /// Advance the whole chip by `delta` clock cycles; see
    /// `spec_sid_clock`.
    #[verifier::rlimit(60)]
    pub fn clock_chip(&mut self, delta: u32)
        requires
            sid_wf(sid_view(*old(self))),
        ensures
            sid_view(*final(self)) =~= spec_sid_clock(sid_view(*old(self)), delta as int),
            sid_wf(sid_view(*final(self))),
    {
        if delta == 0 {
            return;
        }
        self.voice1.envelope.clock_delta(delta);
        self.voice2.envelope.clock_delta(delta);
        self.voice3.envelope.clock_delta(delta);
        clock_oscillators(
            &mut self.voice1.wave, &mut self.voice2.wave, &mut self.voice3.wave, delta,
        );
        self.refresh_ring();
        let o1: i32 = self.voice1.output();
        let o2: i32 = self.voice2.output();
        let o3: i32 = self.voice3.output();
        self.filter.clock_delta(delta, o1, o2, o3, 0);
        let fo: i64 = self.filter.output();
        self.ext_filter.clock_delta(delta, fo);
        proof {
            lemma_osc_run_preserves(
                old(self).voice1.wave, old(self).voice2.wave, old(self).voice3.wave,
                delta as int,
            );
            let v = sid_view(*self);
            assert(voice_wf(v.voice1));
            assert(voice_wf(v.voice2));
            assert(voice_wf(v.voice3));
            assert(filter_wf(v.filter));
            assert(ext_wf(v.ext_filter));
            assert(sampler_wf(v.sampler));
            assert(v.regs.len() == 32);
            assert(v.voice1.wave.sync_source == 2);
            assert(v.voice2.wave.sync_source == 0);
            assert(v.voice3.wave.sync_source == 1);
            assert(v.voice1.wave.sync_source_msb == ((v.voice3.wave.accumulator & 0x800000) != 0));
            assert(v.voice2.wave.sync_source_msb == ((v.voice1.wave.accumulator & 0x800000) != 0));
            assert(v.voice3.wave.sync_source_msb == ((v.voice2.wave.accumulator & 0x800000) != 0));
            assert(v.voice1.wave.model == v.model);
            assert(v.voice2.wave.model == v.model);
            assert(v.voice3.wave.model == v.model);
            assert(v.filter.model == v.model);
            assert(v.ext_filter.model == v.model);
        }
    }

    /// The current audio output sample; see `spec_sid_output`.
    pub fn output(&self) -> (r: i16)
        requires
            sid_wf(sid_view(*self)),
        ensures
            r == spec_sid_output(sid_view(*self)),
    {
        let s: i64 = tdiv_i64(self.ext_filter.output(), 11);
        if s >= 32768 { 32767 } else if s < -32768 { (-32768) as i16 } else { s as i16 }
    }
}


/// Cycles until the next output sample is due.  The nearest-cycle
/// strategy rounds the sample instant to the closest cycle; the
/// bracketing strategies take the cycle at or past the instant.
pub open spec fn spec_sample_due(p: Sampler) -> int {
    if p.method == SamplingMethod::Fast {
        (p.sample_offset + p.cycles_per_sample + spec_half()) / 0x10000
    } else {
        (p.sample_offset + p.cycles_per_sample) / 0x10000
    }
}

/// Consume the cycles up to the next sample instant and form one output
/// sample by the configured strategy.
pub open spec fn spec_sid_emit(v: SidView) -> (SidView, i16) {
    let p = v.sampler;
    if p.method == SamplingMethod::Fast {
        let pos = p.sample_offset + p.cycles_per_sample + spec_half();
        let due = pos / 0x10000;
        let v1 = spec_sid_clock(v, due);
        let val = spec_sid_output(v1);
        (
            SidView {
                sampler: (Sampler {
                    sample_offset: (pos % 0x10000 - spec_half()) as i64,
                    ..p
                }),
                ..v1
            },
            val,
        )
    } else {
        let pos = p.sample_offset + p.cycles_per_sample;
        let due = pos / 0x10000;
        let frac = pos % 0x10000;
        let v1 = spec_sid_clock(v, due - 1);
        let prev = spec_sid_output(v1);
        let v2 = spec_sid_clock(v1, 1);
        let now = spec_sid_output(v2);
        let val = if p.method == SamplingMethod::Interpolate {
            (prev + spec_fdiv(frac * (now - prev), 0x10000)) as i16
        } else if p.method == SamplingMethod::Resample {
            spec_fdiv(prev + now + 1, 2) as i16
        } else {
            crate::filter::spec_tdiv(prev + now, 2) as i16
        };
        (
            SidView {
                sampler: (Sampler { sample_offset: frac as i64, sample_prev: now, ..p }),
                ..v2
            },
            val,
        )
    }
}

/// Consume `delta` cycles that do not reach the next sample instant,
/// keeping the fractional phase (which may run negative) so that a later
/// call resumes exactly.  The bracketing strategies also record the
/// output one cycle back, as their next emission will need it.
pub open spec fn spec_sid_partial(v: SidView, delta: int) -> SidView {
    let p = v.sampler;
    if p.method == SamplingMethod::Fast {
        let v1 = spec_sid_clock(v, delta);
        SidView {
            sampler: (Sampler { sample_offset: (p.sample_offset - delta * 0x10000) as i64, ..p }),
            ..v1
        }
    } else {
        let v1 = spec_sid_clock(v, delta - 1);
        let prev = spec_sid_output(v1);
        let v2 = spec_sid_clock(v1, 1);
        SidView {
            sampler: (Sampler {
                sample_offset: (p.sample_offset - delta * 0x10000) as i64,
                sample_prev: prev,
                ..p
            }),
            ..v2
        }
    }
}

/// The sampling engine: consume up to `delta` cycles, emitting samples as
/// they fall due, stopping early (before consuming further cycles) once
/// `room` samples have been written.  Returns the final chip, the emitted
/// samples, and the cycles consumed.
pub open spec fn spec_sid_sample(v: SidView, delta: int, room: int) -> (SidView, Seq<i16>, int)
    decreases delta,
    when delta >= 0 && sid_wf(v)
    via spec_sid_sample_decreases
{
    if delta <= 0 {
        (v, Seq::empty(), 0)
    } else {
        let due = spec_sample_due(v.sampler);
        if delta < due {
            (spec_sid_partial(v, delta), Seq::empty(), delta)
        } else if room <= 0 {
            (v, Seq::empty(), 0)
        } else {
            let e = spec_sid_emit(v);
            let rest = spec_sid_sample(e.0, delta - due, room - 1);
            (rest.0, seq![e.1] + rest.1, due + rest.2)
        }
    }
}

/// While the sampler is well-formed, the next sample is always at least
/// one cycle away.
pub proof fn lemma_sample_due_pos(p: Sampler)
    requires
        sampler_wf(p),
    ensures
        1 <= spec_sample_due(p) <= 0x300000000000,
{
    if p.method == SamplingMethod::Fast {
        let pos = p.sample_offset + p.cycles_per_sample + spec_half();
        vstd::arithmetic::div_mod::lemma_div_basics_4(pos, 0x10000);
        vstd::arithmetic::div_mod::lemma_div_basics_5(pos, 0x10000);
        lemma_div_at_least(pos, 0x10000);
    } else {
        let pos = p.sample_offset + p.cycles_per_sample;
        vstd::arithmetic::div_mod::lemma_div_basics_4(pos, 0x10000);
        vstd::arithmetic::div_mod::lemma_div_basics_5(pos, 0x10000);
        lemma_div_at_least(pos, 0x10000);
    }
}

/// A value of at least `b` divides by `b` to at least one.
proof fn lemma_div_at_least(a: int, b: int)
    requires
        a >= b > 0,
    ensures
        a / b >= 1,
{
    vstd::arithmetic::div_mod::lemma_fundamental_div_mod(a, b);
    vstd::arithmetic::div_mod::lemma_mod_bound(a, b);
    let q = a / b;
    assert(q >= 1) by (nonlinear_arith)
        requires
            a == b * q + a % b,
            0 <= a % b < b,
            a >= b,
            b > 0,
    ;
}

#[via_fn]
proof fn spec_sid_sample_decreases(v: SidView, delta: int, room: int) {
    if delta > 0 {
        lemma_sample_due_pos(v.sampler);
    }
}

/// The emitted samples scattered into a buffer with the given stride;
/// positions not written keep their old contents.
pub open spec fn spec_scatter(base: Seq<i16>, out: Seq<i16>, interleave: int) -> Seq<i16>
    recommends
        interleave >= 1,
{
    Seq::new(
        base.len(),
        |k: int| if k % interleave == 0 && k / interleave < out.len() {
            out[k / interleave]
        } else {
            base[k]
        },
    )
}


} // verus!
