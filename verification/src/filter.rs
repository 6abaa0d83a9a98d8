//! Resonant filter with an analog-derived cutoff curve.
//!
//! The 11-bit cutoff register does not map linearly to a cutoff frequency
//! on the real chip.  Each revision has a small table of measured
//! calibration points, and the mapping is a piecewise cubic that passes
//! exactly through them (tangents from neighbouring points, natural ends).
//! The curve is evaluated in 16.16 fixed point, entirely in integers.
//!
//! The filter itself is a two-integrator loop (bandpass and lowpass
//! accumulators) with a resonance-controlled feedback path; highpass is
//! recovered combinationally.  All integrator state is clamped to the
//! chip's saturation limits before being fed back.

use vstd::prelude::*;
use vstd::arithmetic::div_mod::{
    lemma_div_basics_4, lemma_div_basics_5, lemma_div_is_ordered,
    lemma_div_is_ordered_by_denominator,
};
use crate::ChipModel;
use crate::voice::spec_voice_output_max;

verus! {

/// Truncating (toward zero) division, the convention the fixed-point
/// tangent and coefficient computations use.
pub open spec fn spec_tdiv(a: int, b: int) -> int
    recommends
        b > 0,
{
    if a >= 0 { a / b } else { -((-a) / b) }
}

/// Flooring division (toward minus infinity); equals `/` on `int` for a
/// positive divisor, written out for use from executable code.
pub open spec fn spec_fdiv(a: int, b: int) -> int
    recommends
        b > 0,
{
    a / b
}

/// Truncating division on 128-bit operands.
fn tdiv_i128(a: i128, b: i128) -> (r: i128)
    requires
        b > 0,
        -0x40000000000000000000000000000000 < a < 0x40000000000000000000000000000000,
    ensures
        r == spec_tdiv(a as int, b as int),
        a >= 0 ==> 0 <= r <= a,
        a < 0 ==> a <= r <= 0,
{
    proof {
        lemma_div_basics_4(a as int, b as int);
        lemma_div_basics_5(a as int, b as int);
        lemma_div_basics_4(-(a as int), b as int);
        lemma_div_basics_5(-(a as int), b as int);
    }
    if a >= 0 {
        ((a as u128) / (b as u128)) as i128
    } else {
        -((((-a) as u128) / (b as u128)) as i128)
    }
}

/// Flooring division on 64-bit operands.
pub fn fdiv_i64(a: i64, b: i64) -> (r: i64)
    requires
        0 < b <= 0x100000000,
        -0x4000000000000000 < a < 0x4000000000000000,
    ensures
        r == spec_fdiv(a as int, b as int),
    {
    proof {
        lemma_div_basics_4(a as int, b as int);
        lemma_div_basics_5(a as int, b as int);
        lemma_div_basics_4((-(a as int)) + (b - 1), b as int);
        lemma_div_basics_5((-(a as int)) + (b - 1), b as int);
        if a < 0 {
            // floor(a/b) == -ceil(-a/b) == -((-a + b - 1) / b)
            vstd::arithmetic::div_mod::lemma_fundamental_div_mod(a as int, b as int);
            vstd::arithmetic::div_mod::lemma_fundamental_div_mod((-(a as int)) + (b - 1), b as int);
            vstd::arithmetic::div_mod::lemma_mod_bound(a as int, b as int);
            vstd::arithmetic::div_mod::lemma_mod_bound((-(a as int)) + (b - 1), b as int);
            assert((a as int) / (b as int) == -(((-(a as int)) + (b - 1)) / (b as int)))
                by (nonlinear_arith)
                requires
                    b > 0,
                    a as int == b * ((a as int) / (b as int)) + (a as int) % (b as int),
                    0 <= (a as int) % (b as int) < b,
                    (-(a as int)) + (b - 1) == b * (((-(a as int)) + (b - 1)) / (b as int))
                        + ((-(a as int)) + (b - 1)) % (b as int),
                    0 <= ((-(a as int)) + (b - 1)) % (b as int) < b,
            ;
        }
    }
    if a >= 0 {
        ((a as u64) / (b as u64)) as i64
    } else {
        -((((-a + (b - 1)) as u64) / (b as u64)) as i64)
    }
}

/// Truncating division on 64-bit operands.
pub fn tdiv_i64(a: i64, b: i64) -> (r: i64)
    requires
        b > 0,
        -0x4000000000000000 < a < 0x4000000000000000,
    ensures
        r == spec_tdiv(a as int, b as int),
        a >= 0 ==> 0 <= r <= a,
        a < 0 ==> a <= r <= 0,
{
    proof {
        lemma_div_basics_4(a as int, b as int);
        lemma_div_basics_5(a as int, b as int);
        lemma_div_basics_4(-(a as int), b as int);
        lemma_div_basics_5(-(a as int), b as int);
    }
    if a >= 0 {
        ((a as u64) / (b as u64)) as i64
    } else {
        -((((-a) as u64) / (b as u64)) as i64)
    }
}

/// Number of calibration points in the cutoff table of a revision.
pub open spec fn spec_f0_count(model: ChipModel) -> int {
    if model == ChipModel::Mos6581 { 18 } else { 19 }
}

/// Cutoff calibration points, first revision: register value and measured
/// cutoff frequency in Hz.  End points are repeated to pin the tangents.
pub open spec fn spec_f0_point_6581(i: int) -> (int, int) {
    if i <= 1 { (0, 220) }
    else if i == 2 { (128, 230) }
    else if i == 3 { (256, 250) }
    else if i == 4 { (384, 300) }
    else if i == 5 { (512, 420) }
    else if i == 6 { (640, 780) }
    else if i == 7 { (768, 1600) }
    else if i == 8 { (832, 2300) }
    else if i == 9 { (896, 3200) }
    else if i == 10 { (960, 4300) }
    else if i == 11 { (992, 5000) }
    else if i == 12 { (1008, 5400) }
    else if i == 13 { (1016, 5700) }
    else if i == 14 || i == 15 { (1023, 6000) }
    else { (2047, 6000) }
}

/// Cutoff calibration points, second revision.
pub open spec fn spec_f0_point_8580(i: int) -> (int, int) {
    if i <= 1 { (0, 0) }
    else if i == 2 { (128, 800) }
    else if i == 3 { (256, 1600) }
    else if i == 4 { (384, 2500) }
    else if i == 5 { (512, 3300) }
    else if i == 6 { (640, 4100) }
    else if i == 7 { (768, 4800) }
    else if i == 8 { (896, 5600) }
    else if i == 9 { (1024, 6500) }
    else if i == 10 { (1152, 7500) }
    else if i == 11 { (1280, 8400) }
    else if i == 12 { (1408, 9200) }
    else if i == 13 { (1536, 9950) }
    else if i == 14 { (1664, 10500) }
    else if i == 15 { (1792, 11000) }
    else if i == 16 { (1920, 11700) }
    else { (2047, 12500) }
}

/// Calibration point `i` of the given revision.
pub open spec fn spec_f0_point(model: ChipModel, i: int) -> (int, int) {
    if model == ChipModel::Mos6581 { spec_f0_point_6581(i) } else { spec_f0_point_8580(i) }
}

/// The calibration tables are sorted by register value, and their values
/// stay within fixed ranges.
pub proof fn lemma_f0_points_sorted(model: ChipModel)
    ensures
        forall|i: int| 0 <= i < spec_f0_count(model) - 1
            ==> #[trigger] spec_f0_point(model, i).0 <= spec_f0_point(model, i + 1).0,
        forall|i: int| 0 <= i < spec_f0_count(model)
            ==> 0 <= #[trigger] spec_f0_point(model, i).0 <= 2047
                && 0 <= spec_f0_point(model, i).1 <= 12500,
{
}

/// Segment search: the start index of the curve segment that covers
/// register value `fc`, scanning up from the first interior point.
pub open spec fn spec_f0_seg_from(model: ChipModel, fc: int, i: int) -> int
    decreases spec_f0_count(model) - i,
    when 1 <= i <= spec_f0_count(model) - 3
{
    if i >= spec_f0_count(model) - 3 {
        i
    } else if spec_f0_point(model, i + 1).0 <= fc {
        spec_f0_seg_from(model, fc, i + 1)
    } else {
        i
    }
}

/// The segment the curve evaluation uses for register value `fc`.
pub open spec fn spec_f0_seg(model: ChipModel, fc: int) -> int {
    spec_f0_seg_from(model, fc, 1)
}

/// Tangent slopes for a curve segment, in 16.16 fixed point.  A repeated
/// end point pins the tangent by a natural-end rule; otherwise a tangent
/// is the slope between the two points around it.
pub open spec fn spec_f0_tangents(
    x0: int, y0: int, x1: int, y1: int, x2: int, y2: int, x3: int, y3: int,
) -> (int, int)
    recommends
        x0 <= x1 < x2 <= x3,
{
    let dx = x2 - x1;
    if x0 == x1 && x2 == x3 {
        let k = spec_tdiv((y2 - y1) * 0x10000, dx);
        (k, k)
    } else if x0 == x1 {
        let k2 = spec_tdiv((y3 - y1) * 0x10000, x3 - x1);
        let k1 = spec_tdiv(spec_tdiv(3 * (y2 - y1) * 0x10000, dx) - k2, 2);
        (k1, k2)
    } else if x2 == x3 {
        let k1 = spec_tdiv((y2 - y0) * 0x10000, x2 - x0);
        let k2 = spec_tdiv(spec_tdiv(3 * (y2 - y1) * 0x10000, dx) - k1, 2);
        (k1, k2)
    } else {
        let k1 = spec_tdiv((y2 - y0) * 0x10000, x2 - x0);
        let k2 = spec_tdiv((y3 - y1) * 0x10000, x3 - x1);
        (k1, k2)
    }
}

/// Cubic Hermite value at offset `t` into a segment, in 16.16 fixed point.
pub open spec fn spec_f0_cubic(
    y1: int, y2: int, k1: int, k2: int, dx: int, t: int,
) -> int
    recommends
        dx > 0,
{
    let dy = y2 - y1;
    let c2 = spec_tdiv(3 * dy * 0x10000 - (2 * k1 + k2) * dx, dx * dx);
    let c3 = spec_tdiv((k1 + k2) * dx - 2 * dy * 0x10000, dx * dx * dx);
    y1 * 0x10000 + k1 * t + c2 * t * t + c3 * t * t * t
}

/// The measured cutoff curve: frequency in Hz for an 11-bit register
/// value, by piecewise cubic interpolation through the calibration points.
/// Degenerate (zero-length) segments contribute their point value; the
/// result is clamped to the curve's headroom of [0, 20000] Hz.
#[verifier::opaque]
pub open spec fn spec_cutoff_f0(model: ChipModel, fc: int) -> int {
    let i = spec_f0_seg(model, fc);
    let p1 = spec_f0_point(model, i);
    let p2 = spec_f0_point(model, i + 1);
    if p2.0 <= p1.0 {
        p1.1
    } else {
        let p0 = spec_f0_point(model, i - 1);
        let p3 = spec_f0_point(model, i + 2);
        let ks = spec_f0_tangents(p0.0, p0.1, p1.0, p1.1, p2.0, p2.1, p3.0, p3.1);
        let yq = spec_f0_cubic(p1.1, p2.1, ks.0, ks.1, p2.0 - p1.0, fc - p1.0);
        let f0 = spec_fdiv(yq + 0x8000, 0x10000);
        if f0 < 0 { 0 } else if f0 > 20000 { 20000 } else { f0 }
    }
}

/// Calibration point `i` of the given revision.
pub fn f0_point(model: ChipModel, i: usize) -> (r: (u16, u16))
    requires
        0 <= i < spec_f0_count(model),
    ensures
        r.0 == spec_f0_point(model, i as int).0,
        r.1 == spec_f0_point(model, i as int).1,
{
    match model {
        ChipModel::Mos6581 => {
            match i {
                0 | 1 => (0, 220),
                2 => (128, 230),
                3 => (256, 250),
                4 => (384, 300),
                5 => (512, 420),
                6 => (640, 780),
                7 => (768, 1600),
                8 => (832, 2300),
                9 => (896, 3200),
                10 => (960, 4300),
                11 => (992, 5000),
                12 => (1008, 5400),
                13 => (1016, 5700),
                14 | 15 => (1023, 6000),
                _ => (2047, 6000),
            }
        }
        ChipModel::Mos8580 => {
            match i {
                0 | 1 => (0, 0),
                2 => (128, 800),
                3 => (256, 1600),
                4 => (384, 2500),
                5 => (512, 3300),
                6 => (640, 4100),
                7 => (768, 4800),
                8 => (896, 5600),
                9 => (1024, 6500),
                10 => (1152, 7500),
                11 => (1280, 8400),
                12 => (1408, 9200),
                13 => (1536, 9950),
                14 => (1664, 10500),
                15 => (1792, 11000),
                16 => (1920, 11700),
                _ => (2047, 12500),
            }
        }
    }
}

/// Number of calibration points of a revision.
fn f0_count(model: ChipModel) -> (r: usize)
    ensures
        r == spec_f0_count(model),
{
    match model {
        ChipModel::Mos6581 => 18,
        ChipModel::Mos8580 => 19,
    }
}

/// Evaluate the measured cutoff curve at register value `fc`.
pub fn cutoff_f0(model: ChipModel, fc: u16) -> (r: u16)
    requires
        fc < 0x800,
    ensures
        r == spec_cutoff_f0(model, fc as int),
        r <= 20000,
{
    let count: usize = f0_count(model);
    let mut i: usize = 1;
    proof {
        reveal(spec_cutoff_f0);
        lemma_f0_points_sorted(model);
    }
    while i < count - 3 && f0_point(model, i + 1).0 <= fc
        invariant
            1 <= i <= spec_f0_count(model) - 3,
            count == spec_f0_count(model),
            fc < 0x800,
            spec_f0_point(model, i as int).0 <= fc,
            spec_f0_seg(model, fc as int) == spec_f0_seg_from(model, fc as int, i as int),
        decreases count - 3 - i,
    {
        i = i + 1;
        proof {
            lemma_f0_points_sorted(model);
        }
    }
    proof {
        assert(i as int == spec_f0_seg(model, fc as int));
    }
    let p1 = f0_point(model, i);
    let p2 = f0_point(model, i + 1);
    if p2.0 <= p1.0 {
        p1.1
    } else {
        let p0 = f0_point(model, i - 1);
        let p3 = f0_point(model, i + 2);
        proof {
            lemma_f0_points_sorted(model);
        }
        let ks = f0_tangents(
            p0.0 as i128, p0.1 as i128, p1.0 as i128, p1.1 as i128,
            p2.0 as i128, p2.1 as i128, p3.0 as i128, p3.1 as i128,
        );
        let yq: i128 = f0_cubic_eval(
            p1.1 as i128, p2.1 as i128, ks.0, ks.1,
            (p2.0 - p1.0) as i128, (fc - p1.0) as i128,
        );
        let f0: i128 = fdiv_i128(yq + 0x8000, 0x10000);
        let r: u16 = if f0 < 0 { 0 } else if f0 > 20000 { 20000 } else { f0 as u16 };
        r
    }
}

/// Tangent slopes of a curve segment in 16.16 fixed point; see
/// `spec_f0_tangents`.
#[verifier::rlimit(30)]
fn f0_tangents(
    x0: i128, y0: i128, x1: i128, y1: i128, x2: i128, y2: i128, x3: i128, y3: i128,
) -> (r: (i128, i128))
    requires
        0 <= x0 <= x1 < x2 <= x3 <= 2047,
        0 <= y0 <= 12500,
        0 <= y1 <= 12500,
        0 <= y2 <= 12500,
        0 <= y3 <= 12500,
    ensures
        (r.0 as int, r.1 as int) == spec_f0_tangents(
            x0 as int, y0 as int, x1 as int, y1 as int,
            x2 as int, y2 as int, x3 as int, y3 as int,
        ),
        -0x300000000 <= r.0 <= 0x300000000,
        -0x300000000 <= r.1 <= 0x300000000,
{
    let dx: i128 = x2 - x1;
    if x0 == x1 && x2 == x3 {
        let k = tdiv_i128((y2 - y1) * 0x10000, dx);
        (k, k)
    } else if x0 == x1 {
        let k2 = tdiv_i128((y3 - y1) * 0x10000, x3 - x1);
        let k1 = tdiv_i128(tdiv_i128(3 * (y2 - y1) * 0x10000, dx) - k2, 2);
        (k1, k2)
    } else if x2 == x3 {
        let k1 = tdiv_i128((y2 - y0) * 0x10000, x2 - x0);
        let k2 = tdiv_i128(tdiv_i128(3 * (y2 - y1) * 0x10000, dx) - k1, 2);
        (k1, k2)
    } else {
        let k1 = tdiv_i128((y2 - y0) * 0x10000, x2 - x0);
        let k2 = tdiv_i128((y3 - y1) * 0x10000, x3 - x1);
        (k1, k2)
    }
}

/// Cubic Hermite value at offset `t` into a segment, in 16.16 fixed
/// point; see `spec_f0_cubic`.
#[verifier::rlimit(30)]
fn f0_cubic_eval(y1: i128, y2: i128, k1: i128, k2: i128, dx: i128, t: i128) -> (r: i128)
    requires
        0 <= y1 <= 12500,
        0 <= y2 <= 12500,
        -0x300000000 <= k1 <= 0x300000000,
        -0x300000000 <= k2 <= 0x300000000,
        0 < dx < 0x800,
        0 <= t < 0x800,
    ensures
        r == spec_f0_cubic(y1 as int, y2 as int, k1 as int, k2 as int, dx as int, t as int),
        -0x80000000000000000000000 <= r <= 0x80000000000000000000000,
{
    let dy: i128 = y2 - y1;
    proof {
        assert(-0x1000000000000_i128 <= (2 * k1 + k2) * dx <= 0x1000000000000_i128
            && -0x1000000000000_i128 <= (k1 + k2) * dx <= 0x1000000000000_i128
            && 0 < dx * dx < 0x400000_i128
            && 0 < dx * dx * dx < 0x200000000_i128)
            by (nonlinear_arith)
            requires
                0 < dx < 0x800,
                -0x300000000_i128 <= k1 <= 0x300000000_i128,
                -0x300000000_i128 <= k2 <= 0x300000000_i128,
        ;
    }
    let c2: i128 = tdiv_i128(3 * dy * 0x10000 - (2 * k1 + k2) * dx, dx * dx);
    let c3: i128 = tdiv_i128((k1 + k2) * dx - 2 * dy * 0x10000, dx * dx * dx);
    proof {
        assert(-0x300000000000_i128 <= k1 * t <= 0x300000000000_i128
            && -0x1000000000000000_i128 <= c2 * t <= 0x1000000000000000_i128
            && -0x4000000000000000000_i128 <= c2 * t * t <= 0x4000000000000000000_i128
            && -0x1000000000000000_i128 <= c3 * t <= 0x1000000000000000_i128
            && -0x4000000000000000000_i128 <= c3 * t * t <= 0x4000000000000000000_i128
            && -0x2000000000000000000000_i128 <= c3 * t * t * t <= 0x2000000000000000000000_i128)
            by (nonlinear_arith)
            requires
                0 <= t < 0x800,
                -0x300000000_i128 <= k1 <= 0x300000000_i128,
                -0x2000000000000_i128 <= c2 <= 0x2000000000000_i128,
                -0x2000000000000_i128 <= c3 <= 0x2000000000000_i128,
        ;
    }
    y1 * 0x10000 + k1 * t + c2 * t * t + c3 * t * t * t
}

/// Flooring division on 128-bit operands.
fn fdiv_i128(a: i128, b: i128) -> (r: i128)
    requires
        0 < b <= 0x100000000,
        -0x40000000000000000000000000000000 < a < 0x40000000000000000000000000000000,
    ensures
        r == spec_fdiv(a as int, b as int),
{
    proof {
        lemma_div_basics_4(a as int, b as int);
        lemma_div_basics_5(a as int, b as int);
        lemma_div_basics_4((-(a as int)) + (b - 1), b as int);
        lemma_div_basics_5((-(a as int)) + (b - 1), b as int);
        if a < 0 {
            vstd::arithmetic::div_mod::lemma_fundamental_div_mod(a as int, b as int);
            vstd::arithmetic::div_mod::lemma_fundamental_div_mod((-(a as int)) + (b - 1), b as int);
            vstd::arithmetic::div_mod::lemma_mod_bound(a as int, b as int);
            vstd::arithmetic::div_mod::lemma_mod_bound((-(a as int)) + (b - 1), b as int);
            assert((a as int) / (b as int) == -(((-(a as int)) + (b - 1)) / (b as int)))
                by (nonlinear_arith)
                requires
                    b > 0,
                    a as int == b * ((a as int) / (b as int)) + (a as int) % (b as int),
                    0 <= (a as int) % (b as int) < b,
                    (-(a as int)) + (b - 1) == b * (((-(a as int)) + (b - 1)) / (b as int))
                        + ((-(a as int)) + (b - 1)) % (b as int),
                    0 <= ((-(a as int)) + (b - 1)) % (b as int) < b,
            ;
        }
    }
    if a >= 0 {
        ((a as u128) / (b as u128)) as i128
    } else {
        -((((-a + (b - 1)) as u128) / (b as u128)) as i128)
    }
}


/// Saturation limit of the filter's integrator state: the chip's
/// documented dynamic-range clamp.
pub open spec fn spec_filter_sat() -> int {
    0x100000
}

/// DC offset of the output mixer.  On the first revision it measures
/// -1/18 of one voice's dynamic range, scaled like the voice inputs
/// (-(0xfff*0xff/18) >> 7); the second revision has none.
pub open spec fn spec_mixer_dc(model: ChipModel) -> int {
    if model == ChipModel::Mos6581 { -454 } else { 0 }
}

/// Resonance feedback coefficient: 1024 / (0.707 + res/15), carried out
/// in thousandths so the computation stays in integers.
pub open spec fn spec_q1024(res: u8) -> int {
    15360000int / (10605 + 1000 * res)
}

/// Angular-frequency coefficient for the integrators: 2*pi*1.048576*f0,
/// capped at the value for 4 kHz, which keeps the eight-cycle integration
/// chunks stable.
pub open spec fn spec_w0_ceil_dt(model: ChipModel, fc: int) -> int {
    let w0 = spec_fdiv(spec_cutoff_f0(model, fc) * 65883973, 10000000);
    if w0 < 0 { 0 } else if w0 <= 26353 { w0 } else { 26353 }
}

/// The resonant filter.  `vhp`, `vbp`, `vlp` are the integrator loop's
/// state; `vnf` carries the voices routed around the filter.
pub struct Filter {
    pub model: ChipModel,
    pub enabled: bool,
    pub fc: u16,
    pub res: u8,
    pub filt: u8,
    pub voice3off: bool,
    pub hp_bp_lp: u8,
    pub vol: u8,
    pub mixer_dc: i32,
    pub vhp: i64,
    pub vbp: i64,
    pub vlp: i64,
    pub vnf: i64,
    pub w0_ceil_dt: u32,
    pub q1024: u32,
}

/// Well-formedness: registers inside their bit widths, state inside the
/// saturation limits, coefficients tied to the registers.
pub open spec fn filter_wf(f: Filter) -> bool {
    &&& f.fc < 0x800
    &&& f.res < 16
    &&& f.filt < 16
    &&& f.hp_bp_lp < 8
    &&& f.vol < 16
    &&& f.mixer_dc == spec_mixer_dc(f.model)
    &&& -spec_filter_sat() <= f.vhp <= spec_filter_sat()
    &&& -spec_filter_sat() <= f.vbp <= spec_filter_sat()
    &&& -spec_filter_sat() <= f.vlp <= spec_filter_sat()
    &&& -spec_filter_sat() <= f.vnf <= spec_filter_sat()
    &&& f.w0_ceil_dt == spec_w0_ceil_dt(f.model, f.fc as int)
    &&& 0 <= f.w0_ceil_dt <= 26353
    &&& f.q1024 == spec_q1024(f.res)
    &&& 0 < f.q1024 <= 1448
}

/// Power-on state of the filter.
pub open spec fn spec_filter_default(model: ChipModel) -> Filter {
    Filter {
        model: model,
        enabled: true,
        fc: 0,
        res: 0,
        filt: 0,
        voice3off: false,
        hp_bp_lp: 0,
        vol: 0,
        mixer_dc: spec_mixer_dc(model) as i32,
        vhp: 0,
        vbp: 0,
        vlp: 0,
        vnf: 0,
        w0_ceil_dt: spec_w0_ceil_dt(model, 0) as u32,
        q1024: spec_q1024(0) as u32,
    }
}

/// Clamp a value to the integrator saturation limits.
pub open spec fn spec_clamp(x: int) -> int {
    if x > spec_filter_sat() { spec_filter_sat() }
    else if x < -spec_filter_sat() { -spec_filter_sat() }
    else { x }
}

/// The four filter inputs after scaling from 20 to 13 bits, with voice 3
/// silenced by its disconnect bit unless it is routed through the filter.
pub open spec fn spec_filter_scaled(f: Filter, v1: int, v2: int, v3: int, ext_in: int)
    -> (int, int, int, int) {
    (
        v1 / 128,
        v2 / 128,
        (if f.voice3off && f.filt & 0x04 == 0 { 0int } else { v3 / 128 }),
        ext_in / 128,
    )
}

/// Sum of the inputs routed into the filter.
pub open spec fn spec_filter_vi(f: Filter, s: (int, int, int, int)) -> int {
    (if f.filt & 0x01 != 0 { s.0 } else { 0 }) + (if f.filt & 0x02 != 0 { s.1 } else { 0 })
        + (if f.filt & 0x04 != 0 { s.2 } else { 0 }) + (if f.filt & 0x08 != 0 { s.3 } else { 0 })
}

/// Sum of the inputs routed around the filter.
pub open spec fn spec_filter_vnf(f: Filter, s: (int, int, int, int)) -> int {
    (if f.filt & 0x01 == 0 { s.0 } else { 0 }) + (if f.filt & 0x02 == 0 { s.1 } else { 0 })
        + (if f.filt & 0x04 == 0 { s.2 } else { 0 }) + (if f.filt & 0x08 == 0 { s.3 } else { 0 })
}

/// One integration chunk of at most eight cycles: the bandpass and
/// lowpass accumulators integrate, then highpass is recovered from the
/// resonance feedback, and everything is clamped to the saturation
/// limits.
pub open spec fn spec_filter_integrate(f: Filter, vi: int, dtf: int) -> Filter
    recommends
        filter_wf(f),
        1 <= dtf <= 8,
{
    let w0dt = (f.w0_ceil_dt * dtf) / 64;
    let dvbp = spec_fdiv(w0dt * f.vhp, 0x4000);
    let dvlp = spec_fdiv(w0dt * f.vbp, 0x4000);
    let vbp1 = spec_clamp(f.vbp - dvbp);
    let vlp1 = spec_clamp(f.vlp - dvlp);
    let vhp1 = spec_clamp(spec_fdiv(vbp1 * f.q1024, 1024) - vlp1 - vi);
    Filter { vbp: vbp1 as i64, vlp: vlp1 as i64, vhp: vhp1 as i64, ..f }
}

/// Integrate the filter over `delta` cycles, in chunks of at most eight.
pub open spec fn spec_filter_run(f: Filter, delta: int, vi: int) -> Filter
    decreases delta,
    when delta >= 0
{
    if delta <= 0 {
        f
    } else {
        let dtf = if delta < 8 { delta } else { 8 };
        spec_filter_run(spec_filter_integrate(f, vi, dtf), delta - dtf, vi)
    }
}

/// The filter after `delta` cycles with the given voice inputs.  With the
/// filter disabled, the integrators are held at zero and only the inputs
/// routed around the filter reach the mixer; the filter-routed ones
/// contribute nothing.
pub open spec fn spec_filter_clock(
    f: Filter, delta: int, v1: int, v2: int, v3: int, ext_in: int,
) -> Filter {
    let s = spec_filter_scaled(f, v1, v2, v3, ext_in);
    let vnf = spec_filter_vnf(f, s);
    if !f.enabled {
        Filter { vnf: vnf as i64, vhp: 0, vbp: 0, vlp: 0, ..f }
    } else {
        spec_filter_run(Filter { vnf: vnf as i64, ..f }, delta, spec_filter_vi(f, s))
    }
}

/// Mixer output: the non-filtered sum, plus the selected filter taps when
/// the filter is enabled, plus the mixer DC offset, scaled by the master
/// volume.
pub open spec fn spec_filter_output(f: Filter) -> int {
    let vf = (if f.hp_bp_lp & 0x01 != 0 { f.vlp as int } else { 0 })
        + (if f.hp_bp_lp & 0x02 != 0 { f.vbp as int } else { 0 })
        + (if f.hp_bp_lp & 0x04 != 0 { f.vhp as int } else { 0 });
    if !f.enabled {
        (f.vnf + f.mixer_dc) * f.vol
    } else {
        (f.vnf + vf + f.mixer_dc) * f.vol
    }
}

/// Largest magnitude `spec_filter_output` can take on a well-formed
/// filter.
pub open spec fn spec_filter_output_max() -> int {
    (4 * spec_filter_sat() + 454) * 15
}

/// Clamp to the integrator saturation limits.
fn clamp_sat(x: i64) -> (r: i64)
    requires
        -0x100000000 <= x <= 0x100000000,
    ensures
        r == spec_clamp(x as int),
        -spec_filter_sat() <= r <= spec_filter_sat(),
{
    if x > 0x100000 { 0x100000 } else if x < -0x100000 { -0x100000 } else { x }
}

impl Filter {
    /// A new filter in its power-on state.
    pub fn new(model: ChipModel) -> (r: Filter)
        ensures
            r == spec_filter_default(model),
            filter_wf(r),
    {
        let mut f = Filter {
            model: model,
            enabled: true,
            fc: 0,
            res: 0,
            filt: 0,
            voice3off: false,
            hp_bp_lp: 0,
            vol: 0,
            mixer_dc: match model { ChipModel::Mos6581 => -454, ChipModel::Mos8580 => 0 },
            vhp: 0,
            vbp: 0,
            vlp: 0,
            vnf: 0,
            w0_ceil_dt: 0,
            q1024: 0,
        };
        f.set_w0();
        f.set_q();
        f
    }

    /// Restore the power-on state, keeping the revision.
    pub fn reset(&mut self)
        ensures
            *final(self) == spec_filter_default(old(self).model),
            filter_wf(*final(self)),
    {
        self.enabled = true;
        self.fc = 0;
        self.res = 0;
        self.filt = 0;
        self.voice3off = false;
        self.hp_bp_lp = 0;
        self.vol = 0;
        self.mixer_dc = match self.model { ChipModel::Mos6581 => -454, ChipModel::Mos8580 => 0 };
        self.vhp = 0;
        self.vbp = 0;
        self.vlp = 0;
        self.vnf = 0;
        self.set_w0();
        self.set_q();
    }

    /// Debug bypass: route every voice straight to the mixer.
    pub fn enable_filter(&mut self, enable: bool)
        ensures
            *final(self) == (Filter { enabled: enable, ..*old(self) }),
    {
        self.enabled = enable;
    }

    /// Recompute the angular-frequency coefficient from the cutoff
    /// register through the measured curve.
    fn set_w0(&mut self)
        requires
            old(self).fc < 0x800,
        ensures
            *final(self) == (Filter {
                w0_ceil_dt: spec_w0_ceil_dt(old(self).model, old(self).fc as int) as u32,
                ..*old(self)
            }),
            final(self).w0_ceil_dt <= 26353,
    {
        let f0: u16 = cutoff_f0(self.model, self.fc);
        proof {
            lemma_div_basics_4(f0 as int * 65883973, 10000000);
            lemma_div_basics_5(f0 as int * 65883973, 10000000);
        }
        let w0: u64 = (f0 as u64 * 65883973) / 10000000;
        proof {
            assert(w0 as int == spec_fdiv(spec_cutoff_f0(self.model, self.fc as int) * 65883973, 10000000));
        }
        self.w0_ceil_dt = if w0 <= 26353 { w0 as u32 } else { 26353 };
    }

    /// Recompute the resonance feedback coefficient.
    fn set_q(&mut self)
        requires
            old(self).res < 16,
        ensures
            *final(self) == (Filter { q1024: spec_q1024(old(self).res) as u32, ..*old(self) }),
            0 < final(self).q1024 <= 1448,
    {
        let den: u32 = 10605 + 1000 * (self.res as u32);
        proof {
            lemma_div_is_ordered_by_denominator(15360000, 10605, den as int);
            lemma_div_is_ordered_by_denominator(15360000, den as int, 25605);
        }
        self.q1024 = 15360000 / den;
    }

    /// Write the cutoff register's low three bits.
    pub fn set_fc_lo(&mut self, value: u8)
        requires
            filter_wf(*old(self)),
        ensures
            *final(self) == (Filter {
                fc: (old(self).fc & 0x7f8) | ((value & 0x07) as u16),
                w0_ceil_dt: spec_w0_ceil_dt(
                    old(self).model,
                    ((old(self).fc & 0x7f8) | ((value & 0x07) as u16)) as int,
                ) as u32,
                ..*old(self)
            }),
            filter_wf(*final(self)),
    {
        proof {
            let fcv = old(self).fc;
            assert((fcv & 0x7f8) | ((value & 0x07) as u16) < 0x800) by (bit_vector);
        }
        self.fc = (self.fc & 0x7f8) | ((value & 0x07) as u16);
        self.set_w0();
    }

    /// Write the cutoff register's high eight bits.
    pub fn set_fc_hi(&mut self, value: u8)
        requires
            filter_wf(*old(self)),
        ensures
            *final(self) == (Filter {
                fc: (((value as u16) << 3) & 0x7f8) | (old(self).fc & 0x007),
                w0_ceil_dt: spec_w0_ceil_dt(
                    old(self).model,
                    ((((value as u16) << 3) & 0x7f8) | (old(self).fc & 0x007)) as int,
                ) as u32,
                ..*old(self)
            }),
            filter_wf(*final(self)),
    {
        proof {
            let fcv = old(self).fc;
            assert((((value as u16) << 3) & 0x7f8) | (fcv & 0x007) < 0x800) by (bit_vector);
        }
        self.fc = (((value as u16) << 3) & 0x7f8) | (self.fc & 0x007);
        self.set_w0();
    }

    /// Write resonance (high nibble) and the per-input filter-routing bits
    /// (low nibble).
    pub fn set_res_filt(&mut self, value: u8)
        requires
            filter_wf(*old(self)),
        ensures
            *final(self) == (Filter {
                res: (value >> 4) & 0x0f,
                q1024: spec_q1024((value >> 4) & 0x0f) as u32,
                filt: value & 0x0f,
                ..*old(self)
            }),
            filter_wf(*final(self)),
    {
        proof {
            assert((value >> 4) & 0x0f < 16 && value & 0x0f < 16) by (bit_vector);
        }
        self.res = (value >> 4) & 0x0f;
        self.set_q();
        self.filt = value & 0x0f;
    }

    /// Write mode bits, the voice-3 disconnect bit, and the master volume.
    pub fn set_mode_vol(&mut self, value: u8)
        requires
            filter_wf(*old(self)),
        ensures
            *final(self) == (Filter {
                voice3off: value & 0x80 != 0,
                hp_bp_lp: (value >> 4) & 0x07,
                vol: value & 0x0f,
                ..*old(self)
            }),
            filter_wf(*final(self)),
    {
        proof {
            assert((value >> 4) & 0x07 < 8 && value & 0x0f < 16) by (bit_vector);
        }
        self.voice3off = value & 0x80 != 0;
        self.hp_bp_lp = (value >> 4) & 0x07;
        self.vol = value & 0x0f;
    }

    /// One integration chunk; see `spec_filter_integrate`.
    #[verifier::rlimit(30)]
    fn integrate(&mut self, vi: i64, dtf: u32)
        requires
            filter_wf(*old(self)),
            -0x80000 <= vi <= 0x80000,
            1 <= dtf <= 8,
        ensures
            *final(self) == spec_filter_integrate(*old(self), vi as int, dtf as int),
            filter_wf(*final(self)),
            final(self).model == old(self).model,
            final(self).enabled == old(self).enabled,
    {
        proof {
            let w0c = self.w0_ceil_dt;
            let dtfg = dtf;
            assert(w0c * dtfg <= 26353 * 8) by (nonlinear_arith)
                requires
                    w0c <= 26353,
                    dtfg <= 8,
            ;
            lemma_div_basics_4(self.w0_ceil_dt * dtf, 64);
            lemma_div_basics_5(self.w0_ceil_dt * dtf, 64);
            lemma_div_is_ordered(self.w0_ceil_dt * dtf, 26353int * 8, 64);
        }
        let w0dt: u32 = (self.w0_ceil_dt * dtf) / 64;
        proof {
            let w0dtg = w0dt;
            let vhp0 = self.vhp;
            let vbp0 = self.vbp;
            assert(-0x80000000000_i64 <= (w0dtg as i64) * vhp0 <= 0x80000000000_i64
                && -0x80000000000_i64 <= (w0dtg as i64) * vbp0 <= 0x80000000000_i64)
                by (nonlinear_arith)
                requires
                    0 <= w0dtg <= 26353int * 8 / 64,
                    -0x100000 <= vhp0 <= 0x100000,
                    -0x100000 <= vbp0 <= 0x100000,
            ;
            lemma_div_is_ordered(-0x80000000000, (w0dt as i64) * self.vhp as int, 0x4000);
            lemma_div_is_ordered((w0dt as i64) * self.vhp as int, 0x80000000000, 0x4000);
            lemma_div_is_ordered(-0x80000000000, (w0dt as i64) * self.vbp as int, 0x4000);
            lemma_div_is_ordered((w0dt as i64) * self.vbp as int, 0x80000000000, 0x4000);
        }
        let dvbp: i64 = fdiv_i64((w0dt as i64) * self.vhp, 0x4000);
        let dvlp: i64 = fdiv_i64((w0dt as i64) * self.vbp, 0x4000);
        self.vbp = clamp_sat(self.vbp - dvbp);
        self.vlp = clamp_sat(self.vlp - dvlp);
        proof {
            let vbp1 = self.vbp;
            let q0 = self.q1024;
            assert(-0x800000000_i64 <= vbp1 * (q0 as i64) <= 0x800000000_i64)
                by (nonlinear_arith)
                requires
                    -0x100000 <= vbp1 <= 0x100000,
                    0 < q0 <= 1448,
            ;
            lemma_div_is_ordered(-0x800000000, self.vbp * (self.q1024 as i64) as int, 1024);
            lemma_div_is_ordered(self.vbp * (self.q1024 as i64) as int, 0x800000000, 1024);
        }
        let fb: i64 = fdiv_i64(self.vbp * (self.q1024 as i64), 1024);
        self.vhp = clamp_sat(fb - self.vlp - vi);
    }

    /// Advance the filter by `delta_t` cycles with the given voice
    /// outputs; see `spec_filter_clock`.
    pub fn clock_delta(&mut self, delta_t: u32, voice1: i32, voice2: i32, voice3: i32, ext_in: i32)
        requires
            filter_wf(*old(self)),
            0 <= voice1 <= spec_voice_output_max(),
            0 <= voice2 <= spec_voice_output_max(),
            0 <= voice3 <= spec_voice_output_max(),
            0 <= ext_in <= spec_voice_output_max(),
        ensures
            *final(self) == spec_filter_clock(
                *old(self), delta_t as int,
                voice1 as int, voice2 as int, voice3 as int, ext_in as int,
            ),
            filter_wf(*final(self)),
            final(self).model == old(self).model,
            final(self).enabled == old(self).enabled,
    {
        proof {
            lemma_div_basics_4(voice1 as int, 128);
            lemma_div_basics_5(voice1 as int, 128);
            lemma_div_basics_4(voice2 as int, 128);
            lemma_div_basics_5(voice2 as int, 128);
            lemma_div_basics_4(voice3 as int, 128);
            lemma_div_basics_5(voice3 as int, 128);
            lemma_div_basics_4(ext_in as int, 128);
            lemma_div_basics_5(ext_in as int, 128);
            lemma_div_is_ordered(voice1 as int, spec_voice_output_max(), 128);
            lemma_div_is_ordered(voice2 as int, spec_voice_output_max(), 128);
            lemma_div_is_ordered(voice3 as int, spec_voice_output_max(), 128);
            lemma_div_is_ordered(ext_in as int, spec_voice_output_max(), 128);
        }
        let s1: i64 = (voice1 / 128) as i64;
        let s2: i64 = (voice2 / 128) as i64;
        let s3: i64 = if self.voice3off && self.filt & 0x04 == 0 { 0 } else { (voice3 / 128) as i64 };
        let se: i64 = (ext_in / 128) as i64;
        let vnf: i64 = (if self.filt & 0x01 == 0 { s1 } else { 0 })
            + (if self.filt & 0x02 == 0 { s2 } else { 0 })
            + (if self.filt & 0x04 == 0 { s3 } else { 0 })
            + (if self.filt & 0x08 == 0 { se } else { 0 });
        if !self.enabled {
            self.vnf = vnf;
            self.vhp = 0;
            self.vbp = 0;
            self.vlp = 0;
            return;
        }
        let vi: i64 = (if self.filt & 0x01 != 0 { s1 } else { 0 })
            + (if self.filt & 0x02 != 0 { s2 } else { 0 })
            + (if self.filt & 0x04 != 0 { s3 } else { 0 })
            + (if self.filt & 0x08 != 0 { se } else { 0 });
        self.vnf = vnf;
        let ghost target = spec_filter_clock(
            *old(self), delta_t as int, voice1 as int, voice2 as int, voice3 as int, ext_in as int,
        );
        let mut delta: u32 = delta_t;
        while delta > 0
            invariant
                filter_wf(*self),
                -0x80000 <= vi <= 0x80000,
                target == spec_filter_run(*self, delta as int, vi as int),
                self.model == old(self).model,
                self.enabled == old(self).enabled,
            decreases delta,
        {
            let dtf: u32 = if delta < 8 { delta } else { 8 };
            self.integrate(vi, dtf);
            delta = delta - dtf;
        }
    }

    /// The mixer output; see `spec_filter_output`.
    pub fn output(&self) -> (r: i64)
        requires
            filter_wf(*self),
        ensures
            r == spec_filter_output(*self),
            -spec_filter_output_max() <= r <= spec_filter_output_max(),
    {
        let vf: i64 = if self.enabled {
            (if self.hp_bp_lp & 0x01 != 0 { self.vlp } else { 0 })
                + (if self.hp_bp_lp & 0x02 != 0 { self.vbp } else { 0 })
                + (if self.hp_bp_lp & 0x04 != 0 { self.vhp } else { 0 })
        } else {
            0
        };
        let sum: i64 = self.vnf + vf + (self.mixer_dc as i64);
        proof {
            let sumg = sum;
            let volg = self.vol;
            assert(-((4int * 0x100000 + 454) * 15) <= sumg * (volg as i64)
                <= (4int * 0x100000 + 454) * 15) by (nonlinear_arith)
                requires
                    -(4int * 0x100000 + 454) <= sumg <= 4int * 0x100000 + 454,
                    0 <= volg < 16,
            ;
        }
        sum * (self.vol as i64)
    }
}

/// Law (filter bypass): with the filter disabled, the output is exactly
/// the mixed sum of the inputs routed around the filter plus the mixer DC
/// offset, scaled by the master volume — the filter stage passes
/// non-filtered voices through and contributes zero for filter-routed
/// ones, whatever the cycle count.
pub proof fn lemma_filter_bypass(
    f: Filter, delta: int, v1: int, v2: int, v3: int, ext_in: int,
)
    requires
        !f.enabled,
        0 <= v1 <= spec_voice_output_max(),
        0 <= v2 <= spec_voice_output_max(),
        0 <= v3 <= spec_voice_output_max(),
        0 <= ext_in <= spec_voice_output_max(),
    ensures
        spec_filter_output(spec_filter_clock(f, delta, v1, v2, v3, ext_in))
            == (spec_filter_vnf(f, spec_filter_scaled(f, v1, v2, v3, ext_in)) + f.mixer_dc)
                * f.vol,
{
    lemma_div_basics_4(v1, 128);
    lemma_div_basics_5(v1, 128);
    lemma_div_basics_4(v2, 128);
    lemma_div_basics_5(v2, 128);
    lemma_div_basics_4(v3, 128);
    lemma_div_basics_5(v3, 128);
    lemma_div_basics_4(ext_in, 128);
    lemma_div_basics_5(ext_in, 128);
}

} // verus!
