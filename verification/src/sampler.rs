//! Sampling state: converting chip cycles into output samples.
//!
//! The chip runs at its clock rate (around 1 MHz); callers want audio at
//! their own rate.  The ratio is held in 16.16 fixed point, and a signed
//! fixed-point offset tracks where the next output sample falls relative
//! to the current cycle.  The offset survives across calls — a call that
//! stops mid-interval resumes exactly where it left off — and it runs
//! negative when a call ends between sample points.
//!
//! Four strategies are offered: `Fast` takes the chip output at the cycle
//! nearest the sample point; `Interpolate` interpolates linearly between
//! the two cycles bracketing it; `Resample` reconstructs each sample as
//! the rounded mean of every cycle's output over the sample interval (a
//! box FIR kernel at the full cycle rate); `ResampleFast` is its
//! fixed-point-optimized variant with a truncating accumulator.

use vstd::prelude::*;

verus! {

/// The available resampling strategies.
#[derive(Clone, Copy, PartialEq, Eq, Structural, Debug)]
pub enum SamplingMethod {
    Fast,
    Interpolate,
    Resample,
    ResampleFast,
}

/// Sampling state.  `cycles_per_sample` is the clock/sample ratio in
/// 16.16 fixed point; `sample_offset` the position of the next sample
/// point relative to the current cycle, in the same fixed point.
/// `sample_prev` is the last chip output seen by `Interpolate`; `accum`
/// and `acycles` carry the running mean of the two `Resample` variants.
pub struct Sampler {
    pub method: SamplingMethod,
    pub clock_freq: u32,
    pub sample_freq: u32,
    pub cycles_per_sample: u64,
    pub sample_offset: i64,
    pub sample_prev: i16,
    pub accum: i64,
    pub acycles: u32,
}

/// The clock/sample ratio in 16.16 fixed point, rounded to nearest.
pub open spec fn spec_cycles_per_sample(clock_freq: u32, sample_freq: u32) -> int
    recommends
        sample_freq > 0,
{
    (2 * clock_freq * 0x10000 + sample_freq) / (2 * sample_freq)
}

/// The rounding bias the nearest-cycle strategies add before truncating
/// to whole cycles.
pub open spec fn spec_half() -> int {
    0x8000
}

/// Well-formedness: a ratio of at least one cycle per sample, an offset
/// no further ahead than half a cycle, never so far behind that the next
/// sample is less than one cycle away, and a resample accumulator that
/// averages to a representable sample.
pub open spec fn sampler_wf(p: Sampler) -> bool {
    &&& 0 < p.sample_freq <= p.clock_freq <= 16000000
    &&& p.cycles_per_sample == spec_cycles_per_sample(p.clock_freq, p.sample_freq)
    &&& 0x10000 <= p.cycles_per_sample <= 0x100000000000
    &&& p.sample_offset <= 0x10000
    &&& -0x200000000000 <= p.sample_offset
    &&& p.sample_offset + p.cycles_per_sample + spec_half() >= 0x10000
    &&& (p.method != SamplingMethod::Fast
        ==> p.sample_offset + p.cycles_per_sample >= 0x10000)
    &&& p.acycles <= 0x2000000
    &&& -32768 * p.acycles <= p.accum <= 32767 * p.acycles
}

/// Power-on sampling configuration: nearest-cycle sampling of a PAL-rate
/// clock at 44.1 kHz.
pub open spec fn spec_sampler_default() -> Sampler {
    Sampler {
        method: SamplingMethod::Fast,
        clock_freq: 985248,
        sample_freq: 44100,
        cycles_per_sample: spec_cycles_per_sample(985248, 44100) as u64,
        sample_offset: 0,
        sample_prev: 0,
        accum: 0,
        acycles: 0,
    }
}

/// A sampler configured for the given rates, with its phase cleared.
pub open spec fn spec_sampler_configured(
    method: SamplingMethod, clock_freq: u32, sample_freq: u32,
) -> Sampler {
    Sampler {
        method: method,
        clock_freq: clock_freq,
        sample_freq: sample_freq,
        cycles_per_sample: spec_cycles_per_sample(clock_freq, sample_freq) as u64,
        sample_offset: 0,
        sample_prev: 0,
        accum: 0,
        acycles: 0,
    }
}

impl Sampler {
    /// A new sampler in the power-on configuration.
    pub fn new() -> (r: Sampler)
        ensures
            r == spec_sampler_default(),
            sampler_wf(r),
    {
        let mut p = Sampler {
            method: SamplingMethod::Fast,
            clock_freq: 985248,
            sample_freq: 44100,
            cycles_per_sample: 0,
            sample_offset: 0,
            sample_prev: 0,
            accum: 0,
            acycles: 0,
        };
        p.set_ratio();
        p
    }

    /// Recompute the fixed-point ratio from the configured rates.
    fn set_ratio(&mut self)
        requires
            0 < old(self).sample_freq <= old(self).clock_freq <= 16000000,
        ensures
            *final(self) == (Sampler {
                cycles_per_sample: spec_cycles_per_sample(
                    old(self).clock_freq, old(self).sample_freq,
                ) as u64,
                ..*old(self)
            }),
            0x10000 <= final(self).cycles_per_sample <= 0x100000000000,
    {
        let num: u64 = 2 * (self.clock_freq as u64) * 0x10000 + (self.sample_freq as u64);
        let den: u64 = 2 * (self.sample_freq as u64);
        proof {
            let numg = num;
            let deng = den;
            let cg = self.clock_freq;
            let sg = self.sample_freq;
            assert(numg / deng >= 0x10000 && numg / deng <= 0x100000000000)
                by (nonlinear_arith)
                requires
                    numg == 2 * (cg as int) * 0x10000 + sg,
                    deng == 2 * (sg as int),
                    0 < sg <= cg <= 16000000,
            ;
        }
        self.cycles_per_sample = num / den;
    }

    /// Reconfigure the sampling strategy and rates.  The fractional phase
    /// and the strategy's carried state are cleared.
    pub fn set_sampling_parameters(
        &mut self, method: SamplingMethod, clock_freq: u32, sample_freq: u32,
    )
        requires
            0 < sample_freq <= clock_freq <= 16000000,
        ensures
            *final(self) == spec_sampler_configured(method, clock_freq, sample_freq),
            sampler_wf(*final(self)),
    {
        self.method = method;
        self.clock_freq = clock_freq;
        self.sample_freq = sample_freq;
        self.sample_offset = 0;
        self.sample_prev = 0;
        self.accum = 0;
        self.acycles = 0;
        self.set_ratio();
    }

    /// Restore the power-on configuration.
    pub fn reset(&mut self)
        ensures
            *final(self) == spec_sampler_default(),
            sampler_wf(*final(self)),
    {
        self.set_sampling_parameters(SamplingMethod::Fast, 985248, 44100);
    }
}

} // verus!
