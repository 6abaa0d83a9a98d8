//! Output-stage RC filter pair.
//!
//! After the mixer the real chip drives a fixed single-pole low-pass
//! (cutoff near 100 kHz) followed by a DC-blocking single-pole high-pass
//! (cutoff near 16 Hz).  Neither is user-configurable.  The stage can be
//! bypassed for testing; the bypass still removes the mixer's maximum DC
//! level, which the high-pass would otherwise absorb.

use vstd::prelude::*;
use vstd::arithmetic::div_mod::{
    lemma_div_basics_1, lemma_div_basics_4, lemma_div_is_ordered, lemma_div_multiples_vanish,
};
use crate::ChipModel;
use crate::filter::{spec_fdiv, fdiv_i64, spec_filter_output_max};

verus! {

/// Bound on the RC stage's state, comfortably above every reachable
/// mixer level.
pub open spec fn spec_ext_bound() -> int {
    0x8000000
}

/// Maximum mixer DC level, removed when the stage is bypassed: with the
/// measured wave and voice DC offsets of the first revision,
/// ((((0x800 - 0x380) + 0x800) * 0xff * 3 - 0xfff * 0xff / 18) >> 7) * 0xf.
pub open spec fn spec_ext_mixer_dc(model: ChipModel) -> int {
    if model == ChipModel::Mos6581 { 280065 } else { 0 }
}

/// The RC stage: low-pass and high-pass accumulators and the current
/// output sample.
pub struct ExternalFilter {
    pub model: ChipModel,
    pub enabled: bool,
    pub mixer_dc: i32,
    pub vlp: i64,
    pub vhp: i64,
    pub vo: i64,
}

/// Well-formedness: state inside its documented bound, DC constant tied
/// to the revision.
pub open spec fn ext_wf(e: ExternalFilter) -> bool {
    &&& e.mixer_dc == spec_ext_mixer_dc(e.model)
    &&& -spec_ext_bound() <= e.vlp <= spec_ext_bound()
    &&& -spec_ext_bound() <= e.vhp <= spec_ext_bound()
    &&& -2 * spec_ext_bound() <= e.vo <= 2 * spec_ext_bound()
}

/// Power-on state of the RC stage.
pub open spec fn spec_ext_default(model: ChipModel) -> ExternalFilter {
    ExternalFilter {
        model: model,
        enabled: true,
        mixer_dc: spec_ext_mixer_dc(model) as i32,
        vlp: 0,
        vhp: 0,
        vo: 0,
    }
}

/// One chunk of at most eight cycles: each pole moves a fixed fraction of
/// the way toward its input; the output is taken before the update, as
/// the hardware's capacitors are read.
pub open spec fn spec_ext_integrate(e: ExternalFilter, vi: int, dtf: int) -> ExternalFilter
    recommends
        1 <= dtf <= 8,
{
    let w0lp_dt = (104858 * dtf) / 256;
    let w0hp_dt = 105 * dtf;
    let dvlp = spec_fdiv(w0lp_dt * (vi - e.vlp), 4096);
    let dvhp = spec_fdiv(w0hp_dt * (e.vlp - e.vhp), 1048576);
    ExternalFilter {
        vo: (e.vlp - e.vhp) as i64,
        vlp: (e.vlp + dvlp) as i64,
        vhp: (e.vhp + dvhp) as i64,
        ..e
    }
}

/// Integrate the RC stage over `delta` cycles, in chunks of at most
/// eight.
pub open spec fn spec_ext_run(e: ExternalFilter, delta: int, vi: int) -> ExternalFilter
    decreases delta,
    when delta >= 0
{
    if delta <= 0 {
        e
    } else {
        let dtf = if delta < 8 { delta } else { 8 };
        spec_ext_run(spec_ext_integrate(e, vi, dtf), delta - dtf, vi)
    }
}

/// The RC stage after `delta` cycles of input `vi`.  Bypassed, it holds
/// its poles at zero and passes the input through minus the maximum mixer
/// DC level.
pub open spec fn spec_ext_clock(e: ExternalFilter, delta: int, vi: int) -> ExternalFilter {
    if !e.enabled {
        ExternalFilter { vlp: 0, vhp: 0, vo: (vi - e.mixer_dc) as i64, ..e }
    } else {
        spec_ext_run(e, delta, vi)
    }
}

/// Moving `b` toward `a` by a fraction `k/m` (with `0 <= k <= m`) lands
/// between the two.
pub proof fn lemma_pole_step_between(a: int, b: int, k: int, m: int)
    requires
        0 <= k <= m,
        0 < m,
    ensures
        a >= b ==> b <= b + (k * (a - b)) / m <= a,
        a < b ==> a <= b + (k * (a - b)) / m <= b,
{
    let d = a - b;
    if d >= 0 {
        assert(0 <= k * d <= m * d) by (nonlinear_arith)
            requires
                0 <= k <= m,
                0 <= d,
        ;
        lemma_div_basics_4(k * d, m);
        lemma_div_is_ordered(k * d, m * d, m);
        lemma_div_multiples_vanish(d, m);
    } else {
        assert(m * d <= k * d <= 0) by (nonlinear_arith)
            requires
                0 <= k <= m,
                d < 0,
        ;
        lemma_div_is_ordered(m * d, k * d, m);
        lemma_div_is_ordered(k * d, 0, m);
        lemma_div_basics_1(m);
        lemma_div_multiples_vanish(d, m);
    }
}

impl ExternalFilter {
    /// A new RC stage in its power-on state.
    pub fn new(model: ChipModel) -> (r: ExternalFilter)
        ensures
            r == spec_ext_default(model),
            ext_wf(r),
    {
        ExternalFilter {
            model: model,
            enabled: true,
            mixer_dc: match model { ChipModel::Mos6581 => 280065, ChipModel::Mos8580 => 0 },
            vlp: 0,
            vhp: 0,
            vo: 0,
        }
    }

    /// Restore the power-on state, keeping the revision.
    pub fn reset(&mut self)
        ensures
            *final(self) == spec_ext_default(old(self).model),
            ext_wf(*final(self)),
    {
        self.enabled = true;
        self.mixer_dc = match self.model { ChipModel::Mos6581 => 280065, ChipModel::Mos8580 => 0 };
        self.vlp = 0;
        self.vhp = 0;
        self.vo = 0;
    }

    /// Debug bypass of the output stage.
    pub fn enable_filter(&mut self, enable: bool)
        ensures
            *final(self) == (ExternalFilter { enabled: enable, ..*old(self) }),
    {
        self.enabled = enable;
    }

    /// The current output sample.
    pub fn output(&self) -> (r: i64)
        ensures
            r == self.vo,
    {
        self.vo
    }

    /// One integration chunk; see `spec_ext_integrate`.
    fn integrate(&mut self, vi: i64, dtf: u32)
        requires
            ext_wf(*old(self)),
            1 <= dtf <= 8,
            -spec_filter_output_max() <= vi <= spec_filter_output_max(),
        ensures
            *final(self) == spec_ext_integrate(*old(self), vi as int, dtf as int),
            ext_wf(*final(self)),
            final(self).model == old(self).model,
            final(self).enabled == old(self).enabled,
    {
        let w0lp_dt: i64 = ((104858 * dtf) / 256) as i64;
        let w0hp_dt: i64 = (105 * dtf) as i64;
        proof {
            let d1 = vi - self.vlp;
            let d2 = self.vlp - self.vhp;
            let klp = w0lp_dt;
            let khp = w0hp_dt;
            assert(-0x4000000000000_i64 <= klp * d1 <= 0x4000000000000_i64
                && -0x4000000000000_i64 <= khp * d2 <= 0x4000000000000_i64)
                by (nonlinear_arith)
                requires
                    0 <= klp <= 4096,
                    0 <= khp <= 1048576,
                    -0x10000000 <= d1 <= 0x10000000,
                    -0x10000000 <= d2 <= 0x10000000,
            ;
            lemma_pole_step_between(vi as int, self.vlp as int, w0lp_dt as int, 4096);
            lemma_pole_step_between(self.vlp as int, self.vhp as int, w0hp_dt as int, 1048576);
        }
        let dvlp: i64 = fdiv_i64(w0lp_dt * (vi - self.vlp), 4096);
        let dvhp: i64 = fdiv_i64(w0hp_dt * (self.vlp - self.vhp), 1048576);
        self.vo = self.vlp - self.vhp;
        self.vlp = self.vlp + dvlp;
        self.vhp = self.vhp + dvhp;
    }

    /// Advance the RC stage by `delta_t` cycles with mixer output `vi`;
    /// see `spec_ext_clock`.
    pub fn clock_delta(&mut self, delta_t: u32, vi: i64)
        requires
            ext_wf(*old(self)),
            -spec_filter_output_max() <= vi <= spec_filter_output_max(),
        ensures
            *final(self) == spec_ext_clock(*old(self), delta_t as int, vi as int),
            ext_wf(*final(self)),
            final(self).model == old(self).model,
            final(self).enabled == old(self).enabled,
    {
        if !self.enabled {
            self.vlp = 0;
            self.vhp = 0;
            self.vo = vi - (self.mixer_dc as i64);
            return;
        }
        let ghost target = spec_ext_clock(*old(self), delta_t as int, vi as int);
        let mut delta: u32 = delta_t;
        while delta > 0
            invariant
                ext_wf(*self),
                -spec_filter_output_max() <= vi <= spec_filter_output_max(),
                target == spec_ext_run(*self, delta as int, vi as int),
                self.model == old(self).model,
                self.enabled == old(self).enabled,
            decreases delta,
        {
            let dtf: u32 = if delta < 8 { delta } else { 8 };
            self.integrate(vi, dtf);
            delta = delta - dtf;
        }
    }
}

} // verus!
