//! Cycle-accurate building blocks of a three-voice programmable
//! sound-synthesis chip: per-voice oscillator and ADSR envelope, the
//! voice combiner with its measured DC offsets, the analog-modelled
//! resonant filter with its calibrated cutoff curve, the output-stage RC
//! filter pair, and the sampling-rate configuration.  Every block is a
//! pure state machine over plain integers, with its transition function
//! stated as its contract.  Two silicon revisions with different analog
//! characteristics are supported.

pub mod envelope;
pub mod external_filter;
pub mod filter;
pub mod sampler;
pub mod sid;
pub mod voice;
pub mod wave;

use vstd::prelude::*;

verus! {

/// The supported silicon revisions of the chip.
#[derive(Clone, Copy, PartialEq, Eq, Structural, Debug)]
pub enum ChipModel {
    Mos6581,
    Mos8580,
}

} // verus!
