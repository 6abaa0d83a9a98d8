//! One voice: an oscillator amplitude-modulated by its envelope.
//!
//! The waveform output range is 0x000 to 0xfff, but the measured "zero"
//! level of the waveform D/A converter sits at 0x380 rather than at the
//! ideal midpoint.  The envelope-multiplying D/A adds a further DC offset
//! of half the voice's dynamic range.  Both constants enter the voice
//! output below.

use vstd::prelude::*;
use crate::ChipModel;
use crate::envelope::{EnvelopeGenerator, env_wf, spec_env_default, spec_env_control};
use crate::wave::{WaveformGenerator, wave_wf, spec_wave_default, spec_wave_control, spec_wave_output};

verus! {

/// Measured "zero" level of the waveform output.
pub open spec fn spec_wave_zero() -> int {
    0x380
}

/// DC offset introduced by the envelope-multiplying D/A converter: half
/// the dynamic range of one voice.
pub open spec fn spec_voice_dc() -> int {
    0x800int * 0xff
}

/// A voice: one waveform generator and one envelope generator, plus the
/// measured DC constants used when combining their outputs.
pub struct Voice {
    pub wave_zero: i32,
    pub voice_dc: i32,
    pub envelope: EnvelopeGenerator,
    pub wave: WaveformGenerator,
}

/// Well-formedness of a voice and its two generators.
pub open spec fn voice_wf(v: Voice) -> bool {
    &&& v.wave_zero == spec_wave_zero()
    &&& v.voice_dc == spec_voice_dc()
    &&& env_wf(v.envelope)
    &&& wave_wf(v.wave)
}

/// Power-on state of a voice.
pub open spec fn spec_voice_default(model: ChipModel, sync_source: usize) -> Voice {
    Voice {
        wave_zero: spec_wave_zero() as i32,
        voice_dc: spec_voice_dc() as i32,
        envelope: spec_env_default(),
        wave: spec_wave_default(model, sync_source),
    }
}

/// Amplitude-modulated 20-bit voice output: the oscillator output,
/// centred on the measured zero level, multiplied by the envelope level,
/// plus the voice DC offset.
pub open spec fn spec_voice_output(v: Voice) -> int {
    (spec_wave_output(v.wave) - v.wave_zero) * v.envelope.envelope_counter + v.voice_dc
}

/// Largest value `spec_voice_output` can take on a well-formed voice.
pub open spec fn spec_voice_output_max() -> int {
    (0xfff - 0x380) * 0xff + 0x800 * 0xff
}

impl Voice {
    /// A new voice in its power-on state, synced from voice `sync_source`.
    pub fn new(chip_model: ChipModel, sync_source: usize) -> (r: Voice)
        requires
            sync_source < 3,
        ensures
            r == spec_voice_default(chip_model, sync_source),
            voice_wf(r),
    {
        Voice {
            wave_zero: 0x380,
            voice_dc: 0x800 * 0xff,
            envelope: EnvelopeGenerator::new(),
            wave: WaveformGenerator::new(chip_model, sync_source),
        }
    }

    /// The voice's waveform generator.
    pub fn get_wave(&self) -> (r: &WaveformGenerator)
        ensures
            *r == self.wave,
    {
        &self.wave
    }

    /// Record which voice's oscillator drives hard sync and ring
    /// modulation into this one.
    pub fn set_sync_source(&mut self, source: usize)
        requires
            source < 3,
            voice_wf(*old(self)),
        ensures
            *final(self) == (Voice {
                wave: (WaveformGenerator { sync_source: source, ..old(self).wave }),
                ..*old(self)
            }),
            voice_wf(*final(self)),
    {
        self.wave.sync_source = source;
    }

    /// A control-register write reaches both generators.
    pub fn set_control(&mut self, value: u8)
        requires
            voice_wf(*old(self)),
        ensures
            *final(self) == (Voice {
                envelope: spec_env_control(old(self).envelope, value),
                wave: spec_wave_control(old(self).wave, value),
                ..*old(self)
            }),
            voice_wf(*final(self)),
    {
        self.envelope.set_control(value);
        self.wave.set_control(value);
    }

    /// Amplitude-modulated 20-bit waveform output; see `spec_voice_output`.
    pub fn output(&self) -> (r: i32)
        requires
            voice_wf(*self),
        ensures
            r == spec_voice_output(*self),
            0 <= r <= spec_voice_output_max(),
    {
        let w: i32 = self.wave.output() as i32;
        let e: i32 = self.envelope.output() as i32;
        proof {
            assert((w - 0x380) * e + 0x800 * 0xff == spec_voice_output(*self)
                && 0 <= (w - 0x380) * e + 0x800 * 0xff <= spec_voice_output_max())
                by (nonlinear_arith)
                requires
                    0 <= w < 0x1000,
                    0 <= e < 0x100,
                    w == spec_wave_output(self.wave),
                    e == self.envelope.envelope_counter,
                    spec_voice_output(*self)
                        == (spec_wave_output(self.wave) - 0x380)
                            * self.envelope.envelope_counter + 0x800 * 0xff,
            ;
        }
        (w - self.wave_zero) * e + self.voice_dc
    }

    /// Restore the power-on state, keeping the revision and sync wiring.
    pub fn reset(&mut self)
        requires
            voice_wf(*old(self)),
        ensures
            *final(self) == spec_voice_default(old(self).wave.model, old(self).wave.sync_source),
            voice_wf(*final(self)),
    {
        self.envelope.reset();
        self.wave.reset();
    }
}

/// Law (reset): a reset voice is exactly a power-on voice, so every
/// later observation matches a freshly built one; in particular its
/// immediate output is the bare voice DC offset.
pub proof fn lemma_reset_is_power_on(model: ChipModel, sync_source: usize)
    ensures
        spec_voice_output(spec_voice_default(model, sync_source)) == spec_voice_dc(),
        spec_voice_default(model, sync_source).envelope == spec_env_default(),
{
}

} // verus!
