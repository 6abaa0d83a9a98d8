//! ADSR envelope generator for one voice.
//!
//! The envelope is a small state machine clocked by the chip clock.  An
//! internal 15-bit rate counter is compared against a period drawn from a
//! fixed 16-entry table (indexed by the nibble of the active phase); on a
//! match the 8-bit envelope level steps up (attack) or down (decay/release),
//! the latter through an extra exponential divider that models the nonlinear
//! discharge of the envelope capacitor.

use vstd::prelude::*;

verus! {

/// Phase of the envelope state machine.  Decay and sustain share a phase:
/// the level simply stops falling once it reaches the sustain level.
#[derive(Clone, Copy, PartialEq, Eq, Structural, Debug)]
pub enum EnvPhase {
    Attack,
    DecaySustain,
    Release,
}

/// Envelope generator state.  `envelope_counter` is the 8-bit output level;
/// the remaining fields drive the rate logic described in the module header.
pub struct EnvelopeGenerator {
    pub envelope_counter: u8,
    pub attack: u8,
    pub decay: u8,
    pub sustain: u8,
    pub release: u8,
    pub gate: bool,
    pub rate_counter: u16,
    pub rate_period: u16,
    pub exponential_counter: u8,
    pub exponential_counter_period: u8,
    pub state: EnvPhase,
    pub hold_zero: bool,
}

/// Rate-counter periods for the sixteen attack/decay/release nibble values.
pub open spec fn spec_rate_period(i: int) -> u16 {
    if i == 0 { 9 } else if i == 1 { 32 } else if i == 2 { 63 }
    else if i == 3 { 95 } else if i == 4 { 149 } else if i == 5 { 220 }
    else if i == 6 { 267 } else if i == 7 { 313 } else if i == 8 { 392 }
    else if i == 9 { 977 } else if i == 10 { 1954 } else if i == 11 { 3126 }
    else if i == 12 { 3907 } else if i == 13 { 11720 } else if i == 14 { 19532 }
    else { 31251 }
}

/// The 16-entry exponential rate table, indexed by a register nibble.
pub fn rate_period(i: u8) -> (r: u16)
    requires
        i < 16,
    ensures
        r == spec_rate_period(i as int),
{
    match i {
        0 => 9,
        1 => 32,
        2 => 63,
        3 => 95,
        4 => 149,
        5 => 220,
        6 => 267,
        7 => 313,
        8 => 392,
        9 => 977,
        10 => 1954,
        11 => 3126,
        12 => 3907,
        13 => 11720,
        14 => 19532,
        _ => 31251,
    }
}

/// Sustain nibble `s` maps to level `s * 0x11`, so 0xf holds at level 0xff.
pub open spec fn spec_sustain_level(s: u8) -> u8
    recommends
        s < 16,
{
    (0x11 * s) as u8
}

/// Extra divisor period for the nonlinear decay/release slow-down, as a
/// function of the level the counter has just reached.  Between the listed
/// breakpoints the period is left unchanged; at level 0 the envelope also
/// freezes until the next gate-on edge.
pub open spec fn spec_exp_update(e: EnvelopeGenerator) -> EnvelopeGenerator {
    let c = e.envelope_counter;
    if c == 0xff { EnvelopeGenerator { exponential_counter_period: 1, ..e } }
    else if c == 0x5d { EnvelopeGenerator { exponential_counter_period: 2, ..e } }
    else if c == 0x36 { EnvelopeGenerator { exponential_counter_period: 4, ..e } }
    else if c == 0x1a { EnvelopeGenerator { exponential_counter_period: 8, ..e } }
    else if c == 0x0e { EnvelopeGenerator { exponential_counter_period: 16, ..e } }
    else if c == 0x06 { EnvelopeGenerator { exponential_counter_period: 30, ..e } }
    else if c == 0x00 {
        EnvelopeGenerator { exponential_counter_period: 1, hold_zero: true, ..e }
    } else { e }
}

/// One envelope step: the rate counter has just matched the rate period.
/// The exponential divider is advanced and, when it fires, the level counter
/// moves one step in the direction of the current phase.
pub open spec fn spec_env_tick(e: EnvelopeGenerator) -> EnvelopeGenerator
    recommends
        env_wf(e),
{
    let e0 = EnvelopeGenerator { rate_counter: 0, ..e };
    let exp1 = (if e0.exponential_counter == 255 { 0 } else { (e0.exponential_counter + 1) as u8 });
    if e0.state == EnvPhase::Attack || exp1 == e0.exponential_counter_period {
        let e1 = EnvelopeGenerator { exponential_counter: 0, ..e0 };
        if e1.hold_zero {
            e1
        } else {
            let e2 = if e1.state == EnvPhase::Attack {
                let up = (if e1.envelope_counter == 255 { 255 } else { (e1.envelope_counter + 1) as u8 });
                let e1b = EnvelopeGenerator { envelope_counter: up, ..e1 };
                if up == 0xff {
                    EnvelopeGenerator {
                        state: EnvPhase::DecaySustain,
                        rate_period: spec_rate_period(e1b.decay as int),
                        ..e1b
                    }
                } else {
                    e1b
                }
            } else if e1.state == EnvPhase::DecaySustain {
                if e1.envelope_counter != spec_sustain_level(e1.sustain) {
                    EnvelopeGenerator {
                        envelope_counter: (if e1.envelope_counter == 0 { 0 } else { (e1.envelope_counter - 1) as u8 }),
                        ..e1
                    }
                } else {
                    e1
                }
            } else {
                EnvelopeGenerator {
                    envelope_counter: (if e1.envelope_counter == 0 { 0 } else { (e1.envelope_counter - 1) as u8 }),
                    ..e1
                }
            };
            spec_exp_update(e2)
        }
    } else {
        EnvelopeGenerator { exponential_counter: exp1, ..e0 }
    }
}

/// Cycles until the rate counter next matches the rate period.  When the
/// period has been moved below the current count, the counter must first run
/// through its full 15-bit range (one count is skipped at the wrap, hence
/// 0x7fff rather than 0x8000).
pub open spec fn spec_env_step_cycles(e: EnvelopeGenerator) -> int {
    let diff = e.rate_period - e.rate_counter;
    if diff <= 0 { diff + 0x7fff } else { diff }
}

/// Partial advance by fewer cycles than remain to the next envelope step:
/// only the rate counter moves (with its 15-bit wrap quirk).
pub open spec fn spec_env_partial(e: EnvelopeGenerator, delta: int) -> EnvelopeGenerator {
    let sum = e.rate_counter + delta;
    let rc = if sum >= 0x8000 { ((sum + 1) % 0x8000) as u16 } else { sum as u16 };
    EnvelopeGenerator { rate_counter: rc, ..e }
}

/// Advance the envelope by `delta` clock cycles.
pub open spec fn spec_env_clock(e: EnvelopeGenerator, delta: int) -> EnvelopeGenerator
    decreases delta,
    when env_wf(e) && delta >= 0
{
    if delta <= 0 {
        e
    } else {
        let step = spec_env_step_cycles(e);
        if delta < step {
            spec_env_partial(e, delta)
        } else {
            spec_env_clock(spec_env_tick(e), delta - step)
        }
    }
}

/// Well-formedness: register nibbles are four bits, the rate counter is
/// fifteen bits, the rate period comes from the rate table, and the
/// exponential divider is below its period (one of {1,2,4,8,16,30}).
pub open spec fn env_wf(e: EnvelopeGenerator) -> bool {
    &&& e.attack < 16
    &&& e.decay < 16
    &&& e.sustain < 16
    &&& e.release < 16
    &&& e.rate_counter < 0x8000
    &&& exists|i: int| 0 <= i < 16 && e.rate_period == spec_rate_period(i)
    &&& e.exponential_counter < e.exponential_counter_period
    &&& (e.exponential_counter_period == 1 || e.exponential_counter_period == 2
        || e.exponential_counter_period == 4 || e.exponential_counter_period == 8
        || e.exponential_counter_period == 16 || e.exponential_counter_period == 30)
}

/// Power-on state of the envelope generator.
pub open spec fn spec_env_default() -> EnvelopeGenerator {
    EnvelopeGenerator {
        envelope_counter: 0,
        attack: 0,
        decay: 0,
        sustain: 0,
        release: 0,
        gate: false,
        rate_counter: 0,
        rate_period: spec_rate_period(0),
        exponential_counter: 0,
        exponential_counter_period: 1,
        state: EnvPhase::Release,
        hold_zero: true,
    }
}

/// Effect of a control-register write on the envelope: only gate-bit edges
/// matter.  A rising edge starts the attack phase, a falling edge the
/// release phase; rewriting the current gate value is a no-op.
pub open spec fn spec_env_control(e: EnvelopeGenerator, value: u8) -> EnvelopeGenerator
    recommends
        env_wf(e),
{
    let gate_next = value & 0x01 == 0x01;
    if !e.gate && gate_next {
        EnvelopeGenerator {
            state: EnvPhase::Attack,
            rate_period: spec_rate_period(e.attack as int),
            hold_zero: false,
            gate: gate_next,
            ..e
        }
    } else if e.gate && !gate_next {
        EnvelopeGenerator {
            state: EnvPhase::Release,
            rate_period: spec_rate_period(e.release as int),
            gate: gate_next,
            ..e
        }
    } else {
        e
    }
}

/// Effect of writing the attack/decay register.
pub open spec fn spec_env_attack_decay(e: EnvelopeGenerator, value: u8) -> EnvelopeGenerator {
    let a = (value >> 4) & 0x0f;
    let d = value & 0x0f;
    let e1 = EnvelopeGenerator { attack: a, decay: d, ..e };
    if e1.state == EnvPhase::Attack {
        EnvelopeGenerator { rate_period: spec_rate_period(a as int), ..e1 }
    } else if e1.state == EnvPhase::DecaySustain {
        EnvelopeGenerator { rate_period: spec_rate_period(d as int), ..e1 }
    } else {
        e1
    }
}

/// Effect of writing the sustain/release register.
pub open spec fn spec_env_sustain_release(e: EnvelopeGenerator, value: u8) -> EnvelopeGenerator {
    let s = (value >> 4) & 0x0f;
    let r = value & 0x0f;
    let e1 = EnvelopeGenerator { sustain: s, release: r, ..e };
    if e1.state == EnvPhase::Release {
        EnvelopeGenerator { rate_period: spec_rate_period(r as int), ..e1 }
    } else {
        e1
    }
}

impl EnvelopeGenerator {
    /// A new envelope generator in its power-on state.
    pub fn new() -> (r: EnvelopeGenerator)
        ensures
            r == spec_env_default(),
            env_wf(r),
    {
        EnvelopeGenerator {
            envelope_counter: 0,
            attack: 0,
            decay: 0,
            sustain: 0,
            release: 0,
            gate: false,
            rate_counter: 0,
            rate_period: 9,
            exponential_counter: 0,
            exponential_counter_period: 1,
            state: EnvPhase::Release,
            hold_zero: true,
        }
    }

    /// Restore the power-on state.
    pub fn reset(&mut self)
        ensures
            *final(self) == spec_env_default(),
            env_wf(*final(self)),
    {
        self.envelope_counter = 0;
        self.attack = 0;
        self.decay = 0;
        self.sustain = 0;
        self.release = 0;
        self.gate = false;
        self.rate_counter = 0;
        self.rate_period = 9;
        self.exponential_counter = 0;
        self.exponential_counter_period = 1;
        self.state = EnvPhase::Release;
        self.hold_zero = true;
    }

    /// The current 8-bit envelope level.
    pub fn output(&self) -> (r: u8)
        ensures
            r == self.envelope_counter,
    {
        self.envelope_counter
    }

    /// A rising edge starts the attack phase; a falling edge the release phase.
    pub fn set_control(&mut self, value: u8)
        requires
            env_wf(*old(self)),
        ensures
            *final(self) == spec_env_control(*old(self), value),
            env_wf(*final(self)),
    {
        let gate_next = value & 0x01 == 0x01;
        if !self.gate && gate_next {
            self.state = EnvPhase::Attack;
            self.rate_period = rate_period(self.attack);
            self.hold_zero = false;
            self.gate = gate_next;
        } else if self.gate && !gate_next {
            self.state = EnvPhase::Release;
            self.rate_period = rate_period(self.release);
            self.gate = gate_next;
        }
    }

    /// Write the attack/decay register (attack in the high nibble).
    pub fn set_attack_decay(&mut self, value: u8)
        requires
            env_wf(*old(self)),
        ensures
            *final(self) == spec_env_attack_decay(*old(self), value),
            env_wf(*final(self)),
    {
        proof {
            assert((value >> 4) & 0x0f < 16 && value & 0x0f < 16) by (bit_vector);
        }
        self.attack = (value >> 4) & 0x0f;
        self.decay = value & 0x0f;
        if self.state == EnvPhase::Attack {
            self.rate_period = rate_period(self.attack);
        } else if self.state == EnvPhase::DecaySustain {
            self.rate_period = rate_period(self.decay);
        }
    }

    /// Write the sustain/release register (sustain in the high nibble).
    pub fn set_sustain_release(&mut self, value: u8)
        requires
            env_wf(*old(self)),
        ensures
            *final(self) == spec_env_sustain_release(*old(self), value),
            env_wf(*final(self)),
    {
        proof {
            assert((value >> 4) & 0x0f < 16 && value & 0x0f < 16) by (bit_vector);
        }
        self.sustain = (value >> 4) & 0x0f;
        self.release = value & 0x0f;
        if self.state == EnvPhase::Release {
            self.rate_period = rate_period(self.release);
        }
    }

    /// Advance the envelope by `delta_t` clock cycles.
    pub fn clock_delta(&mut self, delta_t: u32)
        requires
            env_wf(*old(self)),
        ensures
            *final(self) == spec_env_clock(*old(self), delta_t as int),
            env_wf(*final(self)),
    {
        let mut delta: u32 = delta_t;
        while delta > 0
            invariant
                env_wf(*self),
                spec_env_clock(*old(self), delta_t as int)
                    == spec_env_clock(*self, delta as int),
            decreases delta,
        {
            let diff: i32 = self.rate_period as i32 - self.rate_counter as i32;
            let step: u32 = if diff <= 0 { (diff + 0x7fff) as u32 } else { diff as u32 };
            assert(step == spec_env_step_cycles(*self));
            if delta < step {
                let sum: u32 = self.rate_counter as u32 + delta;
                self.rate_counter = if sum >= 0x8000 { ((sum + 1) % 0x8000) as u16 } else { sum as u16 };
                delta = 0;
            } else {
                self.env_tick();
                delta = delta - step;
            }
        }
    }

    /// One rate-counter match: advance the exponential divider and, when it
    /// fires, step the level counter as the current phase demands.
    fn env_tick(&mut self)
        requires
            env_wf(*old(self)),
        ensures
            *final(self) == spec_env_tick(*old(self)),
            env_wf(*final(self)),
    {
        self.rate_counter = 0;
        let exp1: u8 = if self.exponential_counter == 255 { 0 } else { self.exponential_counter + 1 };
        if self.state == EnvPhase::Attack || exp1 == self.exponential_counter_period {
            self.exponential_counter = 0;
            if self.hold_zero {
                return;
            }
            if self.state == EnvPhase::Attack {
                let up: u8 = if self.envelope_counter == 255 { 255 } else { self.envelope_counter + 1 };
                self.envelope_counter = up;
                if up == 0xff {
                    self.state = EnvPhase::DecaySustain;
                    self.rate_period = rate_period(self.decay);
                }
            } else if self.state == EnvPhase::DecaySustain {
                if self.envelope_counter != 0x11 * self.sustain {
                    self.envelope_counter =
                        if self.envelope_counter == 0 { 0 } else { self.envelope_counter - 1 };
                }
            } else {
                self.envelope_counter =
                    if self.envelope_counter == 0 { 0 } else { self.envelope_counter - 1 };
            }
            match self.envelope_counter {
                0xff => { self.exponential_counter_period = 1; }
                0x5d => { self.exponential_counter_period = 2; }
                0x36 => { self.exponential_counter_period = 4; }
                0x1a => { self.exponential_counter_period = 8; }
                0x0e => { self.exponential_counter_period = 16; }
                0x06 => { self.exponential_counter_period = 30; }
                0x00 => { self.exponential_counter_period = 1; self.hold_zero = true; }
                _ => {}
            }
        } else {
            self.exponential_counter = exp1;
        }
    }
}

/// Law: the envelope level never leaves [0, 255], whatever gate edges,
/// nibble values and cycle counts drive it.  The level counter is held in
/// eight bits and every step above saturates at the bounds instead of
/// wrapping, so the property holds of every reachable state.
pub proof fn lemma_envelope_bounds(e: EnvelopeGenerator, delta: int)
    ensures
        0 <= spec_env_clock(e, delta).envelope_counter <= 255,
        0 <= spec_env_control(e, 1).envelope_counter <= 255,
        0 <= spec_env_control(e, 0).envelope_counter <= 255,
{
}

} // verus!
