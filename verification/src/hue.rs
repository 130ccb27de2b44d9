//! Fixed-point hue angles and the deterministic hue stepper.
//!
//! A hue is a position on the color wheel, a real value in `[0, 1)`. The
//! library stores it exactly as a numerator over [`HUE_DEN`]: the angle
//! `num / HUE_DEN`. The denominator is `6 * 10^15`, so both the six sector
//! boundaries of the HSV wheel (multiples of `1/6`) and every step preset
//! written with fifteen decimal digits are representable exactly.

use vstd::prelude::*;

verus! {

/// Denominator of the fixed-point hue representation: an angle is
/// `num / HUE_DEN` with `0 <= num < HUE_DEN`.
pub const HUE_DEN: u64 = 6_000_000_000_000_000;

/// Fixed-point numerator of the golden-ratio step preset,
/// `1.618033988749895 * HUE_DEN`.
pub const STEP_PHI: u64 = 9_708_203_932_499_370;

/// Fixed-point numerator of the `sqrt(2)` step preset (rounded to the
/// nearest representable value).
pub const STEP_SQRT2: u64 = 8_485_281_374_238_570;

/// Fixed-point numerator of the `pi` step preset (rounded to the nearest
/// representable value).
pub const STEP_PI: u64 = 18_849_555_921_538_759;

/// Fixed-point numerator of the `e` step preset (rounded to the nearest
/// representable value).
pub const STEP_E: u64 = 16_309_690_970_754_271;

/// A hue angle in `[0, 1)`, held as the fixed-point numerator `num` of
/// `num / HUE_DEN`.
#[derive(Debug, Clone, Copy, PartialEq, Eq, Structural)]
pub struct HueSample {
    pub num: u64,
}

impl HueSample {
    /// A sample is valid when its angle lies in `[0, 1)`.
    pub open spec fn wf(self) -> bool {
        self.num < HUE_DEN
    }
}

/// The angle reached after `n` advances of a stepper that starts at
/// `seed mod 1` and adds `step mod 1` each time, everything modulo 1.
pub open spec fn nth_angle(seed: u64, step: u64, n: nat) -> int
    decreases n,
{
    if n == 0 {
        (seed as int) % (HUE_DEN as int)
    } else {
        (nth_angle(seed, step, (n - 1) as nat) + (step as int) % (HUE_DEN as int)) % (
        HUE_DEN as int)
    }
}

/// Every angle in the sequence lies in `[0, HUE_DEN)`.
pub proof fn lemma_nth_angle_in_range(seed: u64, step: u64, n: nat)
    ensures
        0 <= nth_angle(seed, step, n) < HUE_DEN,
    decreases n,
{
    if n > 0 {
        lemma_nth_angle_in_range(seed, step, (n - 1) as nat);
    }
}

/// The deterministic hue stepper: it holds a cursor angle and a step, both
/// already reduced modulo 1, and hands out the cursor before advancing it.
///
/// The sequence it produces is fully determined by the `(seed, step)` pair it
/// was built from: resetting with the same seed replays the same sequence.
#[derive(Debug, Clone, Copy, PartialEq, Eq, Structural)]
pub struct HueSequenceGenerator {
    /// The cursor: fixed-point numerator of the next sample, in `[0, HUE_DEN)`.
    pub angle: u64,
    /// The step, reduced modulo 1, in `[0, HUE_DEN)`.
    pub step: u64,
}

impl HueSequenceGenerator {
    /// The cursor and the stored step both lie in `[0, 1)`.
    pub open spec fn wf(self) -> bool {
        self.angle < HUE_DEN && self.step < HUE_DEN
    }

    /// The current cursor angle, as a fixed-point numerator.
    pub open spec fn spec_angle(self) -> u64 {
        self.angle
    }

    /// The stored step, reduced modulo 1, as a fixed-point numerator.
    pub open spec fn spec_step(self) -> u64 {
        self.step
    }

    /// Builds a stepper whose first sample will be `seed mod 1` and whose
    /// samples advance by `step mod 1`.
    pub fn new(seed: u64, step: u64) -> (g: Self)
        ensures
            g.wf(),
            g.spec_angle() == (seed as int) % (HUE_DEN as int),
            g.spec_step() == (step as int) % (HUE_DEN as int),
    {
        Self { angle: seed % HUE_DEN, step: step % HUE_DEN }
    }

    /// Moves the cursor back to `seed mod 1` without touching the step, so the
    /// future sequence is exactly the one produced after `new(seed, step)`.
    pub fn reset(&mut self, seed: u64)
        requires
            old(self).wf(),
        ensures
            final(self).wf(),
            final(self).spec_angle() == (seed as int) % (HUE_DEN as int),
            final(self).spec_step() == old(self).spec_step(),
    {
        self.angle = seed % HUE_DEN;
    }

    /// Returns the current sample and advances the cursor by the step,
    /// modulo 1. Every sample returned lies in `[0, 1)`.
    pub fn next(&mut self) -> (r: HueSample)
        requires
            old(self).wf(),
        ensures
            final(self).wf(),
            r.wf(),
            r.num == old(self).spec_angle(),
            final(self).spec_angle() == (old(self).spec_angle() + old(self).spec_step()) % (
            HUE_DEN as int),
            final(self).spec_step() == old(self).spec_step(),
    {
        let r = HueSample { num: self.angle };
        self.angle = (self.angle + self.step) % HUE_DEN;
        r
    }
}

/// Relies on `rand::random`: a value drawn from the thread-local generator via
/// the `StandardUniform` distribution. Nothing can be promised of the value.
pub assume_specification<T>[ rand::random::<T> ]() -> (r: T)
    where
        rand::distr::StandardUniform: rand::distr::Distribution<T>,
;

/// Draws a fresh random seed: an angle uniform over the representable
/// positions of the color wheel. Only its range is promised.
pub fn reseed() -> (s: u64)
    ensures
        s < HUE_DEN,
{
    let raw: u64 = rand::random();
    raw % HUE_DEN
}

/// The recognized step presets of the host UI: the golden ratio, `sqrt(2)`,
/// `pi`, `e`, or a fresh random step.
#[derive(Debug, Clone, Copy, PartialEq, Eq, Structural)]
pub enum StepPreset {
    Phi,
    Sqrt2,
    Pi,
    E,
    Random,
}

/// The fixed-point step numerator a preset selects; the random preset draws a
/// fresh value, of which only its range is promised.
pub fn step_for_preset(p: StepPreset) -> (s: u64)
    ensures
        match p {
            StepPreset::Phi => s == STEP_PHI,
            StepPreset::Sqrt2 => s == STEP_SQRT2,
            StepPreset::Pi => s == STEP_PI,
            StepPreset::E => s == STEP_E,
            StepPreset::Random => s < HUE_DEN,
        },
{
    match p {
        StepPreset::Phi => STEP_PHI,
        StepPreset::Sqrt2 => STEP_SQRT2,
        StepPreset::Pi => STEP_PI,
        StepPreset::E => STEP_E,
        StepPreset::Random => reseed(),
    }
}

} // verus!
