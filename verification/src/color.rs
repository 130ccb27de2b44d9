//! The hue-to-RGB color model: full-saturation, full-value HSV.
//!
//! The hue circle is split into six sectors. Within a sector two channels are
//! pinned to 0 or 255 and the third interpolates linearly; the interpolated
//! channel is quantized by truncation (never rounding), exactly mirroring the
//! classic floating-point formula `x = trunc((1 - |h' mod 2 - 1|) * 255)` with
//! `h' = 6 * angle`, carried out here in exact fixed-point arithmetic.

use vstd::prelude::*;

use crate::error::RenderError;
use crate::hue::{HueSample, HUE_DEN};

verus! {

/// An 8-bit RGB triple at full saturation and value.
#[derive(Debug, Clone, Copy, PartialEq, Eq, Structural)]
pub struct RGBColor {
    pub r: u8,
    pub g: u8,
    pub b: u8,
}

/// The sector of the hue circle that the angle `num / HUE_DEN` falls in:
/// `floor(6 * angle)`, which is `0..=5` for angles in `[0, 1)`.
pub open spec fn spec_sector(num: int) -> int {
    6 * num / (HUE_DEN as int)
}

/// The interpolated channel for the angle `num / HUE_DEN`:
/// `trunc((1 - |(6 * angle) mod 2 - 1|) * 255)` in fixed point.
pub open spec fn spec_x(num: int) -> int {
    let m = (6 * num) % (2 * (HUE_DEN as int));
    let d = if m >= HUE_DEN {
        m - HUE_DEN
    } else {
        HUE_DEN - m
    };
    (HUE_DEN - d) * 255 / (HUE_DEN as int)
}

/// The `(r, g, b)` triple for the angle `num / HUE_DEN`: two channels pinned
/// by the sector, the third interpolated.
pub open spec fn spec_rgb(num: int) -> (int, int, int) {
    let s = spec_sector(num);
    let x = spec_x(num);
    if s == 0 {
        (255, x, 0)
    } else if s == 1 {
        (x, 255, 0)
    } else if s == 2 {
        (0, 255, x)
    } else if s == 3 {
        (0, x, 255)
    } else if s == 4 {
        (x, 0, 255)
    } else {
        (255, 0, x)
    }
}

/// The hue-to-RGB converter of the pipeline.
pub struct HueToRGBConverter;

impl HueToRGBConverter {
    /// Maps a hue angle in `[0, 1)` to its full-saturation RGB triple.
    pub fn convert(angle: HueSample) -> (c: RGBColor)
        requires
            angle.wf(),
        ensures
            (c.r as int, c.g as int, c.b as int) == spec_rgb(angle.num as int),
    {
        let t: u64 = 6 * angle.num;
        let sector: u64 = t / HUE_DEN;
        let m: u64 = t % (2 * HUE_DEN);
        let d: u64 = if m >= HUE_DEN {
            m - HUE_DEN
        } else {
            HUE_DEN - m
        };
        let x64: u64 = (HUE_DEN - d) * 255 / HUE_DEN;
        let x: u8 = x64 as u8;
        if sector == 0 {
            RGBColor { r: 255, g: x, b: 0 }
        } else if sector == 1 {
            RGBColor { r: x, g: 255, b: 0 }
        } else if sector == 2 {
            RGBColor { r: 0, g: 255, b: x }
        } else if sector == 3 {
            RGBColor { r: 0, g: x, b: 255 }
        } else if sector == 4 {
            RGBColor { r: x, g: 0, b: 255 }
        } else {
            assert(sector == 5);
            RGBColor { r: 255, g: 0, b: x }
        }
    }

    /// The checked boundary of the converter: an angle at or beyond 1 would
    /// land in sector 6, which only an upstream contract breach can produce,
    /// so it is rejected as `InternalInvariantViolation` instead of being
    /// silently wrapped.
    pub fn convert_checked(angle: HueSample) -> (r: Result<RGBColor, RenderError>)
        ensures
            match r {
                Ok(c) => angle.wf() && (c.r as int, c.g as int, c.b as int) == spec_rgb(
                    angle.num as int,
                ),
                Err(e) => !angle.wf() && e == (RenderError::InternalInvariantViolation {
                    angle: angle.num,
                }),
            },
    {
        if angle.num >= HUE_DEN {
            return Err(RenderError::InternalInvariantViolation { angle: angle.num });
        }
        Ok(Self::convert(angle))
    }
}

} // verus!
