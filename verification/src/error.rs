//! The error surface of the render pipeline.

use vstd::prelude::*;

verus! {

/// A failure of one render call. Every failure is terminal for the call that
/// raised it and carries the offending value, so the host can report it and
/// recover by changing the input.
#[derive(Debug, Clone, Copy, PartialEq, Eq, Structural)]
pub enum RenderError {
    /// The requested swatch count is zero or exceeds the supported maximum.
    InvalidCount { count: usize },
    /// The encoded image would exceed the fixed buffer cap; `angle` is the
    /// fixed-point hue numerator of the swatch that overflowed.
    EncodingOverflow { angle: u64 },
    /// A hue angle outside `[0, 1)` reached the converter; `angle` is the
    /// offending fixed-point numerator.
    InternalInvariantViolation { angle: u64 },
}

} // verus!
