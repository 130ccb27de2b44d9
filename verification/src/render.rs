//! The full render pipeline: a request in, an ordered sequence of encoded
//! swatch images out.
//!
//! Rendering is pure and deterministic: the output is a function of the
//! request alone, so two renders of identical `(count, seed, step)` produce
//! bit-identical byte sequences. Either all `count` images are produced or the
//! call fails as a whole with a typed error; no partial result is returned.

use vstd::prelude::*;

use crate::color::{spec_rgb, HueToRGBConverter};
use crate::encode::{
    jpeg_bytes, spec_identifier, EncodedImage, SwatchFormat, SwatchImageEncoder, IMAGE_BUFFER_CAP,
    SWATCH_DIM,
};
use crate::error::RenderError;
use crate::grid::MAX_SWATCH_COUNT;
use crate::hue::{nth_angle, reseed, HueSequenceGenerator, HUE_DEN, STEP_PHI};

verus! {

/// One render request: how many swatches, and the seed and step of the hue
/// walk, both as fixed-point numerators over [`HUE_DEN`] (reduced modulo 1 at
/// use, so any numerator is accepted).
#[derive(Debug, Clone, Copy, PartialEq, Eq, Structural)]
pub struct SwatchRequest {
    pub count: usize,
    pub seed: u64,
    pub step: u64,
}

impl SwatchRequest {
    /// A request is valid when its count is in `[1, MAX_SWATCH_COUNT]`.
    pub open spec fn valid(self) -> bool {
        1 <= self.count <= MAX_SWATCH_COUNT
    }
}

impl Default for SwatchRequest {
    /// The request the host starts from: twenty swatches, a fresh random
    /// seed, and the golden-ratio step.
    fn default() -> (r: Self)
        ensures
            r.count == 20,
            r.seed < HUE_DEN,
            r.step == STEP_PHI,
            r.valid(),
    {
        SwatchRequest { count: 20, seed: reseed(), step: STEP_PHI }
    }
}

/// The RGB triple of the `i`-th swatch of the walk from `(seed, step)`.
pub open spec fn spec_color_at(seed: u64, step: u64, i: nat) -> (int, int, int) {
    spec_rgb(nth_angle(seed, step, i))
}

/// The encoded bytes of the `i`-th swatch of the walk from `(seed, step)`.
pub open spec fn spec_swatch_bytes(seed: u64, step: u64, i: nat) -> Seq<u8> {
    let c = spec_color_at(seed, step, i);
    jpeg_bytes(SWATCH_DIM, SWATCH_DIM, c.0 as u8, c.1 as u8, c.2 as u8)
}

/// The identifier of the `i`-th swatch of the walk from `(seed, step)`.
pub open spec fn spec_identifier_at(seed: u64, step: u64, i: nat) -> Seq<char> {
    spec_identifier(nth_angle(seed, step, i))
}

/// Rendering is idempotent: any two image sequences that satisfy [`render`]'s
/// success contract for the same request are bit-identical, byte for byte and
/// identifier for identifier, because the contract pins every image to spec
/// functions of the request alone.
pub proof fn lemma_render_idempotent(
    req: SwatchRequest,
    first: Seq<EncodedImage>,
    second: Seq<EncodedImage>,
)
    requires
        first.len() == req.count,
        second.len() == req.count,
        forall|i: int|
            0 <= i < req.count ==> (#[trigger] first[i].bytes@ == spec_swatch_bytes(
                req.seed,
                req.step,
                i as nat,
            ) && first[i].identifier@ == spec_identifier_at(req.seed, req.step, i as nat)),
        forall|i: int|
            0 <= i < req.count ==> (#[trigger] second[i].bytes@ == spec_swatch_bytes(
                req.seed,
                req.step,
                i as nat,
            ) && second[i].identifier@ == spec_identifier_at(req.seed, req.step, i as nat)),
    ensures
        forall|i: int|
            0 <= i < req.count ==> (#[trigger] first[i].bytes@ == second[i].bytes@
                && first[i].identifier@ == second[i].identifier@),
{
}

/// Renders a request: exactly `count` encoded swatches, the `i`-th one the
/// JPEG of the color at the `i`-th angle of the hue walk, in walk order.
///
/// The output is pinned to the request alone, so identical requests render
/// identical byte sequences. Success is owed exactly when the count is valid
/// and every encoded swatch fits the 64 KiB cap; otherwise the one typed
/// failure names the offending count or angle.
pub fn render(req: &SwatchRequest) -> (r: Result<Vec<EncodedImage>, RenderError>)
    ensures
        match r {
            Ok(images) => req.valid() && images@.len() == req.count && forall|i: int|
                0 <= i < req.count ==> (#[trigger] images@[i].bytes@ == spec_swatch_bytes(
                    req.seed,
                    req.step,
                    i as nat,
                ) && images@[i].bytes@.len() <= IMAGE_BUFFER_CAP && images@[i].identifier@
                    == spec_identifier_at(req.seed, req.step, i as nat) && images@[i].format
                    == SwatchFormat::Jpeg),
            Err(e) => match e {
                RenderError::InvalidCount { count } => count == req.count && !req.valid(),
                RenderError::EncodingOverflow { angle } => req.valid() && exists|i: int|
                    0 <= i < req.count && angle == nth_angle(req.seed, req.step, i as nat)
                        && (#[trigger] spec_swatch_bytes(req.seed, req.step, i as nat)).len()
                        > IMAGE_BUFFER_CAP,
                RenderError::InternalInvariantViolation { .. } => false,
            },
        },
{
    if req.count == 0 || req.count > MAX_SWATCH_COUNT {
        return Err(RenderError::InvalidCount { count: req.count });
    }
    let mut stepper = HueSequenceGenerator::new(req.seed, req.step);
    let mut images: Vec<EncodedImage> = Vec::new();
    let mut i: usize = 0;
    while i < req.count
        invariant
            req.valid(),
            i <= req.count,
            stepper.wf(),
            stepper.spec_step() == (req.step as int) % (HUE_DEN as int),
            stepper.spec_angle() == nth_angle(req.seed, req.step, i as nat),
            images@.len() == i,
            forall|j: int|
                0 <= j < i ==> (#[trigger] images@[j].bytes@ == spec_swatch_bytes(
                    req.seed,
                    req.step,
                    j as nat,
                ) && images@[j].bytes@.len() <= IMAGE_BUFFER_CAP && images@[j].identifier@
                    == spec_identifier_at(req.seed, req.step, j as nat) && images@[j].format
                    == SwatchFormat::Jpeg),
        decreases req.count - i,
    {
        let sample = stepper.next();
        let color = HueToRGBConverter::convert(sample);
        match SwatchImageEncoder::encode(color, sample) {
            Ok(img) => {
                images.push(img);
            },
            Err(e) => {
                proof {
                    let wi: int = i as int;
                    assert(0 <= wi < req.count && e->EncodingOverflow_angle == nth_angle(
                        req.seed,
                        req.step,
                        wi as nat,
                    ) && spec_swatch_bytes(req.seed, req.step, wi as nat).len()
                        > IMAGE_BUFFER_CAP);
                    assert(exists|j: int|
                        0 <= j < req.count && e->EncodingOverflow_angle == nth_angle(
                            req.seed,
                            req.step,
                            j as nat,
                        ) && (#[trigger] spec_swatch_bytes(req.seed, req.step, j as nat)).len()
                            > IMAGE_BUFFER_CAP);
                }
                return Err(e);
            },
        }
        i = i + 1;
    }
    Ok(images)
}

} // verus!
