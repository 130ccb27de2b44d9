//! The bounded swatch-image encoding pipeline.
//!
//! A swatch is a square raster of one solid color, serialized as JPEG into a
//! buffer capped at 64 KiB. The encoded artifact carries an identifier that
//! embeds the source angle at two decimal places, meant for the host to
//! deduplicate identical-looking images across frames (two distinct angles can
//! round to the same identifier; that aliasing is a documented property of the
//! two-decimal precision, not corrected here).

use vstd::prelude::*;
use vstd::string::*;

use crate::color::RGBColor;
use crate::error::RenderError;
use crate::hue::{HueSample, HUE_DEN};

verus! {

/// Side length of the square swatch raster.
pub const SWATCH_DIM: u32 = 256;

/// Cap on the encoded image size: 64 KiB.
pub const IMAGE_BUFFER_CAP: usize = 65536;

/// The fixed raster format a swatch is serialized in.
#[derive(Debug, Clone, Copy, PartialEq, Eq, Structural)]
pub enum SwatchFormat {
    Jpeg,
}

/// One encoded swatch: the compressed bytes (at most [`IMAGE_BUFFER_CAP`] of
/// them), the raster format, and the identifier derived from the source angle.
#[derive(Debug, Clone)]
pub struct EncodedImage {
    pub bytes: Vec<u8>,
    pub format: SwatchFormat,
    pub identifier: String,
}

/// The bytes that JPEG-encoding a `width` by `height` raster filled uniformly
/// with the color `(r, g, b)` produces. The encoder is a deterministic
/// function of the pixel data, so the result depends on these arguments alone.
pub uninterp spec fn jpeg_bytes(width: u32, height: u32, r: u8, g: u8, b: u8) -> Seq<u8>;

/// Relies on `image::ImageBuffer::from_pixel` (a raster uniformly filled with
/// one pixel value) and `image::ImageBuffer::write_to` with
/// `image::ImageFormat::Jpeg`: for RGB8 input with both dimensions in
/// `1..=65535` the JPEG encoder only fails through its writer, and a
/// `std::io::Cursor` over a fixed slice fails exactly when the encoded output
/// would not fit, so `None` comes back exactly when the encoding exceeds
/// `cap`. On success the cursor's position is the encoded length.
#[verifier::external_body]
fn write_swatch_jpeg(width: u32, height: u32, r: u8, g: u8, b: u8, cap: usize) -> (out: Option<
    Vec<u8>,
>)
    requires
        1 <= width <= 4096,
        1 <= height <= 4096,
    ensures
        match out {
            Some(v) => v@ == jpeg_bytes(width, height, r, g, b) && v@.len() <= cap,
            None => jpeg_bytes(width, height, r, g, b).len() > cap,
        },
{
    let mut buffer = vec![0u8; cap];
    let mut writer = std::io::Cursor::new(buffer.as_mut_slice());
    let raster = image::ImageBuffer::from_pixel(width, height, image::Rgb([r, g, b]));
    match raster.write_to(&mut writer, image::ImageFormat::Jpeg) {
        Ok(()) => {
            let len = writer.position() as usize;
            buffer.truncate(len);
            Some(buffer)
        },
        Err(_) => None,
    }
}

/// The angle `num / HUE_DEN` rounded to the nearest hundredth (half up),
/// as a whole number of hundredths in `0..=100`.
pub open spec fn spec_hundredths(num: int) -> int {
    (200 * num + HUE_DEN) / (2 * (HUE_DEN as int))
}

/// The decimal digit character for `d` in `0..=9`.
pub open spec fn digit_char(d: int) -> char {
    if d == 0 {
        '0'
    } else if d == 1 {
        '1'
    } else if d == 2 {
        '2'
    } else if d == 3 {
        '3'
    } else if d == 4 {
        '4'
    } else if d == 5 {
        '5'
    } else if d == 6 {
        '6'
    } else if d == 7 {
        '7'
    } else if d == 8 {
        '8'
    } else {
        '9'
    }
}

/// The identifier of the swatch at angle `num / HUE_DEN`: the angle at two
/// decimal places between a fixed prefix and suffix, as in
/// `bytes://texture_0.62.jpeg`.
pub open spec fn spec_identifier(num: int) -> Seq<char> {
    let h = spec_hundredths(num);
    "bytes://texture_"@ + seq![
        digit_char(h / 100),
        '.',
        digit_char(h / 10 % 10),
        digit_char(h % 10),
    ] + ".jpeg"@
}

/// Appends the decimal digit character for `d` to `s`.
fn push_digit(s: &mut String, d: u64)
    requires
        d < 10,
    ensures
        final(s)@ == old(s)@ + seq![digit_char(d as int)],
{
    if d == 0 {
        s.append("0");
        proof {
            reveal_strlit("0");
            assert("0"@ =~= seq![digit_char(0)]);
        }
    } else if d == 1 {
        s.append("1");
        proof {
            reveal_strlit("1");
            assert("1"@ =~= seq![digit_char(1)]);
        }
    } else if d == 2 {
        s.append("2");
        proof {
            reveal_strlit("2");
            assert("2"@ =~= seq![digit_char(2)]);
        }
    } else if d == 3 {
        s.append("3");
        proof {
            reveal_strlit("3");
            assert("3"@ =~= seq![digit_char(3)]);
        }
    } else if d == 4 {
        s.append("4");
        proof {
            reveal_strlit("4");
            assert("4"@ =~= seq![digit_char(4)]);
        }
    } else if d == 5 {
        s.append("5");
        proof {
            reveal_strlit("5");
            assert("5"@ =~= seq![digit_char(5)]);
        }
    } else if d == 6 {
        s.append("6");
        proof {
            reveal_strlit("6");
            assert("6"@ =~= seq![digit_char(6)]);
        }
    } else if d == 7 {
        s.append("7");
        proof {
            reveal_strlit("7");
            assert("7"@ =~= seq![digit_char(7)]);
        }
    } else if d == 8 {
        s.append("8");
        proof {
            reveal_strlit("8");
            assert("8"@ =~= seq![digit_char(8)]);
        }
    } else {
        s.append("9");
        proof {
            reveal_strlit("9");
            assert("9"@ =~= seq![digit_char(9)]);
        }
    }
}

/// Builds the identifier string for the swatch at angle `num / HUE_DEN`.
fn identifier_for(num: u64) -> (s: String)
    requires
        num < HUE_DEN,
    ensures
        s@ == spec_identifier(num as int),
{
    let h: u64 = (200 * num + HUE_DEN) / (2 * HUE_DEN);
    assert(h == spec_hundredths(num as int));
    assert(h <= 100);
    let mut s = String::from_str("bytes://texture_");
    push_digit(&mut s, h / 100);
    s.append(".");
    push_digit(&mut s, h / 10 % 10);
    push_digit(&mut s, h % 10);
    s.append(".jpeg");
    proof {
        reveal_strlit(".");
        assert("."@ =~= seq!['.']);
        assert(s@ =~= spec_identifier(num as int));
    }
    s
}

/// The swatch-image encoder of the pipeline.
pub struct SwatchImageEncoder;

impl SwatchImageEncoder {
    /// Encodes a square swatch of `color` as JPEG. Succeeds exactly when the
    /// encoding fits the 64 KiB cap, returning the encoded bytes and the
    /// identifier derived from `angle`; otherwise fails with
    /// `EncodingOverflow` rather than truncating silently.
    pub fn encode(color: RGBColor, angle: HueSample) -> (r: Result<EncodedImage, RenderError>)
        requires
            angle.wf(),
        ensures
            match r {
                Ok(img) => jpeg_bytes(SWATCH_DIM, SWATCH_DIM, color.r, color.g, color.b).len()
                    <= IMAGE_BUFFER_CAP && img.bytes@ == jpeg_bytes(
                    SWATCH_DIM,
                    SWATCH_DIM,
                    color.r,
                    color.g,
                    color.b,
                ) && img.bytes@.len() <= IMAGE_BUFFER_CAP && img.identifier@ == spec_identifier(
                    angle.num as int,
                ) && img.format == SwatchFormat::Jpeg,
                Err(e) => jpeg_bytes(SWATCH_DIM, SWATCH_DIM, color.r, color.g, color.b).len()
                    > IMAGE_BUFFER_CAP && e == (RenderError::EncodingOverflow {
                    angle: angle.num,
                }),
            },
    {
        match write_swatch_jpeg(SWATCH_DIM, SWATCH_DIM, color.r, color.g, color.b,
            IMAGE_BUFFER_CAP) {
            Some(bytes) => Ok(
                EncodedImage {
                    bytes,
                    format: SwatchFormat::Jpeg,
                    identifier: identifier_for(angle.num),
                },
            ),
            None => Err(RenderError::EncodingOverflow { angle: angle.num }),
        }
    }
}

} // verus!
