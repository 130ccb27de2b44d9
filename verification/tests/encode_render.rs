use color_viewer::color::{HueToRGBConverter, RGBColor};
use color_viewer::encode::{EncodedImage, SwatchFormat, SwatchImageEncoder, IMAGE_BUFFER_CAP};
use color_viewer::error::RenderError;
use color_viewer::hue::{HueSample, HUE_DEN, STEP_PHI};
use color_viewer::render::{render, SwatchRequest};

fn encode(color: (u8, u8, u8), num: u64) -> EncodedImage {
    SwatchImageEncoder::encode(
        RGBColor {
            r: color.0,
            g: color.1,
            b: color.2,
        },
        HueSample { num },
    )
    .unwrap()
}

/// Decodes an encoded swatch and checks it is a 256x256 raster uniformly
/// filled with (approximately, JPEG being lossy) the source color.
fn assert_round_trip(img: &EncodedImage, color: (u8, u8, u8)) {
    assert!(img.bytes.len() <= IMAGE_BUFFER_CAP);
    assert_eq!(img.format, SwatchFormat::Jpeg);
    let decoded = image::load_from_memory(&img.bytes).unwrap().to_rgb8();
    assert_eq!((decoded.width(), decoded.height()), (256, 256));
    let first = *decoded.get_pixel(0, 0);
    for p in decoded.pixels() {
        assert_eq!(*p, first, "decoded raster is not uniform");
    }
    let image::Rgb([r, g, b]) = first;
    assert!(
        r.abs_diff(color.0) <= 12 && g.abs_diff(color.1) <= 12 && b.abs_diff(color.2) <= 12,
        "decoded {:?} too far from {:?}",
        (r, g, b),
        color
    );
}

#[test]
fn encode_round_trips_primary_colors() {
    for color in [(255, 0, 0), (255, 255, 0), (0, 255, 255), (127, 0, 255)] {
        let img = encode(color, 0);
        assert_round_trip(&img, color);
    }
}

#[test]
fn encode_identifier_embeds_two_decimals() {
    assert_eq!(encode((255, 0, 0), 0).identifier, "bytes://texture_0.00.jpeg");
    // 0.618033988749895 rounds to 0.62.
    assert_eq!(
        encode((0, 0, 0), 3_708_203_932_499_370).identifier,
        "bytes://texture_0.62.jpeg"
    );
    // 0.995 and above rounds up to 1.00.
    assert_eq!(
        encode((0, 0, 0), HUE_DEN - 1).identifier,
        "bytes://texture_1.00.jpeg"
    );
    // Two distinct angles can share an identifier: a documented aliasing.
    assert_eq!(
        encode((0, 0, 0), HUE_DEN / 8).identifier,
        encode((0, 0, 0), HUE_DEN / 8 + 1_000_000_000_000).identifier
    );
}

#[test]
fn render_scenario_twenty_swatches() {
    // count=20, seed=0.0, step=1.618033988749895.
    let req = SwatchRequest {
        count: 20,
        seed: 0,
        step: STEP_PHI,
    };
    let images = render(&req).unwrap();
    assert_eq!(images.len(), 20);
    // First two hue samples are 0.0 and 0.618033988749895: red, then the
    // color at 0.618... (sector 3), and identifiers to two decimals.
    assert_eq!(images[0].identifier, "bytes://texture_0.00.jpeg");
    assert_eq!(images[1].identifier, "bytes://texture_0.62.jpeg");
    let red = encode((255, 0, 0), 0);
    assert_eq!(images[0].bytes, red.bytes);
    let c1 = HueToRGBConverter::convert(HueSample {
        num: 3_708_203_932_499_370,
    });
    let second = encode((c1.r, c1.g, c1.b), 3_708_203_932_499_370);
    assert_eq!(images[1].bytes, second.bytes);
    for img in &images {
        assert!(img.bytes.len() <= IMAGE_BUFFER_CAP);
    }
}

#[test]
fn render_is_deterministic() {
    let req = SwatchRequest {
        count: 12,
        seed: 2_500_000_000_000_000,
        step: STEP_PHI,
    };
    let first = render(&req).unwrap();
    let second = render(&req).unwrap();
    assert_eq!(first.len(), second.len());
    for (a, b) in first.iter().zip(second.iter()) {
        assert_eq!(a.bytes, b.bytes, "renders are not bit-identical");
        assert_eq!(a.identifier, b.identifier);
    }
}

#[test]
fn render_rejects_invalid_counts() {
    let mut req = SwatchRequest {
        count: 0,
        seed: 0,
        step: STEP_PHI,
    };
    assert!(matches!(
        render(&req),
        Err(RenderError::InvalidCount { count: 0 })
    ));
    req.count = 10_001;
    assert!(matches!(
        render(&req),
        Err(RenderError::InvalidCount { count: 10_001 })
    ));
}

#[test]
fn render_matches_the_walk_per_swatch() {
    let req = SwatchRequest {
        count: 5,
        seed: 1_000_000_000_000_000,
        step: STEP_PHI,
    };
    let images = render(&req).unwrap();
    let mut angle = req.seed % HUE_DEN;
    for img in &images {
        let c = HueToRGBConverter::convert(HueSample { num: angle });
        let expect = encode((c.r, c.g, c.b), angle);
        assert_eq!(img.bytes, expect.bytes);
        assert_eq!(img.identifier, expect.identifier);
        angle = (angle + req.step % HUE_DEN) % HUE_DEN;
    }
}
