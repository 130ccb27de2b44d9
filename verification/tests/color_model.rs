use color_viewer::color::{HueToRGBConverter, RGBColor};
use color_viewer::error::RenderError;
use color_viewer::hue::{HueSample, HUE_DEN};

fn rgb(num: u64) -> (u8, u8, u8) {
    let c = HueToRGBConverter::convert(HueSample { num });
    (c.r, c.g, c.b)
}

#[test]
fn convert_zero_is_red() {
    assert_eq!(rgb(0), (255, 0, 0));
}

#[test]
fn convert_one_sixth_is_yellow() {
    // The sector boundary at 1/6: x = 255.
    assert_eq!(rgb(HUE_DEN / 6), (255, 255, 0));
}

#[test]
fn convert_half_is_cyan() {
    assert_eq!(rgb(HUE_DEN / 2), (0, 255, 255));
}

#[test]
fn convert_walks_all_six_sectors() {
    // One probe inside each sector; the two pinned channels identify it.
    assert_eq!(rgb(HUE_DEN / 12), (255, 127, 0));
    assert_eq!(rgb(HUE_DEN / 4), (127, 255, 0));
    assert_eq!(rgb(HUE_DEN * 5 / 12), (0, 255, 127));
    assert_eq!(rgb(HUE_DEN * 7 / 12), (0, 127, 255));
    assert_eq!(rgb(HUE_DEN * 3 / 4), (127, 0, 255));
    assert_eq!(rgb(HUE_DEN * 11 / 12), (255, 0, 127));
}

#[test]
fn convert_quantizes_by_truncation() {
    // Just below the 1/6 boundary the interpolated channel truncates to 254:
    // one tick under the boundary the exact value of
    // (1 - |6*angle mod 2 - 1|) * 255 is 254.99999999999974, which rounding
    // would lift to 255.
    let num = HUE_DEN / 6 - 1;
    assert_eq!(rgb(num), (255, 254, 0));
}

#[test]
fn convert_checked_accepts_valid_angles() {
    assert_eq!(
        HueToRGBConverter::convert_checked(HueSample { num: 0 }),
        Ok(RGBColor { r: 255, g: 0, b: 0 })
    );
}

#[test]
fn convert_checked_rejects_angle_at_or_beyond_one() {
    // Sector 6 would only arise from an angle >= 1: fail fast, never wrap.
    assert_eq!(
        HueToRGBConverter::convert_checked(HueSample { num: HUE_DEN }),
        Err(RenderError::InternalInvariantViolation { angle: HUE_DEN })
    );
    assert_eq!(
        HueToRGBConverter::convert_checked(HueSample { num: u64::MAX }),
        Err(RenderError::InternalInvariantViolation { angle: u64::MAX })
    );
}
