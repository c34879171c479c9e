use car_gst_plugins::dcolorizer::DColorizer;
use car_gst_plugins::dcolorizer::TransformOp;
use car_gst_plugins::dcolorizer::VideoFormat;
use car_gst_plugins::dcolorizer::Settings;
use car_gst_plugins::dcolorizer::color_ramp;
use car_gst_plugins::dcolorizer::colorize_pixel;
use car_gst_plugins::dcolorizer::decolorize_pixel;
use car_gst_plugins::dcolorizer::depth_for_dnormal;
use car_gst_plugins::dcolorizer::dnormal_of_color;
use car_gst_plugins::dcolorizer::dnormal_of_sample;
use car_gst_plugins::dcolorizer::transform_op;
use car_gst_plugins::dcolorizer::unit_size;

#[test]
fn ramp_segment_boundaries_exact() {
    // The documented piecewise formula at every segment boundary,
    // wraparound included.
    let expected: [(u16, (u8, u8, u8)); 12] = [
        (0, (255, 0, 0)),
        (255, (255, 255, 0)),
        (256, (255, 255, 0)),
        (510, (1, 255, 0)),
        (511, (0, 254, 0)),
        (765, (0, 0, 0)),
        (766, (0, 0, 1)),
        (1020, (0, 0, 255)),
        (1021, (1, 0, 255)),
        (1275, (255, 0, 255)),
        (1276, (255, 0, 253)),
        (1529, (255, 0, 0)),
    ];
    for (n, rgb) in expected {
        assert_eq!(color_ramp(n), rgb, "at ramp position {}", n);
    }
}

#[test]
fn ramp_masks_by_wraparound_not_clamp() {
    // At position 256 the raw red value is 255 - 256 = -1. The 8-bit mask
    // wraps it to 255; a saturating clamp would have produced 0.
    let (r, _, _) = color_ramp(256);
    assert_eq!(r, 255);
    assert_ne!(r, 0);
    // And across the descending limb the masked value is 511 - n.
    assert_eq!(color_ramp(300).0, 211);
    assert_eq!(color_ramp(510).0, 1);
}

#[test]
fn depth_zero_is_max_disparity() {
    // Depth 0 saturates to the maximum disparity: ramp position 1529,
    // the same color as the nearest clamped depth.
    let n0 = dnormal_of_sample(0, 0, false, 1, 65535);
    assert_eq!(n0, 1529);
    let n_min = dnormal_of_sample(1, 0, false, 1, 65535);
    assert_eq!(n0, n_min);
    assert_eq!(colorize_pixel(0, 0, false, 1, 65535), (255, 0, 0));
}

#[test]
fn dnormal_exact_values() {
    // depth 500 in window [100, 1000]:
    // 1529 * 100 * (1000 - 500) / (500 * 900) = 169 (truncated).
    let le = 500u16.to_le_bytes();
    assert_eq!(dnormal_of_sample(le[0], le[1], false, 100, 1000), 169);
    // Out-of-window samples saturate.
    let low = 7u16.to_le_bytes();
    assert_eq!(dnormal_of_sample(low[0], low[1], false, 100, 1000), 1529);
    let high = 60000u16.to_le_bytes();
    assert_eq!(dnormal_of_sample(high[0], high[1], false, 100, 1000), 0);
    // Byte order of the input.
    assert_eq!(
        dnormal_of_sample(0x01, 0x02, true, 1, 65535),
        dnormal_of_sample(0x02, 0x01, false, 1, 65535),
    );
}

#[test]
fn depth_for_dnormal_hits_window_ends() {
    // Position 0 is the far end of the window, 1529 the near end.
    assert_eq!(depth_for_dnormal(0, 1, 1000), 1000);
    assert_eq!(depth_for_dnormal(1529, 7, 1000), 7);
    assert_eq!(depth_for_dnormal(0, 1, 65535), 65535);
    assert_eq!(depth_for_dnormal(1529, 1, 65535), 1);
}

#[test]
fn decolorize_inverse_heuristic() {
    // Dim colors (channel sum below 255) decode to position 0.
    assert_eq!(dnormal_of_color(0, 120, 0), 0);
    assert_eq!(dnormal_of_color(84, 85, 85), 0);
    // Bright limbs invert by dominant channel, red first on ties.
    assert_eq!(dnormal_of_color(255, 100, 0), 100);
    assert_eq!(dnormal_of_color(177, 255, 0), 333);
    assert_eq!(dnormal_of_color(1, 0, 255), 1021);
    assert_eq!(dnormal_of_color(255, 0, 253), 1276);
}

#[test]
fn pixel_roundtrip_within_one_step() {
    // Depth 500 in window [100, 1000] sits on the first (monotonic) limb:
    // colorize then decolorize lands one normalization step away.
    let le = 500u16.to_le_bytes();
    let (r, g, b) = colorize_pixel(le[0], le[1], false, 100, 1000);
    assert_eq!((r, g, b), (255, 169, 0));
    let back = decolorize_pixel(r, g, b, false, 100, 1000);
    assert_eq!(u16::from_le_bytes([back.0, back.1]), 501);

    // Depth 337 sits on the second limb, where the inverse is off by one
    // ramp step, which happens to return the very same depth.
    let le = 337u16.to_le_bytes();
    let (r, g, b) = colorize_pixel(le[0], le[1], false, 100, 1000);
    assert_eq!((r, g, b), (177, 255, 0));
    let back = decolorize_pixel(r, g, b, false, 100, 1000);
    assert_eq!(u16::from_le_bytes([back.0, back.1]), 337);
}

#[test]
fn colorize_buffer_both_endians() {
    let codec = DColorizer::new(0, 1, 65535).unwrap();
    // Two pixels: depth 0x0102 = 258 (ramp position 5) and depth 0.
    let from_le: Vec<u8> = vec![0x02, 0x01, 0x00, 0x00];
    let mut to = vec![0u8; 6];
    codec.colorize(2, 1, &from_le, &mut to, false);
    assert_eq!(to, vec![255, 5, 0, 255, 0, 0]);

    let from_be: Vec<u8> = vec![0x01, 0x02, 0x00, 0x00];
    let mut to_be = vec![0u8; 6];
    codec.colorize(2, 1, &from_be, &mut to_be, true);
    assert_eq!(to_be, to);
}

#[test]
fn decolorize_buffer_encodes_declared_byte_order() {
    let codec = DColorizer::new(0, 100, 1000).unwrap();
    // One pixel on the second limb: decodes to depth 337 = 0x0151.
    let from: Vec<u8> = vec![177, 255, 0];
    let mut to_le = vec![0u8; 2];
    codec.decolorize(1, 1, &from, &mut to_le, false);
    assert_eq!(to_le, vec![0x51, 0x01]);
    let mut to_be = vec![0u8; 2];
    codec.decolorize(1, 1, &from, &mut to_be, true);
    assert_eq!(to_be, vec![0x01, 0x51]);
}

#[test]
fn every_pixel_is_transformed() {
    // 3 x 2 pixels, all depth 0: exactly width * height output pixels,
    // each (255, 0, 0).
    let codec = DColorizer::new(0, 1, 65535).unwrap();
    let from = vec![0u8; 12];
    let mut to = vec![1u8; 18];
    codec.colorize(3, 2, &from, &mut to, false);
    assert_eq!(to.len(), 18);
    for i in 0..6 {
        assert_eq!(&to[3 * i..3 * i + 3], &[255, 0, 0]);
    }
}

#[test]
fn truncated_buffer_is_rejected() {
    let codec = DColorizer::new(0, 1, 65535).unwrap();
    // Input one byte short of 2 pixels: rejected, output untouched.
    let from = vec![0u8; 3];
    let mut to = vec![7u8; 6];
    assert!(!codec.colorize_checked(2, 1, &from, &mut to, false));
    assert_eq!(to, vec![7u8; 6]);
    // Output of the wrong length: rejected too.
    let from = vec![0u8; 4];
    let mut to_short = vec![7u8; 5];
    assert!(!codec.colorize_checked(2, 1, &from, &mut to_short, false));
    assert_eq!(to_short, vec![7u8; 5]);
    // Matching lengths pass.
    let mut to_ok = vec![0u8; 6];
    assert!(codec.colorize_checked(2, 1, &from, &mut to_ok, false));

    let rgb = vec![0u8; 6];
    let mut depth_short = vec![9u8; 3];
    assert!(!codec.decolorize_checked(2, 1, &rgb, &mut depth_short, false));
    assert_eq!(depth_short, vec![9u8; 3]);
    let mut depth_ok = vec![0u8; 4];
    assert!(codec.decolorize_checked(2, 1, &rgb, &mut depth_ok, false));
}

#[test]
fn bad_clamp_window_is_rejected() {
    assert!(DColorizer::new(0, 0, 1000).is_none());
    assert!(DColorizer::new(0, 200, 100).is_none());
    assert!(DColorizer::new(0, 100, 100).is_some());
    let codec = DColorizer::new_default();
    assert_eq!(codec.settings.min_depth, 1);
    assert_eq!(codec.settings.max_depth, 65535);
    assert_eq!(codec.settings.threads, 0);
    let s = Settings::default();
    assert_eq!(s.min_depth, 1);
    assert_eq!(s.max_depth, 65535);
}


#[test]
fn transform_direction_from_negotiated_formats() {
    assert_eq!(
        transform_op(VideoFormat::Gray16Le, VideoFormat::Rgb),
        Some(TransformOp::Colorize { big_endian: false }),
    );
    assert_eq!(
        transform_op(VideoFormat::Gray16Be, VideoFormat::Rgb),
        Some(TransformOp::Colorize { big_endian: true }),
    );
    assert_eq!(
        transform_op(VideoFormat::Rgb, VideoFormat::Gray16Le),
        Some(TransformOp::Decolorize { big_endian: false }),
    );
    assert_eq!(
        transform_op(VideoFormat::Rgb, VideoFormat::Gray16Be),
        Some(TransformOp::Decolorize { big_endian: true }),
    );
    assert_eq!(transform_op(VideoFormat::Rgb, VideoFormat::Rgb), None);
    assert_eq!(transform_op(VideoFormat::Gray16Le, VideoFormat::Gray16Be), None);
}

#[test]
fn unit_size_per_format() {
    assert_eq!(unit_size(VideoFormat::Rgb, 1920, 960), Some(1920 * 960 * 3));
    assert_eq!(unit_size(VideoFormat::Gray16Le, 640, 576), Some(640 * 576 * 2));
    assert_eq!(unit_size(VideoFormat::Gray16Be, 0, 5), Some(0));
    assert_eq!(unit_size(VideoFormat::Rgb, usize::MAX, 2), None);
}
