use ascii_player::converter::{ConversionConfig, FrameConverter, VideoFrame};

fn create_test_frame(width: u32, height: u32, r: u8, g: u8, b: u8) -> VideoFrame {
    let mut data = Vec::new();
    for _ in 0..(width * height) {
        data.extend_from_slice(&[r, g, b]);
    }
    VideoFrame { data, width, height, timestamp_ms: 0, frame_number: 1 }
}

#[test]
fn test_luminance_calculation() {
    let converter = FrameConverter::new(ConversionConfig::default());

    assert_eq!(converter.calculate_luminance(255, 255, 255), 255);

    assert_eq!(converter.calculate_luminance(0, 0, 0), 0);

    let red_luma = converter.calculate_luminance(255, 0, 0);
    assert!(red_luma < 255);
    assert!(red_luma > 0);
}

#[test]
fn test_char_index_mapping() {
    let converter = FrameConverter::new(ConversionConfig::default());

    assert_eq!(converter.luminance_to_char_index(0), 0);
    assert_eq!(
        converter.luminance_to_char_index(255),
        converter.config.ascii_chars.len() - 1
    );

    let mid_index = converter.luminance_to_char_index(128);
    assert!(mid_index < converter.config.ascii_chars.len());
}

#[test]
fn converter_test_frame_conversion() {
    let config = ConversionConfig::default();
    let converter = FrameConverter::new(config);

    let frame = create_test_frame(2, 2, 0, 0, 0);

    let ascii_frame = converter.convert_frame(&frame, 10, 10).unwrap();

    assert!(ascii_frame.width > 0);
    assert!(ascii_frame.height > 0);
    assert_eq!(
        ascii_frame.characters.len(),
        (ascii_frame.width as usize) * (ascii_frame.height as usize)
    );
    assert_eq!(ascii_frame.fg_colors.len(), ascii_frame.characters.len());
}

#[test]
fn test_aspect_ratio_calculation() {
    let converter = FrameConverter::new(ConversionConfig::default());

    let (w, h) = converter.calculate_target_dimensions(100, 100, 80, 20);
    assert!(w <= 80);
    assert!(h <= 20);

    let (w, h) = converter.calculate_target_dimensions(200, 100, 40, 40);
    assert!(w <= 40);
    assert!(h <= 40);
}

#[test]
fn test_target_dimensions_exact() {
    let converter = FrameConverter::new(ConversionConfig::default());

    // A square source into a wide terminal fits to height; the width
    // follows from undoing the 0.5 cell-aspect correction.
    assert_eq!(converter.calculate_target_dimensions(100, 100, 80, 20), (40, 20));

    // A 2:1 source into a square terminal fills it exactly under the
    // correction.
    assert_eq!(converter.calculate_target_dimensions(200, 100, 40, 40), (40, 40));

    // Degenerate one-cell terminals still get at least one cell.
    assert_eq!(converter.calculate_target_dimensions(100, 100, 1, 1), (1, 1));
}

#[test]
fn test_char_index_midpoint() {
    // With the ten-glyph default ramp, mid-gray rounds up to index 5.
    let converter = FrameConverter::new(ConversionConfig::default());
    assert_eq!(converter.luminance_to_char_index(128), 5);
}

#[test]
fn test_adjust_color_neutral() {
    // Neutral brightness and contrast change nothing.
    let converter = FrameConverter::new(ConversionConfig::default());
    assert_eq!(converter.adjust_color(0, 128, 255), (0, 128, 255));
}

#[test]
fn test_adjust_color_brightness() {
    // A +0.5 brightness offset adds 127.5 before clamping and
    // rounding: 100 becomes 228, and bright channels saturate.
    let mut config = ConversionConfig::default();
    config.brightness_milli = 500;
    let converter = FrameConverter::new(config);
    assert_eq!(converter.adjust_color(100, 100, 100), (228, 228, 228));
    assert_eq!(converter.adjust_color(200, 200, 200), (255, 255, 255));
}

#[test]
fn test_adjust_color_contrast() {
    // Double contrast spreads values around mid-gray 128.
    let mut config = ConversionConfig::default();
    config.contrast_milli = 2000;
    let converter = FrameConverter::new(config);
    assert_eq!(converter.adjust_color(128, 100, 160), (128, 72, 192));
    assert_eq!(converter.adjust_color(0, 255, 128), (0, 255, 128));
}

#[test]
fn test_transparent_blank_glyph() {
    // A uniform (50, 50, 50) pixel averages 50, below the threshold
    // of 128: the cell is blank and no backgrounds are produced.
    let config = ConversionConfig {
        transparent: true,
        alpha_threshold: Some(128),
        ..Default::default()
    };
    let converter = FrameConverter::new(config);
    let frame = create_test_frame(1, 1, 50, 50, 50);
    let ascii_frame = converter.convert_frame(&frame, 10, 10).unwrap();
    assert!(ascii_frame.bg_colors.is_none());
    assert!(ascii_frame.characters.iter().all(|&c| c == ' '));
}

#[test]
fn test_black_frame_darkest_glyph() {
    // Black maps to the darkest glyph of the ramp, with a black
    // quarter-intensity background under the colour palette.
    let converter = FrameConverter::new(ConversionConfig::default());
    let frame = create_test_frame(2, 2, 0, 0, 0);
    let ascii_frame = converter.convert_frame(&frame, 10, 10).unwrap();
    assert!(ascii_frame.characters.iter().all(|&c| c == ' '));
    assert!(ascii_frame.fg_colors.iter().all(|&c| c == (0, 0, 0)));
    let bg = ascii_frame.bg_colors.expect("opaque conversion keeps backgrounds");
    assert!(bg.iter().all(|&c| c == (0, 0, 0)));
}

#[test]
fn test_truncated_data_degrades_to_black() {
    // A frame that claims more pixels than its buffer holds degrades
    // to black cells instead of failing.
    let frame = VideoFrame {
        data: vec![255, 255, 255],
        width: 2,
        height: 2,
        timestamp_ms: 7,
        frame_number: 3,
    };
    let converter = FrameConverter::new(ConversionConfig::default());
    let ascii_frame = converter.convert_frame(&frame, 2, 2).unwrap();
    assert_eq!(ascii_frame.timestamp_ms, 7);
    assert_eq!(ascii_frame.frame_number, 3);
    // The out-of-range cells are black, hence blank under the ramp.
    assert!(ascii_frame.characters.iter().any(|&c| c == ' '));
}

#[test]
fn test_frame_to_ascii_defaults() {
    let frame = create_test_frame(2, 2, 255, 255, 255);
    let ramp: Vec<char> = vec![' ', '#'];
    let ascii_frame = ascii_player::converter::frame_to_ascii(&frame, 8, 8, &ramp);
    assert_eq!(
        ascii_frame.characters.len(),
        (ascii_frame.width as usize) * (ascii_frame.height as usize)
    );
    // White saturates to the brightest glyph of the given ramp.
    assert!(ascii_frame.characters.iter().all(|&c| c == '#'));
}

#[test]
fn test_luminance_weights() {
    // The three BT.709 weights, applied to a saturated channel each.
    let converter = FrameConverter::new(ConversionConfig::default());
    assert_eq!(converter.calculate_luminance(255, 0, 0), 54);
    assert_eq!(converter.calculate_luminance(0, 255, 0), 182);
    assert_eq!(converter.calculate_luminance(0, 0, 255), 18);
}
