use ascii_player::converter::{AsciiFrame, ConversionConfig, FrameConverter, VideoFrame};
use ascii_player::options::{ColorPalette, PlayerOptions};
use ascii_player::renderer::{calculate_frame_delay, Renderer};
use ascii_player::utils::{clamp, format_duration, get_ascii_chars};
use ascii_player::AsciiPlayerError;

fn create_test_frame(width: u32, height: u32, r: u8, g: u8, b: u8) -> VideoFrame {
    let mut data = Vec::new();
    for _ in 0..(width * height) {
        data.extend_from_slice(&[r, g, b]);
    }
    VideoFrame { data, width, height, timestamp_ms: 0, frame_number: 1 }
}

fn default_options() -> PlayerOptions {
    PlayerOptions {
        loop_playback: false,
        speed_centi: 100,
        transparent: false,
        alpha_threshold: None,
        width: None,
        height: None,
        verbose: false,
        palette: ColorPalette::Color,
        fps_milli: None,
        start_ms: None,
        end_ms: None,
        info_only: false,
        single_frame: false,
    }
}

#[test]
fn test_format_duration() {
    assert_eq!(format_duration(0), "0:00");
    assert_eq!(format_duration(30), "0:30");
    assert_eq!(format_duration(90), "1:30");
    assert_eq!(format_duration(3661), "1:01:01");
}

#[test]
fn test_clamp() {
    assert_eq!(clamp(5, 0, 10), 5);
    assert_eq!(clamp(-1, 0, 10), 0);
    assert_eq!(clamp(15, 0, 10), 10);
    assert_eq!(clamp(10, 0, 10), 10);
}

#[test]
fn test_get_ascii_chars() {
    let ascii_chars = get_ascii_chars(&ColorPalette::Ascii);
    assert!(!ascii_chars.is_empty());
    assert!(ascii_chars.contains(&' '));

    let block_chars = get_ascii_chars(&ColorPalette::Color);
    assert!(!block_chars.is_empty());
}

#[test]
fn integration_tests_test_frame_conversion() {
    let config = ConversionConfig::default();
    let converter = FrameConverter::new(config);

    let frame = create_test_frame(2, 2, 128, 128, 128);

    let ascii_frame = converter.convert_frame(&frame, 10, 10).unwrap();

    assert!(ascii_frame.width > 0);
    assert!(ascii_frame.height > 0);
    assert_eq!(
        ascii_frame.characters.len(),
        (ascii_frame.width as usize) * (ascii_frame.height as usize)
    );
    assert_eq!(ascii_frame.fg_colors.len(), ascii_frame.characters.len());
    assert_eq!(ascii_frame.timestamp_ms, 0);
    assert_eq!(ascii_frame.frame_number, 1);
}

#[test]
fn test_black_and_white_conversion() {
    let config = ConversionConfig::default();
    let converter = FrameConverter::new(config);

    let black_frame = create_test_frame(1, 1, 0, 0, 0);
    let ascii_frame = converter.convert_frame(&black_frame, 10, 10).unwrap();

    assert!(!ascii_frame.characters.is_empty());

    let white_frame = create_test_frame(1, 1, 255, 255, 255);
    let ascii_frame = converter.convert_frame(&white_frame, 10, 10).unwrap();

    assert!(!ascii_frame.characters.is_empty());
}

#[test]
fn test_transparent_conversion() {
    let config = ConversionConfig {
        transparent: true,
        alpha_threshold: Some(128),
        ..Default::default()
    };
    let converter = FrameConverter::new(config);

    let frame = create_test_frame(1, 1, 50, 50, 50);
    let ascii_frame = converter.convert_frame(&frame, 10, 10).unwrap();

    assert!(!ascii_frame.characters.is_empty());
    assert!(ascii_frame.bg_colors.is_none());
}

#[test]
fn integration_tests_test_frame_delay_calculation() {
    let delay = calculate_frame_delay(30_000, 100);
    assert_eq!(delay, 33);

    let delay_2x = calculate_frame_delay(30_000, 200);
    assert_eq!(delay_2x, 16);

    let delay_half = calculate_frame_delay(30_000, 50);
    assert_eq!(delay_half, 66);
}

#[test]
fn integration_tests_test_renderer_creation() {
    let renderer = Renderer::new(false, true, 80, 24);
    assert!(renderer.uses_colors(), "Should be able to create color renderer");

    let renderer = Renderer::new(true, false, 80, 24);
    assert!(renderer.is_transparent(), "Should be able to create transparent mono renderer");
}

#[test]
fn test_renderer_properties() {
    let renderer = Renderer::new(true, false, 80, 24);
    assert!(renderer.is_transparent());
    assert!(!renderer.uses_colors());

    let renderer = Renderer::new(false, true, 80, 24);
    assert!(!renderer.is_transparent());
    assert!(renderer.uses_colors());
}

#[test]
fn test_validate_accepts_defaults() {
    assert!(default_options().validate().is_ok());
}

#[test]
fn test_validate_zero_speed() {
    let mut options = default_options();
    options.speed_centi = 0;
    assert_eq!(
        options.validate(),
        Err(AsciiPlayerError::InvalidConfig(
            "Speed factor must be greater than 0".to_string()
        ))
    );
}

#[test]
fn test_validate_zero_dimensions() {
    let mut options = default_options();
    options.width = Some(0);
    assert_eq!(
        options.validate(),
        Err(AsciiPlayerError::InvalidConfig(
            "Terminal width must be greater than 0".to_string()
        ))
    );

    let mut options = default_options();
    options.height = Some(0);
    assert_eq!(
        options.validate(),
        Err(AsciiPlayerError::InvalidConfig(
            "Terminal height must be greater than 0".to_string()
        ))
    );
}

#[test]
fn test_validate_zero_fps() {
    let mut options = default_options();
    options.fps_milli = Some(0);
    assert_eq!(
        options.validate(),
        Err(AsciiPlayerError::InvalidConfig("FPS must be greater than 0".to_string()))
    );
}

#[test]
fn test_validate_time_range() {
    let mut options = default_options();
    options.start_ms = Some(5_000);
    options.end_ms = Some(5_000);
    assert_eq!(
        options.validate(),
        Err(AsciiPlayerError::InvalidConfig(
            "Start time must be less than end time".to_string()
        ))
    );

    let mut options = default_options();
    options.start_ms = Some(1_000);
    options.end_ms = Some(5_000);
    assert!(options.validate().is_ok());
}

#[test]
fn test_effective_dimensions() {
    let mut options = default_options();
    assert_eq!(options.effective_dimensions(80, 24), (80, 24));
    options.width = Some(100);
    assert_eq!(options.effective_dimensions(80, 24), (100, 24));
    options.height = Some(50);
    assert_eq!(options.effective_dimensions(80, 24), (100, 50));
}

#[test]
fn test_use_color() {
    let mut options = default_options();
    assert!(options.use_color());
    options.palette = ColorPalette::Grayscale;
    assert!(options.use_color());
    options.palette = ColorPalette::Ascii;
    assert!(!options.use_color());
}

#[test]
fn test_ascii_frame_clone_keeps_cells() {
    let frame = AsciiFrame {
        characters: vec!['#', ' '],
        fg_colors: vec![(1, 2, 3), (4, 5, 6)],
        bg_colors: None,
        width: 2,
        height: 1,
        timestamp_ms: 5,
        frame_number: 9,
    };
    let copy = frame.clone();
    assert_eq!(copy.characters, frame.characters);
    assert_eq!(copy.fg_colors, frame.fg_colors);
    assert_eq!(copy.width, 2);
}
