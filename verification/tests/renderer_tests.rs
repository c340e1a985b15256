use ascii_player::converter::AsciiFrame;
use ascii_player::renderer::{calculate_frame_delay, PaintCmd, Renderer, TermColor};

fn create_test_frame() -> AsciiFrame {
    AsciiFrame {
        characters: vec!['#', ' ', '@', ' '],
        fg_colors: vec![(255, 0, 0), (0, 255, 0), (0, 0, 255), (255, 255, 255)],
        bg_colors: Some(vec![(0, 0, 0), (0, 0, 0), (0, 0, 0), (0, 0, 0)]),
        width: 2,
        height: 2,
        timestamp_ms: 1_000,
        frame_number: 42,
    }
}

#[test]
fn renderer_test_renderer_creation() {
    let renderer = Renderer::new(false, true, 80, 24);
    assert_eq!(renderer.dimensions(), (80, 24), "Should be able to create renderer");
}

#[test]
fn renderer_test_frame_delay_calculation() {
    let delay = calculate_frame_delay(30_000, 100);
    assert_eq!(delay, 33); // ~33ms for 30 FPS

    let delay_2x = calculate_frame_delay(30_000, 200);
    assert_eq!(delay_2x, 16); // ~16ms for 60 FPS (2x speed)
}

#[test]
fn test_transparent_mode() {
    let renderer = Renderer::new(true, true, 80, 24);
    assert!(renderer.is_transparent());

    let renderer = Renderer::new(false, true, 80, 24);
    assert!(!renderer.is_transparent());
}

#[test]
fn test_color_mode() {
    let renderer = Renderer::new(false, true, 80, 24);
    assert!(renderer.uses_colors());

    let renderer = Renderer::new(false, false, 80, 24);
    assert!(!renderer.uses_colors());
}

#[test]
fn test_update_dimensions() {
    let mut renderer = Renderer::new(false, true, 80, 24);
    assert_eq!(renderer.update_dimensions(100, 40), (100, 40));
    assert_eq!(renderer.dimensions(), (100, 40));
}

#[test]
fn test_init_and_cleanup_commands() {
    let renderer = Renderer::new(false, true, 80, 24);
    assert_eq!(
        renderer.init(),
        vec![PaintCmd::EnableRawMode, PaintCmd::HideCursor, PaintCmd::ClearAll]
    );
    assert_eq!(
        renderer.cleanup(),
        vec![
            PaintCmd::ShowCursor,
            PaintCmd::ResetColor,
            PaintCmd::ClearAll,
            PaintCmd::DisableRawMode,
        ]
    );
    assert_eq!(renderer.clear(), vec![PaintCmd::ClearAll]);
}

#[test]
fn test_render_frame_commands() {
    // One red-on-dark cell centred in a 3x3 terminal.
    let frame = AsciiFrame {
        characters: vec!['#'],
        fg_colors: vec![(255, 0, 0)],
        bg_colors: Some(vec![(10, 20, 30)]),
        width: 1,
        height: 1,
        timestamp_ms: 0,
        frame_number: 0,
    };
    let renderer = Renderer::new(false, true, 3, 3);
    let cmds = renderer.render_frame(&frame);
    assert_eq!(
        cmds,
        vec![
            PaintCmd::ClearAll,
            PaintCmd::MoveTo(1, 1),
            PaintCmd::SetFg(TermColor::Rgb(255, 0, 0)),
            PaintCmd::SetBg(TermColor::Rgb(10, 20, 30)),
            PaintCmd::Put('#'),
            PaintCmd::ResetColor,
        ]
    );
}

#[test]
fn test_render_transparent_skips_blanks() {
    let frame = AsciiFrame {
        characters: vec![' '],
        fg_colors: vec![(255, 255, 255)],
        bg_colors: None,
        width: 1,
        height: 1,
        timestamp_ms: 0,
        frame_number: 0,
    };
    let renderer = Renderer::new(true, true, 3, 3);
    let cmds = renderer.render_frame(&frame);
    // The cursor still moves, but nothing is painted for the blank.
    assert_eq!(cmds, vec![PaintCmd::ClearAll, PaintCmd::MoveTo(1, 1), PaintCmd::ResetColor]);
}

#[test]
fn test_render_without_colors() {
    let frame = AsciiFrame {
        characters: vec!['@'],
        fg_colors: vec![(1, 2, 3)],
        bg_colors: Some(vec![(4, 5, 6)]),
        width: 1,
        height: 1,
        timestamp_ms: 0,
        frame_number: 0,
    };
    let renderer = Renderer::new(false, false, 1, 1);
    let cmds = renderer.render_frame(&frame);
    assert_eq!(cmds, vec![PaintCmd::ClearAll, PaintCmd::MoveTo(0, 0), PaintCmd::Put('@')]);
}

#[test]
fn test_render_full_frame_cell_count() {
    let frame = create_test_frame();
    let renderer = Renderer::new(false, true, 80, 24);
    let cmds = renderer.render_frame(&frame);
    // Four cells, each with a move, colours, and a glyph, plus the
    // clear and the final reset.
    let moves = cmds.iter().filter(|c| matches!(c, PaintCmd::MoveTo(_, _))).count();
    let puts = cmds.iter().filter(|c| matches!(c, PaintCmd::Put(_))).count();
    assert_eq!(moves, 4);
    assert_eq!(puts, 4);
    assert_eq!(cmds.first(), Some(&PaintCmd::ClearAll));
    assert_eq!(cmds.last(), Some(&PaintCmd::ResetColor));
}

#[test]
fn test_status_line_truncated_to_width() {
    let frame = AsciiFrame {
        characters: vec!['#'],
        fg_colors: vec![(9, 9, 9)],
        bg_colors: None,
        width: 1,
        height: 1,
        timestamp_ms: 0,
        frame_number: 0,
    };
    let renderer = Renderer::new(true, false, 4, 3);
    let status: Vec<char> = "abcdefgh".chars().collect();
    let cmds = renderer.render_frame_with_status(&frame, &status);
    let frame_cmds = renderer.render_frame(&frame);
    assert_eq!(&cmds[..frame_cmds.len()], &frame_cmds[..]);
    assert_eq!(
        &cmds[frame_cmds.len()..],
        &[
            PaintCmd::MoveTo(0, 2),
            PaintCmd::Put('a'),
            PaintCmd::Put('b'),
            PaintCmd::Put('c'),
            PaintCmd::Put('d'),
        ]
    );
}

#[test]
fn test_empty_status_adds_nothing() {
    let frame = create_test_frame();
    let renderer = Renderer::new(false, true, 80, 24);
    let status: Vec<char> = Vec::new();
    assert_eq!(
        renderer.render_frame_with_status(&frame, &status),
        renderer.render_frame(&frame)
    );
}

#[test]
fn test_display_message_centres_lines() {
    let renderer = Renderer::new(false, false, 20, 6);
    let message: Vec<char> = "hi\nthere".chars().collect();
    let cmds = renderer.display_message(&message);
    assert_eq!(
        cmds,
        vec![
            PaintCmd::ClearAll,
            PaintCmd::MoveTo(9, 2),
            PaintCmd::Put('h'),
            PaintCmd::Put('i'),
            PaintCmd::MoveTo(8, 3),
            PaintCmd::Put('t'),
            PaintCmd::Put('h'),
            PaintCmd::Put('e'),
            PaintCmd::Put('r'),
            PaintCmd::Put('e'),
        ]
    );
}

#[test]
fn test_display_error_commands() {
    let renderer = Renderer::new(false, false, 20, 5);
    let error: Vec<char> = "boom".chars().collect();
    let cmds = renderer.display_error(&error);
    let expected_text = "ERROR: boom";
    assert_eq!(cmds[0], PaintCmd::ClearAll);
    assert_eq!(cmds[1], PaintCmd::MoveTo(8, 2));
    let glyphs: String = cmds[2..]
        .iter()
        .map(|c| match c {
            PaintCmd::Put(ch) => *ch,
            _ => panic!("unexpected command"),
        })
        .collect();
    assert_eq!(glyphs, expected_text);
}

#[test]
fn test_display_loading_spinner() {
    let renderer = Renderer::new(false, false, 20, 5);
    let message: Vec<char> = "Load".chars().collect();
    let cmds = renderer.display_loading(&message, 0);
    // The first spinner frame, a space, and the message on one line.
    assert_eq!(
        cmds,
        vec![
            PaintCmd::ClearAll,
            PaintCmd::MoveTo(7, 2),
            PaintCmd::Put('\u{280B}'),
            PaintCmd::Put(' '),
            PaintCmd::Put('L'),
            PaintCmd::Put('o'),
            PaintCmd::Put('a'),
            PaintCmd::Put('d'),
        ]
    );
    // A tenth of a second later the spinner has advanced.
    let later = renderer.display_loading(&message, 100);
    assert_eq!(later[2], PaintCmd::Put('\u{2819}'));
}

#[test]
fn test_standalone_render_frame() {
    let frame = create_test_frame();
    let cmds = ascii_player::renderer::render_frame(&frame, false, 80, 24);
    assert_eq!(cmds.first(), Some(&PaintCmd::EnableRawMode));
    assert_eq!(cmds.last(), Some(&PaintCmd::DisableRawMode));
}

#[test]
fn test_frame_delay_bounds() {
    // Very high rates floor to zero delay; very low rates grow large.
    assert_eq!(calculate_frame_delay(1_000_000, 400), 0);
    assert_eq!(calculate_frame_delay(1_000, 100), 1_000);
}

#[test]
fn test_set_centering() {
    let frame = AsciiFrame {
        characters: vec!['#'],
        fg_colors: vec![(1, 1, 1)],
        bg_colors: None,
        width: 1,
        height: 1,
        timestamp_ms: 0,
        frame_number: 0,
    };
    let mut renderer = Renderer::new(true, false, 5, 5);
    let centred = renderer.render_frame(&frame);
    assert_eq!(centred[1], PaintCmd::MoveTo(2, 2));
    renderer.set_centering(false);
    let top_left = renderer.render_frame(&frame);
    assert_eq!(top_left[1], PaintCmd::MoveTo(0, 0));
}
