use ascii_player::player::{
    format_status, reached_end_bound, ControlAction, InputEvent, PlaybackState, SessionEvent,
    SketchyBarIntegration,
};
use ascii_player::utils::split_lines;

fn input(ie: InputEvent) -> SessionEvent {
    SessionEvent::Input(ie)
}

#[test]
fn test_playback_state_default() {
    let state = PlaybackState::default();
    assert!(!state.paused);
    assert_eq!(state.speed_centi, 100);
    assert!(!state.loop_enabled);
    assert!(!state.quit_requested);
    assert!(!state.show_help);
}

#[test]
fn test_speed_bounds_many_events() {
    let mut state = PlaybackState::default();
    for _ in 0..50 {
        state.handle_event(input(InputEvent::SpeedUp));
        assert!(25 <= state.speed_centi && state.speed_centi <= 400);
    }
    assert_eq!(state.speed_centi, 400);
    for _ in 0..80 {
        state.handle_event(input(InputEvent::SpeedDown));
        assert!(25 <= state.speed_centi && state.speed_centi <= 400);
    }
    assert_eq!(state.speed_centi, 25);
}

#[test]
fn test_speed_steps() {
    let mut state = PlaybackState::default();
    state.handle_event(input(InputEvent::SpeedUp));
    assert_eq!(state.speed_centi, 125);
    state.handle_event(input(InputEvent::SpeedDown));
    assert_eq!(state.speed_centi, 100);
}

#[test]
fn test_quit_is_absorbing() {
    let mut state = PlaybackState::default();
    assert_eq!(state.handle_event(input(InputEvent::Quit)), ControlAction::Shutdown);
    assert!(state.quit_requested);
    // Once terminated, nothing changes and no second shutdown comes.
    assert_eq!(state.handle_event(input(InputEvent::Quit)), ControlAction::Idle);
    assert_eq!(state.handle_event(SessionEvent::StreamEnd), ControlAction::Idle);
    assert_eq!(state.handle_event(input(InputEvent::TogglePause)), ControlAction::Idle);
    assert!(!state.paused);
}

#[test]
fn test_pause_notifies() {
    let mut state = PlaybackState::default();
    assert_eq!(
        state.handle_event(input(InputEvent::TogglePause)),
        ControlAction::NotifyPaused
    );
    assert!(state.paused);
    assert_eq!(
        state.handle_event(input(InputEvent::TogglePause)),
        ControlAction::NotifyPlaying
    );
    assert!(!state.paused);
}

#[test]
fn test_loop_and_help_toggles() {
    let mut state = PlaybackState::default();
    state.handle_event(input(InputEvent::ToggleLoop));
    assert!(state.loop_enabled);
    state.handle_event(input(InputEvent::ToggleHelp));
    assert!(state.show_help);
    state.handle_event(input(InputEvent::ToggleHelp));
    assert!(!state.show_help);
}

#[test]
fn test_restart_and_resize_actions() {
    let mut state = PlaybackState::default();
    assert_eq!(state.handle_event(input(InputEvent::Restart)), ControlAction::ReopenSource);
    assert_eq!(
        state.handle_event(input(InputEvent::Resize(120, 40))),
        ControlAction::RefreshDimensions
    );
    assert_eq!(state.handle_event(input(InputEvent::Other)), ControlAction::Idle);
    assert!(!state.quit_requested);
}

#[test]
fn test_stream_end_with_loop_reopens() {
    let mut state = PlaybackState::default();
    state.handle_event(input(InputEvent::ToggleLoop));
    assert_eq!(state.handle_event(SessionEvent::StreamEnd), ControlAction::ReopenSource);
    assert!(!state.quit_requested);
}

#[test]
fn test_stream_end_without_loop_terminates() {
    let mut state = PlaybackState::default();
    assert_eq!(state.handle_event(SessionEvent::StreamEnd), ControlAction::Shutdown);
    assert!(state.quit_requested);
}

#[test]
fn test_stream_error_terminates() {
    let mut state = PlaybackState::default();
    assert_eq!(state.handle_event(SessionEvent::StreamError), ControlAction::Shutdown);
    assert!(state.quit_requested);
}

#[test]
fn test_reached_end_bound() {
    assert!(reached_end_bound(5_000, Some(5_000)));
    assert!(reached_end_bound(5_001, Some(5_000)));
    assert!(!reached_end_bound(4_999, Some(5_000)));
    assert!(!reached_end_bound(5_000, None));
}

#[test]
fn test_format_status() {
    let status = format_status("a.mp4", 5, 1_500, 10_000, 100, 30_000);
    assert_eq!(
        status,
        "a.mp4 | Frame: 5 | Time: 1.5s/10.0s (15.0%) | Speed: 1.00x | FPS: 30.0"
    );
}

#[test]
fn test_format_status_zero_duration() {
    let status = format_status("clip", 0, 2_000, 0, 250, 24_000);
    assert_eq!(
        status,
        "clip | Frame: 0 | Time: 2.0s/0.0s (0.0%) | Speed: 2.50x | FPS: 24.0"
    );
}

#[test]
fn test_sketchybar_labels() {
    let sb = SketchyBarIntegration::new("test_item".to_string());
    assert_eq!(sb.set_playing("test.mp4"), "\u{25B6} test.mp4");
    assert_eq!(sb.set_paused("test.mp4"), "\u{23F8} test.mp4");
    assert_eq!(sb.clear(), "");
}

#[test]
fn test_split_lines() {
    let text: Vec<char> = "a\nbc".chars().collect();
    assert_eq!(split_lines(&text), vec![vec!['a'], vec!['b', 'c']]);

    let trailing: Vec<char> = "a\n".chars().collect();
    assert_eq!(split_lines(&trailing), vec![vec!['a']]);

    let empty: Vec<char> = Vec::new();
    assert_eq!(split_lines(&empty), Vec::<Vec<char>>::new());

    let blanks: Vec<char> = "\n\n".chars().collect();
    assert_eq!(split_lines(&blanks), vec![Vec::<char>::new(), Vec::<char>::new()]);
}
