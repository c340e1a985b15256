//! Convenient re-exports of the player's main types and entry points.

pub use crate::converter::{
    frame_to_ascii, AsciiFrame, ConversionConfig, FrameConverter, VideoFrame,
};
pub use crate::options::{ColorPalette, PlayerOptions};
pub use crate::player::{
    ControlAction, InputEvent, PlaybackState, SessionEvent, SketchyBarIntegration,
};
pub use crate::renderer::{calculate_frame_delay, render_frame, PaintCmd, Renderer, TermColor};
pub use crate::utils::{clamp, format_duration, get_ascii_chars};
pub use crate::AsciiPlayerError;
