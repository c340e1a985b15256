//! Plays a video as a live ASCII animation in a terminal.
//!
//! The library holds the verified core of the player: the numeric
//! colour and luminance transforms, the frame-to-character-grid
//! converter, the renderer that turns a character grid into a list of
//! terminal paint commands, and the playback control state machine.
//! Terminal and video I/O live outside the library and exchange plain
//! values with it.
//!
//! Fractional quantities (playback speed, brightness, contrast, the
//! cell aspect-ratio correction, frame rates, timestamps) are carried
//! as scaled integers: speed in hundredths, brightness and contrast in
//! thousandths, frame rates in thousandths of a frame per second, and
//! timestamps in milliseconds.

use vstd::prelude::*;
use vstd::string::StringExecFns;

pub mod converter;
pub mod renderer;
pub mod options;
pub mod player;
pub mod prelude;
pub mod utils;

verus! {

/// Errors reported by the player's components.
///
/// Each variant carries a human-readable detail string supplied by the
/// caller at the failure site.
#[derive(Debug, Clone, PartialEq, Eq)]
pub enum AsciiPlayerError {
    /// The video could not be opened or decoded.
    VideoDecoding(String),
    /// The terminal rejected a control or paint operation.
    Terminal(String),
    /// An input or output operation failed.
    Io(String),
    /// A configuration value was rejected before playback started.
    InvalidConfig(String),
    /// The input file is not in a playable format.
    UnsupportedFormat(String),
}

impl AsciiPlayerError {
    /// The error rendered for the user: a category prefix and the
    /// detail the failure site supplied.
    pub fn message(&self) -> (r: String)
        ensures
            r@ == match *self {
                AsciiPlayerError::VideoDecoding(ref d) => "Video decoding error: "@ + d@,
                AsciiPlayerError::Terminal(ref d) => "Terminal error: "@ + d@,
                AsciiPlayerError::Io(ref d) => "IO error: "@ + d@,
                AsciiPlayerError::InvalidConfig(ref d) => "Invalid configuration: "@ + d@,
                AsciiPlayerError::UnsupportedFormat(ref d) => "Unsupported format: "@ + d@,
            },
    {
        let mut r = match self {
            AsciiPlayerError::VideoDecoding(_) => String::from_str("Video decoding error: "),
            AsciiPlayerError::Terminal(_) => String::from_str("Terminal error: "),
            AsciiPlayerError::Io(_) => String::from_str("IO error: "),
            AsciiPlayerError::InvalidConfig(_) => String::from_str("Invalid configuration: "),
            AsciiPlayerError::UnsupportedFormat(_) => String::from_str("Unsupported format: "),
        };
        match self {
            AsciiPlayerError::VideoDecoding(d) => r.append(d.as_str()),
            AsciiPlayerError::Terminal(d) => r.append(d.as_str()),
            AsciiPlayerError::Io(d) => r.append(d.as_str()),
            AsciiPlayerError::InvalidConfig(d) => r.append(d.as_str()),
            AsciiPlayerError::UnsupportedFormat(d) => r.append(d.as_str()),
        }
        r
    }
}

} // verus!
