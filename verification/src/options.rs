//! Playback options and their validation.
//!
//! The options mirror the command-line surface of the player, but hold
//! only plain values: speed in hundredths, frame rate in thousandths of
//! a frame per second, and time bounds in milliseconds. Reading the
//! command line and checking that the input file exists happen outside
//! the library; everything here is checked before playback starts.

use vstd::prelude::*;
use vstd::string::StringExecFns;
use crate::AsciiPlayerError;
use crate::utils;

verus! {

/// How cells are coloured when a frame is painted.
#[derive(Clone, Copy, Debug, PartialEq, Eq, Structural)]
pub enum ColorPalette {
    /// ASCII characters only, white on black.
    Ascii,
    /// Block characters with a grayscale foreground.
    Grayscale,
    /// Block characters with full-colour foreground and background.
    Color,
}

/// Per-session playback options, validated before the render loop starts.
#[derive(Clone, Debug)]
pub struct PlayerOptions {
    /// Restart the video when the end of the stream is reached.
    pub loop_playback: bool,
    /// Playback speed in hundredths (100 is normal speed).
    pub speed_centi: u32,
    /// Leave cell backgrounds unpainted.
    pub transparent: bool,
    /// Treat cells whose average channel value is below this bound as blank.
    pub alpha_threshold: Option<u8>,
    /// Explicit terminal width, overriding detection.
    pub width: Option<u16>,
    /// Explicit terminal height, overriding detection.
    pub height: Option<u16>,
    /// Verbose logging.
    pub verbose: bool,
    /// Colour palette for converted frames.
    pub palette: ColorPalette,
    /// Frame-rate override in thousandths of a frame per second.
    pub fps_milli: Option<u32>,
    /// Start playback at this time, in milliseconds.
    pub start_ms: Option<u64>,
    /// Stop playback at this time, in milliseconds (exclusive bound).
    pub end_ms: Option<u64>,
    /// Print the video's metadata and exit without playing.
    pub info_only: bool,
    /// Render a single frame and exit.
    pub single_frame: bool,
}

impl PlayerOptions {
    /// The conditions under which [`PlayerOptions::validate`] accepts.
    pub open spec fn valid(&self) -> bool {
        &&& self.speed_centi > 0
        &&& self.width != Some(0u16)
        &&& self.height != Some(0u16)
        &&& self.fps_milli != Some(0u32)
        &&& (self.start_ms is Some && self.end_ms is Some
            ==> self.start_ms->0 < self.end_ms->0)
    }

    /// Checks the options before playback starts.
    ///
    /// Fails exactly on the configuration errors the player rejects up
    /// front: a zero speed, a zero terminal dimension, a zero frame
    /// rate, or a start time that does not precede the end time.
    pub fn validate(&self) -> (r: Result<(), AsciiPlayerError>)
        ensures
            r is Ok <==> self.valid(),
            r matches Err(e) ==> e is InvalidConfig,
            self.speed_centi == 0 ==> (r matches Err(e) && e matches
                AsciiPlayerError::InvalidConfig(m) && m@
                == "Speed factor must be greater than 0"@),
            self.speed_centi > 0 && self.width == Some(0u16) ==> (r matches Err(e) && e matches
                AsciiPlayerError::InvalidConfig(m) && m@
                == "Terminal width must be greater than 0"@),
            self.speed_centi > 0 && self.width != Some(0u16) && self.height == Some(0u16) ==> (
            r matches Err(e) && e matches AsciiPlayerError::InvalidConfig(m) && m@
                == "Terminal height must be greater than 0"@),
            self.speed_centi > 0 && self.width != Some(0u16) && self.height != Some(0u16)
                && self.fps_milli == Some(0u32) ==> (r matches Err(e) && e matches
                AsciiPlayerError::InvalidConfig(m) && m@ == "FPS must be greater than 0"@),
            self.speed_centi > 0 && self.width != Some(0u16) && self.height != Some(0u16)
                && self.fps_milli != Some(0u32) && !self.valid() ==> (r matches Err(e) && e matches
                AsciiPlayerError::InvalidConfig(m) && m@
                == "Start time must be less than end time"@),
    {
        if self.speed_centi == 0 {
            return Err(AsciiPlayerError::InvalidConfig(String::from_str(
                "Speed factor must be greater than 0",
            )));
        }
        if let Some(w) = self.width {
            if w == 0 {
                return Err(AsciiPlayerError::InvalidConfig(String::from_str(
                    "Terminal width must be greater than 0",
                )));
            }
        }
        if let Some(h) = self.height {
            if h == 0 {
                return Err(AsciiPlayerError::InvalidConfig(String::from_str(
                    "Terminal height must be greater than 0",
                )));
            }
        }
        if let Some(fps) = self.fps_milli {
            if fps == 0 {
                return Err(AsciiPlayerError::InvalidConfig(String::from_str(
                    "FPS must be greater than 0",
                )));
            }
        }
        if let (Some(start), Some(end)) = (self.start_ms, self.end_ms) {
            if start >= end {
                return Err(AsciiPlayerError::InvalidConfig(String::from_str(
                    "Start time must be less than end time",
                )));
            }
        }
        Ok(())
    }

    /// The terminal size to play at: explicit options win over the
    /// detected size, dimension by dimension.
    pub fn effective_dimensions(&self, detected_width: u16, detected_height: u16) -> (d: (
        u16,
        u16,
    ))
        ensures
            d.0 == if self.width is Some {
                self.width->0
            } else {
                detected_width
            },
            d.1 == if self.height is Some {
                self.height->0
            } else {
                detected_height
            },
    {
        let w = match self.width {
            Some(w) => w,
            None => detected_width,
        };
        let h = match self.height {
            Some(h) => h,
            None => detected_height,
        };
        (w, h)
    }

    /// The character ramp that goes with the configured palette.
    pub fn get_ascii_chars(&self) -> (chars: Vec<char>)
        ensures
            chars@ == utils::ramp_for_palette(self.palette),
            chars@.len() >= 1,
    {
        utils::get_ascii_chars(&self.palette)
    }

    /// Whether the palette asks for colour escape sequences.
    pub fn use_color(&self) -> (b: bool)
        ensures
            b == (self.palette is Color || self.palette is Grayscale),
    {
        match self.palette {
            ColorPalette::Color => true,
            ColorPalette::Grayscale => true,
            ColorPalette::Ascii => false,
        }
    }
}

} // verus!
