//! Painting character grids onto a terminal.
//!
//! The renderer turns a frame into an explicit list of terminal
//! commands — cursor moves, colour changes, glyphs, and mode switches —
//! and its contracts pin that list down exactly. Executing the
//! commands against a real terminal happens outside the library.

use vstd::prelude::*;
use vstd::arithmetic::div_mod::lemma_multiply_divide_lt;
use crate::converter::AsciiFrame;
use crate::utils;

verus! {

/// A colour argument of a paint command.
#[derive(Clone, Copy, Debug, PartialEq, Eq)]
pub enum TermColor {
    /// A 24-bit colour.
    Rgb(u8, u8, u8),
    /// The terminal's named white.
    White,
    /// The terminal's named dark grey.
    DarkGrey,
    /// The terminal's named yellow.
    Yellow,
    /// The terminal's named red.
    Red,
}

/// One terminal control or paint step. A rendering call returns a list
/// of these; the caller executes them in order.
#[derive(Clone, Copy, Debug, PartialEq, Eq)]
pub enum PaintCmd {
    /// Enter raw, unbuffered input mode.
    EnableRawMode,
    /// Leave raw input mode.
    DisableRawMode,
    /// Hide the cursor.
    HideCursor,
    /// Show the cursor.
    ShowCursor,
    /// Clear the whole display.
    ClearAll,
    /// Move the write cursor to a column and row.
    MoveTo(u16, u16),
    /// Set the foreground colour.
    SetFg(TermColor),
    /// Set the background colour.
    SetBg(TermColor),
    /// Reset colours to the terminal's defaults.
    ResetColor,
    /// Write one glyph at the cursor.
    Put(char),
}

/// Paints frames for one terminal session: holds the cached terminal
/// size and the session's rendering flags.
pub struct Renderer {
    /// Skip background colours and blank glyphs.
    pub transparent_mode: bool,
    /// Emit colour commands.
    pub use_colors: bool,
    /// Centre frames inside the terminal.
    pub center_output: bool,
    /// Cached terminal width in cells.
    pub terminal_width: u16,
    /// Cached terminal height in cells.
    pub terminal_height: u16,
}

/// The column offset that centres `frame` in the terminal, zero when
/// centring is off or the frame is wider than the terminal.
pub open spec fn offset_x(ren: Renderer, frame: AsciiFrame) -> int {
    if ren.center_output && ren.terminal_width >= frame.width {
        (ren.terminal_width - frame.width) / 2
    } else {
        0
    }
}

/// The row offset that centres `frame` in the terminal.
pub open spec fn offset_y(ren: Renderer, frame: AsciiFrame) -> int {
    if ren.center_output && ren.terminal_height >= frame.height {
        (ren.terminal_height - frame.height) / 2
    } else {
        0
    }
}

/// The glyph-writing command for one character.
pub open spec fn put_cmd(c: char) -> PaintCmd {
    PaintCmd::Put(c)
}

/// The commands that paint cell `k` of `frame`: a cursor move, then —
/// unless transparent mode skips a blank glyph — the colour changes
/// the flags call for and the glyph itself.
pub open spec fn cell_cmds(ren: Renderer, frame: AsciiFrame, k: int) -> Seq<PaintCmd>
    recommends
        frame.width >= 1,
        0 <= k < frame.characters@.len(),
{
    let x = k % (frame.width as int);
    let y = k / (frame.width as int);
    let mv = PaintCmd::MoveTo((offset_x(ren, frame) + x) as u16, (offset_y(ren, frame) + y) as u16);
    let ch = frame.characters@[k];
    if ren.transparent_mode && ch == ' ' {
        seq![mv]
    } else if !ren.use_colors {
        seq![mv].push(put_cmd(ch))
    } else {
        let fg = frame.fg_colors@[k];
        let set_fg = PaintCmd::SetFg(TermColor::Rgb(fg.0, fg.1, fg.2));
        if !ren.transparent_mode && frame.bg_colors is Some {
            let bg = frame.bg_colors->0@[k];
            seq![mv].push(set_fg).push(PaintCmd::SetBg(TermColor::Rgb(bg.0, bg.1, bg.2))).push(
                put_cmd(ch),
            )
        } else {
            seq![mv].push(set_fg).push(put_cmd(ch))
        }
    }
}

/// The commands that clear the display and paint the first `n` cells.
pub open spec fn frame_cmds_upto(ren: Renderer, frame: AsciiFrame, n: int) -> Seq<PaintCmd>
    decreases n,
{
    if n <= 0 {
        seq![PaintCmd::ClearAll]
    } else {
        frame_cmds_upto(ren, frame, n - 1) + cell_cmds(ren, frame, n - 1)
    }
}

/// The full command list of one frame paint: clear, every cell, and a
/// colour reset when colours were in use.
pub open spec fn render_frame_spec(ren: Renderer, frame: AsciiFrame) -> Seq<PaintCmd> {
    frame_cmds_upto(ren, frame, frame.characters@.len() as int) + if ren.use_colors {
        seq![PaintCmd::ResetColor]
    } else {
        Seq::<PaintCmd>::empty()
    }
}

/// The commands that write the first `n` characters of a status line.
pub open spec fn status_puts(status: Seq<char>, n: int) -> Seq<PaintCmd>
    decreases n,
{
    if n <= 0 {
        Seq::<PaintCmd>::empty()
    } else {
        status_puts(status, n - 1).push(put_cmd(status[n - 1]))
    }
}

/// The commands that paint a status line on the bottom terminal row:
/// nothing for an empty status, otherwise a move to the bottom row,
/// the highlight colours when colours are on, the status text
/// truncated to the terminal width, and a colour reset.
pub open spec fn status_cmds(ren: Renderer, status: Seq<char>) -> Seq<PaintCmd> {
    if status.len() == 0 {
        Seq::<PaintCmd>::empty()
    } else {
        let row = if ren.terminal_height >= 1 {
            ren.terminal_height - 1
        } else {
            0
        };
        let shown = if status.len() <= ren.terminal_width {
            status.len() as int
        } else {
            ren.terminal_width as int
        };
        seq![PaintCmd::MoveTo(0u16, row as u16)] + (if ren.use_colors {
            seq![PaintCmd::SetFg(TermColor::White)].push(PaintCmd::SetBg(TermColor::DarkGrey))
        } else {
            Seq::<PaintCmd>::empty()
        }) + status_puts(status, shown) + (if ren.use_colors {
            seq![PaintCmd::ResetColor]
        } else {
            Seq::<PaintCmd>::empty()
        })
    }
}

/// The row the first line of a centred message is painted on.
pub open spec fn message_start_y(ren: Renderer, nlines: int) -> int {
    let half = nlines / 2;
    if ren.terminal_height / 2 >= half {
        ren.terminal_height / 2 - half
    } else {
        0
    }
}

/// The column a centred line of the given length starts in.
pub open spec fn message_line_x(ren: Renderer, line_len: int) -> int {
    let half = line_len / 2;
    if ren.terminal_width / 2 >= half {
        ren.terminal_width / 2 - half
    } else {
        0
    }
}

/// The commands that paint line `i` of a centred message: a cursor
/// move, the highlight colour when colours are on, and the line's
/// characters.
pub open spec fn line_cmds(ren: Renderer, lines: Seq<Seq<char>>, i: int) -> Seq<PaintCmd>
    recommends
        0 <= i < lines.len(),
{
    let line = lines[i];
    let mv = PaintCmd::MoveTo(
        message_line_x(ren, line.len() as int) as u16,
        (message_start_y(ren, lines.len() as int) + i) as u16,
    );
    seq![mv] + (if ren.use_colors {
        seq![PaintCmd::SetFg(TermColor::Yellow)]
    } else {
        Seq::<PaintCmd>::empty()
    }) + status_puts(line, line.len() as int)
}

/// The commands that clear the display and paint the first `n` lines
/// of a centred message.
pub open spec fn message_cmds_upto(ren: Renderer, lines: Seq<Seq<char>>, n: int) -> Seq<PaintCmd>
    decreases n,
{
    if n <= 0 {
        seq![PaintCmd::ClearAll]
    } else {
        message_cmds_upto(ren, lines, n - 1) + line_cmds(ren, lines, n - 1)
    }
}

/// The full command list of a centred message: clear, every line, and
/// a colour reset when colours were in use.
pub open spec fn display_message_spec(ren: Renderer, message: Seq<char>) -> Seq<PaintCmd> {
    message_cmds_upto(ren, utils::lines_of(message), utils::lines_of(message).len() as int) + (
    if ren.use_colors {
        seq![PaintCmd::ResetColor]
    } else {
        Seq::<PaintCmd>::empty()
    })
}

/// The prefix painted before an error's text.
pub open spec fn error_prefix() -> Seq<char> {
    seq!['E', 'R', 'R', 'O', 'R', ':', ' ']
}

/// The full command list of a centred error message: clear, a move to
/// the middle row centred on the error's text, the error colour when
/// colours are on, the prefixed text, and a colour reset.
pub open spec fn display_error_spec(ren: Renderer, error: Seq<char>) -> Seq<PaintCmd> {
    let text = error_prefix() + error;
    let mv = PaintCmd::MoveTo(
        message_line_x(ren, error.len() as int) as u16,
        (ren.terminal_height / 2) as u16,
    );
    seq![PaintCmd::ClearAll].push(mv) + (if ren.use_colors {
        seq![PaintCmd::SetFg(TermColor::Red)]
    } else {
        Seq::<PaintCmd>::empty()
    }) + status_puts(text, text.len() as int) + (if ren.use_colors {
        seq![PaintCmd::ResetColor]
    } else {
        Seq::<PaintCmd>::empty()
    })
}

/// The spinner glyph shown after `elapsed_ms` milliseconds: one of
/// ten braille frames, advancing every tenth of a second.
pub open spec fn spinner_glyph(elapsed_ms: int) -> char {
    let i = (elapsed_ms / 100) % 10;
    if i == 0 {
        '\u{280B}'
    } else if i == 1 {
        '\u{2819}'
    } else if i == 2 {
        '\u{2839}'
    } else if i == 3 {
        '\u{2838}'
    } else if i == 4 {
        '\u{283C}'
    } else if i == 5 {
        '\u{2834}'
    } else if i == 6 {
        '\u{2826}'
    } else if i == 7 {
        '\u{2827}'
    } else if i == 8 {
        '\u{2807}'
    } else {
        '\u{280F}'
    }
}

impl Renderer {
    /// Creates a renderer for a terminal of the given size. Centring
    /// starts enabled, as the player uses it.
    pub fn new(transparent_mode: bool, use_colors: bool, terminal_width: u16, terminal_height: u16) -> (ren: Renderer)
        ensures
            ren == (Renderer {
                transparent_mode,
                use_colors,
                center_output: true,
                terminal_width,
                terminal_height,
            }),
    {
        Renderer { transparent_mode, use_colors, center_output: true, terminal_width, terminal_height }
    }

    /// The commands that prepare the terminal for rendering: raw
    /// input, hidden cursor, cleared display.
    pub fn init(&self) -> (cmds: Vec<PaintCmd>)
        ensures
            cmds@ == seq![PaintCmd::EnableRawMode, PaintCmd::HideCursor, PaintCmd::ClearAll],
    {
        let mut cmds: Vec<PaintCmd> = Vec::new();
        cmds.push(PaintCmd::EnableRawMode);
        cmds.push(PaintCmd::HideCursor);
        cmds.push(PaintCmd::ClearAll);
        proof {
            assert(cmds@ =~= seq![PaintCmd::EnableRawMode, PaintCmd::HideCursor, PaintCmd::ClearAll]);
        }
        cmds
    }

    /// The commands that restore the terminal: cursor back, colours
    /// reset, display cleared, raw mode left.
    pub fn cleanup(&self) -> (cmds: Vec<PaintCmd>)
        ensures
            cmds@ == seq![
                PaintCmd::ShowCursor,
                PaintCmd::ResetColor,
                PaintCmd::ClearAll,
                PaintCmd::DisableRawMode,
            ],
    {
        let mut cmds: Vec<PaintCmd> = Vec::new();
        cmds.push(PaintCmd::ShowCursor);
        cmds.push(PaintCmd::ResetColor);
        cmds.push(PaintCmd::ClearAll);
        cmds.push(PaintCmd::DisableRawMode);
        proof {
            assert(cmds@ =~= seq![
                PaintCmd::ShowCursor,
                PaintCmd::ResetColor,
                PaintCmd::ClearAll,
                PaintCmd::DisableRawMode,
            ]);
        }
        cmds
    }

    /// The command that clears the display.
    pub fn clear(&self) -> (cmds: Vec<PaintCmd>)
        ensures
            cmds@ == seq![PaintCmd::ClearAll],
    {
        let mut cmds: Vec<PaintCmd> = Vec::new();
        cmds.push(PaintCmd::ClearAll);
        proof {
            assert(cmds@ =~= seq![PaintCmd::ClearAll]);
        }
        cmds
    }

    /// Replaces the cached terminal size with a freshly detected one.
    pub fn update_dimensions(&mut self, width: u16, height: u16) -> (d: (u16, u16))
        ensures
            *final(self) == (Renderer { terminal_width: width, terminal_height: height, ..*old(self) }),
            d == (width, height),
    {
        self.terminal_width = width;
        self.terminal_height = height;
        (width, height)
    }

    /// The cached terminal size.
    pub fn dimensions(&self) -> (d: (u16, u16))
        ensures
            d == (self.terminal_width, self.terminal_height),
    {
        (self.terminal_width, self.terminal_height)
    }

    /// Turns centring on or off.
    pub fn set_centering(&mut self, center: bool)
        ensures
            *final(self) == (Renderer { center_output: center, ..*old(self) }),
    {
        self.center_output = center;
    }

    /// Whether blank glyphs and backgrounds are skipped.
    pub fn is_transparent(&self) -> (b: bool)
        ensures
            b == self.transparent_mode,
    {
        self.transparent_mode
    }

    /// Whether colour commands are emitted.
    pub fn uses_colors(&self) -> (b: bool)
        ensures
            b == self.use_colors,
    {
        self.use_colors
    }

    /// Paints one frame: exactly the commands of
    /// [`render_frame_spec`] — a clear, then per cell a cursor move
    /// and, unless transparent mode skips a blank glyph, colours and
    /// the glyph, and finally a colour reset when colours are on.
    #[verifier::loop_isolation(false)]
    pub fn render_frame(&self, frame: &AsciiFrame) -> (cmds: Vec<PaintCmd>)
        requires
            frame.wf(),
        ensures
            cmds@ == render_frame_spec(*self, *frame),
    {
        let w = frame.width as usize;
        let offset_col: u16 = if self.center_output && self.terminal_width >= frame.width {
            (self.terminal_width - frame.width) / 2
        } else {
            0
        };
        let offset_row: u16 = if self.center_output && self.terminal_height >= frame.height {
            (self.terminal_height - frame.height) / 2
        } else {
            0
        };
        let mut cmds: Vec<PaintCmd> = Vec::new();
        cmds.push(PaintCmd::ClearAll);
        proof {
            assert(cmds@ =~= frame_cmds_upto(*self, *frame, 0));
        }
        let n = frame.characters.len();
        let mut k: usize = 0;
        while k < n
            invariant
                0 <= k <= n,
                cmds@ == frame_cmds_upto(*self, *frame, k as int),
            decreases n - k,
        {
            proof {
                assert(frame.width >= 1 && frame.height >= 1) by {
                    if frame.width == 0 || frame.height == 0 {
                        assert(frame.width * frame.height == 0) by (nonlinear_arith)
                            requires
                                frame.width == 0 || frame.height == 0,
                        ;
                    }
                }
                lemma_multiply_divide_lt(k as int, frame.width as int, frame.height as int);
            }
            let x = k % w;
            let y = k / w;
            let cx = (offset_col as u32) + (x as u32);
            let cy = (offset_row as u32) + (y as u32);
            let ghost pre = cmds@;
            cmds.push(PaintCmd::MoveTo(cx as u16, cy as u16));
            let ch = frame.characters[k];
            if self.transparent_mode && ch == ' ' {
                // a blank cell shows the terminal through; nothing is drawn
            } else if !self.use_colors {
                cmds.push(PaintCmd::Put(ch));
            } else {
                let fg = frame.fg_colors[k];
                cmds.push(PaintCmd::SetFg(TermColor::Rgb(fg.0, fg.1, fg.2)));
                if !self.transparent_mode {
                    if let Some(bg_colors) = &frame.bg_colors {
                        let bg = bg_colors[k];
                        cmds.push(PaintCmd::SetBg(TermColor::Rgb(bg.0, bg.1, bg.2)));
                    }
                }
                cmds.push(PaintCmd::Put(ch));
            }
            proof {
                assert((offset_x(*self, *frame) + (k as int) % (frame.width as int)) as u16 == cx
                    as u16);
                assert((offset_y(*self, *frame) + (k as int) / (frame.width as int)) as u16 == cy
                    as u16);
                let ghost cc = cell_cmds(*self, *frame, k as int);
                let ghost mv = PaintCmd::MoveTo(cx as u16, cy as u16);
                let ghost chg = frame.characters@[k as int];
                if self.transparent_mode && chg == ' ' {
                    assert(cc =~= seq![mv]);
                } else if !self.use_colors {
                    assert(cc =~= seq![mv].push(put_cmd(chg)));
                } else {
                    let ghost fgg = frame.fg_colors@[k as int];
                    let ghost set_fg = PaintCmd::SetFg(TermColor::Rgb(fgg.0, fgg.1, fgg.2));
                    if !self.transparent_mode && frame.bg_colors is Some {
                        let ghost bgg = frame.bg_colors->0@[k as int];
                        assert(cc =~= seq![mv].push(set_fg).push(
                            PaintCmd::SetBg(TermColor::Rgb(bgg.0, bgg.1, bgg.2)),
                        ).push(put_cmd(chg)));
                    } else {
                        assert(cc =~= seq![mv].push(set_fg).push(put_cmd(chg)));
                    }
                }
                assert(cmds@ =~= pre + cc);
                assert(frame_cmds_upto(*self, *frame, k as int + 1) == frame_cmds_upto(
                    *self,
                    *frame,
                    k as int,
                ) + cc);
                assert(cmds@ =~= frame_cmds_upto(*self, *frame, k as int + 1));
            }
            k = k + 1;
        }
        if self.use_colors {
            cmds.push(PaintCmd::ResetColor);
        }
        proof {
            assert(cmds@ =~= render_frame_spec(*self, *frame));
        }
        cmds
    }

    /// Paints one frame and then a status line on the bottom row,
    /// truncated to the terminal width.
    #[verifier::loop_isolation(false)]
    pub fn render_frame_with_status(&self, frame: &AsciiFrame, status: &Vec<char>) -> (cmds: Vec<
        PaintCmd,
    >)
        requires
            frame.wf(),
        ensures
            cmds@ == render_frame_spec(*self, *frame) + status_cmds(*self, status@),
    {
        let mut cmds = self.render_frame(frame);
        if status.len() == 0 {
            proof {
                assert(cmds@ =~= render_frame_spec(*self, *frame) + status_cmds(*self, status@));
            }
            return cmds;
        }
        let ghost frame_part = cmds@;
        let row: u16 = if self.terminal_height >= 1 {
            self.terminal_height - 1
        } else {
            0
        };
        cmds.push(PaintCmd::MoveTo(0, row));
        if self.use_colors {
            cmds.push(PaintCmd::SetFg(TermColor::White));
            cmds.push(PaintCmd::SetBg(TermColor::DarkGrey));
        }
        let shown: usize = if status.len() <= self.terminal_width as usize {
            status.len()
        } else {
            self.terminal_width as usize
        };
        let ghost head = cmds@;
        proof {
            assert(cmds@ =~= head + status_puts(status@, 0));
        }
        let mut i: usize = 0;
        while i < shown
            invariant
                0 <= i <= shown,
                shown <= status@.len(),
                cmds@ == head + status_puts(status@, i as int),
            decreases shown - i,
        {
            cmds.push(PaintCmd::Put(status[i]));
            proof {
                assert(status_puts(status@, i as int + 1) == status_puts(status@, i as int).push(
                    put_cmd(status@[i as int]),
                ));
                assert(cmds@ =~= head + status_puts(status@, i as int + 1));
            }
            i = i + 1;
        }
        if self.use_colors {
            cmds.push(PaintCmd::ResetColor);
        }
        proof {
            assert(cmds@ =~= render_frame_spec(*self, *frame) + status_cmds(*self, status@));
        }
        cmds
    }

    /// Paints a message centred in the terminal, line by line:
    /// exactly the commands of [`display_message_spec`].
    #[verifier::loop_isolation(false)]
    pub fn display_message(&self, message: &Vec<char>) -> (cmds: Vec<PaintCmd>)
        requires
            message@.len() <= 0x7FFF,
        ensures
            cmds@ == display_message_spec(*self, message@),
    {
        let lines = utils::split_lines(message);
        let ghost glines = utils::lines_of(message@);
        proof {
            utils::lemma_lines_of_len(message@);
            assert(lines.deep_view().len() == lines@.len());
        }
        let nlines = lines.len();
        let half_lines = (nlines as u16) / 2;
        let start_y: u16 = if self.terminal_height / 2 >= half_lines {
            self.terminal_height / 2 - half_lines
        } else {
            0
        };
        let mut cmds: Vec<PaintCmd> = Vec::new();
        cmds.push(PaintCmd::ClearAll);
        proof {
            assert(cmds@ =~= message_cmds_upto(*self, glines, 0));
        }
        let mut li: usize = 0;
        while li < nlines
            invariant
                0 <= li <= nlines,
                cmds@ == message_cmds_upto(*self, glines, li as int),
            decreases nlines - li,
        {
            proof {
                assert(lines.deep_view()[li as int] == lines@[li as int].deep_view());
                assert(lines@[li as int].deep_view() =~= lines@[li as int]@);
                assert(lines@[li as int]@ == glines[li as int]);
                utils::lemma_lines_of_line_len(message@, li as int);
            }
            let ghost gline = glines[li as int];
            let line_len = lines[li].len();
            let half = (line_len as u16) / 2;
            let x: u16 = if self.terminal_width / 2 >= half {
                self.terminal_width / 2 - half
            } else {
                0
            };
            let y: u16 = start_y + (li as u16);
            let ghost pre = cmds@;
            cmds.push(PaintCmd::MoveTo(x, y));
            if self.use_colors {
                cmds.push(PaintCmd::SetFg(TermColor::Yellow));
            }
            let ghost head = cmds@;
            proof {
                assert(cmds@ =~= head + status_puts(gline, 0));
            }
            let mut ci: usize = 0;
            while ci < line_len
                invariant
                    0 <= ci <= line_len,
                    line_len == gline.len(),
                    cmds@ == head + status_puts(gline, ci as int),
                decreases line_len - ci,
            {
                cmds.push(PaintCmd::Put(lines[li][ci]));
                proof {
                    assert(status_puts(gline, ci as int + 1) == status_puts(gline, ci as int).push(
                        put_cmd(gline[ci as int]),
                    ));
                    assert(cmds@ =~= head + status_puts(gline, ci as int + 1));
                }
                ci = ci + 1;
            }
            proof {
                assert(message_line_x(*self, gline.len() as int) as u16 == x);
                assert((message_start_y(*self, glines.len() as int) + li as int) as u16 == y);
                assert(cmds@ =~= pre + line_cmds(*self, glines, li as int));
                assert(message_cmds_upto(*self, glines, li as int + 1) == message_cmds_upto(
                    *self,
                    glines,
                    li as int,
                ) + line_cmds(*self, glines, li as int));
                assert(cmds@ =~= message_cmds_upto(*self, glines, li as int + 1));
            }
            li = li + 1;
        }
        if self.use_colors {
            cmds.push(PaintCmd::ResetColor);
        }
        proof {
            assert(cmds@ =~= display_message_spec(*self, message@));
        }
        cmds
    }

    /// Paints a loading notice: the current spinner frame, a space,
    /// and the message, centred as a message.
    #[verifier::loop_isolation(false)]
    pub fn display_loading(&self, message: &Vec<char>, elapsed_ms: u64) -> (cmds: Vec<PaintCmd>)
        requires
            message@.len() <= 0x7FF0,
        ensures
            cmds@ == display_message_spec(
                *self,
                seq![spinner_glyph(elapsed_ms as int), ' '] + message@,
            ),
    {
        let idx = (elapsed_ms / 100) % 10;
        let spinner: char = if idx == 0 {
            '\u{280B}'
        } else if idx == 1 {
            '\u{2819}'
        } else if idx == 2 {
            '\u{2839}'
        } else if idx == 3 {
            '\u{2838}'
        } else if idx == 4 {
            '\u{283C}'
        } else if idx == 5 {
            '\u{2834}'
        } else if idx == 6 {
            '\u{2826}'
        } else if idx == 7 {
            '\u{2827}'
        } else if idx == 8 {
            '\u{2807}'
        } else {
            '\u{280F}'
        };
        proof {
            assert(spinner == spinner_glyph(elapsed_ms as int));
        }
        let mut full: Vec<char> = Vec::new();
        full.push(spinner);
        full.push(' ');
        proof {
            assert(full@ =~= seq![spinner_glyph(elapsed_ms as int), ' '] + message@.take(0));
        }
        let mut i: usize = 0;
        while i < message.len()
            invariant
                0 <= i <= message@.len(),
                full@ == seq![spinner_glyph(elapsed_ms as int), ' '] + message@.take(i as int),
            decreases message@.len() - i,
        {
            full.push(message[i]);
            proof {
                assert(full@ =~= seq![spinner_glyph(elapsed_ms as int), ' '] + message@.take(
                    i as int + 1,
                ));
            }
            i = i + 1;
        }
        proof {
            assert(message@.take(message@.len() as int) =~= message@);
        }
        self.display_message(&full)
    }

    /// Paints an error notice on the terminal's middle row: exactly
    /// the commands of [`display_error_spec`].
    #[verifier::loop_isolation(false)]
    pub fn display_error(&self, error: &Vec<char>) -> (cmds: Vec<PaintCmd>)
        requires
            error@.len() <= 0x7FF0,
        ensures
            cmds@ == display_error_spec(*self, error@),
    {
        let mut text: Vec<char> = Vec::new();
        text.push('E');
        text.push('R');
        text.push('R');
        text.push('O');
        text.push('R');
        text.push(':');
        text.push(' ');
        proof {
            assert(text@ =~= error_prefix() + error@.take(0));
        }
        let mut i: usize = 0;
        while i < error.len()
            invariant
                0 <= i <= error@.len(),
                text@ == error_prefix() + error@.take(i as int),
            decreases error@.len() - i,
        {
            text.push(error[i]);
            proof {
                assert(text@ =~= error_prefix() + error@.take(i as int + 1));
            }
            i = i + 1;
        }
        proof {
            assert(error@.take(error@.len() as int) =~= error@);
            assert(text@ == error_prefix() + error@);
        }
        let half = (error.len() as u16) / 2;
        let x: u16 = if self.terminal_width / 2 >= half {
            self.terminal_width / 2 - half
        } else {
            0
        };
        let y: u16 = self.terminal_height / 2;
        let mut cmds: Vec<PaintCmd> = Vec::new();
        cmds.push(PaintCmd::ClearAll);
        cmds.push(PaintCmd::MoveTo(x, y));
        if self.use_colors {
            cmds.push(PaintCmd::SetFg(TermColor::Red));
        }
        let ghost head = cmds@;
        proof {
            assert(cmds@ =~= head + status_puts(text@, 0));
        }
        let mut ci: usize = 0;
        let text_len = text.len();
        while ci < text_len
            invariant
                0 <= ci <= text_len,
                text_len == text@.len(),
                cmds@ == head + status_puts(text@, ci as int),
            decreases text_len - ci,
        {
            cmds.push(PaintCmd::Put(text[ci]));
            proof {
                assert(status_puts(text@, ci as int + 1) == status_puts(text@, ci as int).push(
                    put_cmd(text@[ci as int]),
                ));
                assert(cmds@ =~= head + status_puts(text@, ci as int + 1));
            }
            ci = ci + 1;
        }
        if self.use_colors {
            cmds.push(PaintCmd::ResetColor);
        }
        proof {
            assert(message_line_x(*self, error@.len() as int) as u16 == x);
            assert(cmds@ =~= display_error_spec(*self, error@));
        }
        cmds
    }
}

/// Law: a transparent renderer paints no cell backgrounds and writes
/// no blank glyphs, so the terminal's own content shows through blank
/// cells.
pub proof fn lemma_transparent_paints_no_background(ren: Renderer, frame: AsciiFrame, i: int)
    requires
        ren.transparent_mode,
        0 <= i < render_frame_spec(ren, frame).len(),
    ensures
        !(render_frame_spec(ren, frame)[i] is SetBg),
        render_frame_spec(ren, frame)[i] != PaintCmd::Put(' '),
{
    let n = frame.characters@.len() as int;
    lemma_frame_cmds_transparent(ren, frame, n);
    if i < frame_cmds_upto(ren, frame, n).len() {
        assert(render_frame_spec(ren, frame)[i] == frame_cmds_upto(ren, frame, n)[i]);
    } else {
        assert(render_frame_spec(ren, frame)[i] == PaintCmd::ResetColor);
    }
}

/// Every command that paints the first `n` cells of a transparent
/// renderer's frame leaves backgrounds and blanks alone.
proof fn lemma_frame_cmds_transparent(ren: Renderer, frame: AsciiFrame, n: int)
    requires
        ren.transparent_mode,
    ensures
        forall|j: int|
            0 <= j < frame_cmds_upto(ren, frame, n).len() ==> !(
            #[trigger] frame_cmds_upto(ren, frame, n)[j] is SetBg) && frame_cmds_upto(
                ren,
                frame,
                n,
            )[j] != PaintCmd::Put(' '),
    decreases n,
{
    if n <= 0 {
    } else {
        lemma_frame_cmds_transparent(ren, frame, n - 1);
        let prefix = frame_cmds_upto(ren, frame, n - 1);
        let cell = cell_cmds(ren, frame, n - 1);
        assert forall|j: int| 0 <= j < frame_cmds_upto(ren, frame, n).len() implies !(
        #[trigger] frame_cmds_upto(ren, frame, n)[j] is SetBg) && frame_cmds_upto(ren, frame, n)[j]
            != PaintCmd::Put(' ') by {
            if j < prefix.len() {
                assert(frame_cmds_upto(ren, frame, n)[j] == prefix[j]);
            } else {
                assert(frame_cmds_upto(ren, frame, n)[j] == cell[j - prefix.len()]);
                let ch = frame.characters@[n - 1];
                if ch == ' ' {
                    assert(cell[j - prefix.len()] is MoveTo);
                } else {
                    assert(cell[j - prefix.len()] != PaintCmd::Put(' '));
                }
            }
        }
    }
}

/// The delay before the next frame, in milliseconds: `1000 / (fps *
/// speed)` over the fixed-point rate (thousandths of a frame per
/// second) and speed (hundredths), truncated to whole milliseconds.
pub open spec fn frame_delay_spec(fps_milli: int, speed_centi: int) -> int
    recommends
        fps_milli >= 1,
        speed_centi >= 1,
{
    100_000_000int / (fps_milli * speed_centi)
}

/// Computes the inter-frame delay in milliseconds for a target rate
/// and speed.
pub fn calculate_frame_delay(fps_milli: u64, speed_centi: u64) -> (delay_ms: u64)
    requires
        fps_milli >= 1,
        speed_centi >= 1,
    ensures
        delay_ms == frame_delay_spec(fps_milli as int, speed_centi as int),
        delay_ms <= 100_000_000,
{
    proof {
        assert(1 <= (fps_milli as int) * (speed_centi as int) < 0x1_0000_0000_0000_0000_0000_0000_0000_0000int)
            by (nonlinear_arith)
            requires
                1 <= fps_milli <= 0xFFFF_FFFF_FFFF_FFFFu64,
                1 <= speed_centi <= 0xFFFF_FFFF_FFFF_FFFFu64,
        ;
        vstd::arithmetic::div_mod::lemma_div_is_ordered_by_denominator(100_000_000, 1, (
        fps_milli as int) * (speed_centi as int));
    }
    let product: u128 = (fps_milli as u128) * (speed_centi as u128);
    (100_000_000u128 / product) as u64
}

/// Paints one frame as a complete stand-alone session: terminal
/// set-up, the frame, and terminal restoration.
pub fn render_frame(
    frame: &AsciiFrame,
    transparent_mode: bool,
    terminal_width: u16,
    terminal_height: u16,
) -> (cmds: Vec<PaintCmd>)
    requires
        frame.wf(),
    ensures
        cmds@ == seq![PaintCmd::EnableRawMode, PaintCmd::HideCursor, PaintCmd::ClearAll]
            + render_frame_spec(
            Renderer {
                transparent_mode,
                use_colors: true,
                center_output: true,
                terminal_width,
                terminal_height,
            },
            *frame,
        ) + seq![
            PaintCmd::ShowCursor,
            PaintCmd::ResetColor,
            PaintCmd::ClearAll,
            PaintCmd::DisableRawMode,
        ],
{
    let renderer = Renderer::new(transparent_mode, true, terminal_width, terminal_height);
    let mut cmds = renderer.init();
    let mut body = renderer.render_frame(frame);
    let mut tail = renderer.cleanup();
    cmds.append(&mut body);
    cmds.append(&mut tail);
    cmds
}

} // verus!
