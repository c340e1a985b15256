//! Turning raw RGB frames into character grids.
//!
//! All fractional factors are fixed-point: brightness and contrast in
//! thousandths, the cell aspect-ratio correction in thousandths. The
//! per-channel adjustment and the luminance weighting are computed
//! exactly over scaled integers, with round-to-nearest where the
//! transform asks for rounding.

use vstd::prelude::*;
use vstd::arithmetic::div_mod::lemma_div_is_ordered;
use vstd::arithmetic::div_mod::lemma_div_pos_is_pos;
use vstd::arithmetic::div_mod::lemma_fundamental_div_mod_converse;
use vstd::arithmetic::div_mod::lemma_multiply_divide_lt;
use vstd::arithmetic::mul::lemma_mul_inequality;
use crate::options::ColorPalette;
use crate::utils;

verus! {

/// A raw frame handed in by the video decoder: packed row-major RGB
/// byte triples plus timing metadata.
#[derive(Debug, Clone)]
pub struct VideoFrame {
    /// Packed RGB bytes, three per pixel, row major.
    pub data: Vec<u8>,
    /// Frame width in pixels.
    pub width: u32,
    /// Frame height in pixels.
    pub height: u32,
    /// Presentation timestamp in milliseconds.
    pub timestamp_ms: u64,
    /// Frame counter within the session, starting at 0.
    pub frame_number: u64,
}

/// A converted frame: parallel per-cell arrays of glyphs and colours.
#[derive(Debug, Clone)]
pub struct AsciiFrame {
    /// One glyph per cell, row major.
    pub characters: Vec<char>,
    /// Foreground colour of each cell.
    pub fg_colors: Vec<(u8, u8, u8)>,
    /// Background colour of each cell; absent in transparent mode.
    pub bg_colors: Option<Vec<(u8, u8, u8)>>,
    /// Grid width in character cells.
    pub width: u16,
    /// Grid height in character cells.
    pub height: u16,
    /// Presentation timestamp of the source frame, in milliseconds.
    pub timestamp_ms: u64,
    /// Frame counter of the source frame.
    pub frame_number: u64,
}

impl AsciiFrame {
    /// The parallel arrays cover the grid exactly.
    pub open spec fn wf(&self) -> bool {
        &&& self.characters@.len() == self.width * self.height
        &&& self.fg_colors@.len() == self.width * self.height
        &&& self.bg_colors matches Some(bg) ==> bg@.len() == self.width * self.height
    }
}

/// The mathematical content of a [`ConversionConfig`].
pub ghost struct ConversionParams {
    /// Colour palette for converted cells.
    pub palette: ColorPalette,
    /// Skip background colours entirely.
    pub transparent: bool,
    /// Cells whose average adjusted channel value is below this bound
    /// become blank.
    pub alpha_threshold: Option<u8>,
    /// Character ramp, darkest glyph first.
    pub ascii_chars: Seq<char>,
    /// Aspect-ratio correction factor in thousandths.
    pub aspect_ratio_milli: int,
    /// Brightness offset in thousandths.
    pub brightness_milli: int,
    /// Contrast factor in thousandths.
    pub contrast_milli: int,
}

impl ConversionParams {
    /// The value ranges every conversion assumes.
    pub open spec fn wf(&self) -> bool {
        &&& self.ascii_chars.len() >= 1
        &&& 1 <= self.aspect_ratio_milli <= 10000
        &&& -1000 <= self.brightness_milli <= 1000
        &&& 0 <= self.contrast_milli <= 2000
    }
}

/// The stock parameters: colour palette, opaque cells, the default
/// ramp, a 0.5 aspect correction, neutral brightness and contrast.
pub open spec fn default_params() -> ConversionParams {
    ConversionParams {
        palette: ColorPalette::Color,
        transparent: false,
        alpha_threshold: None,
        ascii_chars: utils::default_ramp(),
        aspect_ratio_milli: 500,
        brightness_milli: 0,
        contrast_milli: 1000,
    }
}

/// Per-session conversion configuration.
#[derive(Debug, Clone)]
pub struct ConversionConfig {
    /// Colour palette for converted cells.
    pub palette: ColorPalette,
    /// Skip background colours entirely.
    pub transparent: bool,
    /// Cells whose average adjusted channel value is below this bound
    /// become blank.
    pub alpha_threshold: Option<u8>,
    /// Character ramp, darkest glyph first; never empty.
    pub ascii_chars: Vec<char>,
    /// Aspect-ratio correction factor in thousandths (500 means a cell
    /// is twice as tall as it is wide).
    pub aspect_ratio_milli: u32,
    /// Brightness offset in thousandths, between -1000 and 1000.
    pub brightness_milli: i32,
    /// Contrast factor in thousandths, between 0 and 2000 (1000 is
    /// neutral).
    pub contrast_milli: u32,
}

impl View for ConversionConfig {
    type V = ConversionParams;

    open spec fn view(&self) -> ConversionParams {
        ConversionParams {
            palette: self.palette,
            transparent: self.transparent,
            alpha_threshold: self.alpha_threshold,
            ascii_chars: self.ascii_chars@,
            aspect_ratio_milli: self.aspect_ratio_milli as int,
            brightness_milli: self.brightness_milli as int,
            contrast_milli: self.contrast_milli as int,
        }
    }
}

impl Default for ConversionConfig {
    /// The stock configuration, matching [`default_params`].
    fn default() -> (c: Self)
        ensures
            c@ == default_params(),
            c@.wf(),
    {
        let c = ConversionConfig {
            palette: ColorPalette::Color,
            transparent: false,
            alpha_threshold: None,
            ascii_chars: utils::get_ascii_chars(&ColorPalette::Ascii),
            aspect_ratio_milli: 500,
            brightness_milli: 0,
            contrast_milli: 1000,
        };
        proof {
            assert(c@ =~= default_params());
        }
        c
    }
}

/// Clamps `x` into `[lo, hi]`.
pub open spec fn clamp_spec(x: int, lo: int, hi: int) -> int {
    if x < lo {
        lo
    } else if x > hi {
        hi
    } else {
        x
    }
}

/// One channel after brightness and contrast: the value is shifted by
/// `brightness * 255`, scaled around mid-gray 128 by `contrast`,
/// clamped to `[0, 255]`, and rounded to the nearest integer. The
/// computation is exact over fixed-point integers: `base` is in
/// millionths of a channel unit, `scaled` in billionths.
pub open spec fn adjust_channel_spec(value: u8, brightness_milli: int, contrast_milli: int) -> int {
    let base = value * 1_000_000 + brightness_milli * 255_000;
    let scaled = (base - 128_000_000) * contrast_milli + 128_000_000_000;
    (clamp_spec(scaled, 0, 255_000_000_000) + 500_000_000) / 1_000_000_000
}

/// A whole pixel after the per-channel adjustment.
pub open spec fn adjusted_pixel(cfg: ConversionParams, p: (u8, u8, u8)) -> (u8, u8, u8) {
    (
        adjust_channel_spec(p.0, cfg.brightness_milli, cfg.contrast_milli) as u8,
        adjust_channel_spec(p.1, cfg.brightness_milli, cfg.contrast_milli) as u8,
        adjust_channel_spec(p.2, cfg.brightness_milli, cfg.contrast_milli) as u8,
    )
}

/// The ITU-R BT.709 luma of a pixel, rounded to the nearest integer:
/// `0.2126 r + 0.7152 g + 0.0722 b` computed exactly in ten-thousandths.
pub open spec fn luminance_spec(r: u8, g: u8, b: u8) -> int {
    (2126 * r + 7152 * g + 722 * b + 5000) / 10000
}

/// Law: luminance always lies in `[0, 255]`.
pub proof fn lemma_luminance_range(r: u8, g: u8, b: u8)
    ensures
        0 <= luminance_spec(r, g, b) <= 255,
{
    let num = 2126 * r + 7152 * g + 722 * b + 5000;
    assert(num <= 2_555_000);
    lemma_div_pos_is_pos(num, 10000);
    lemma_div_is_ordered(num, 2_555_000, 10000);
}

/// Law: luminance is monotone — raising any channel never lowers it.
pub proof fn lemma_luminance_monotonic(r1: u8, g1: u8, b1: u8, r2: u8, g2: u8, b2: u8)
    requires
        r1 <= r2,
        g1 <= g2,
        b1 <= b2,
    ensures
        luminance_spec(r1, g1, b1) <= luminance_spec(r2, g2, b2),
{
    let n1 = 2126 * r1 + 7152 * g1 + 722 * b1 + 5000;
    let n2 = 2126 * r2 + 7152 * g2 + 722 * b2 + 5000;
    assert(n1 <= n2);
    lemma_div_is_ordered(n1, n2, 10000);
}

/// The ramp index for a luminance value: `luminance / 255` of the way
/// up a ramp of `ramp_len` glyphs, rounded to the nearest index and
/// capped at the last one.
pub open spec fn char_index_spec(luminance: int, ramp_len: int) -> int
    recommends
        0 <= luminance <= 255,
        ramp_len >= 1,
{
    let rounded = (2 * luminance * (ramp_len - 1) + 255) / 510;
    if rounded > ramp_len - 1 {
        ramp_len - 1
    } else {
        rounded
    }
}

/// Law: the ramp index stays in range, luminance 0 selects the darkest
/// glyph, and luminance 255 selects the brightest, for every ramp
/// length of at least one.
pub proof fn lemma_char_index_range(luminance: int, ramp_len: int)
    requires
        0 <= luminance <= 255,
        ramp_len >= 1,
    ensures
        0 <= char_index_spec(luminance, ramp_len) <= ramp_len - 1,
        luminance == 0 ==> char_index_spec(luminance, ramp_len) == 0,
        luminance == 255 ==> char_index_spec(luminance, ramp_len) == ramp_len - 1,
{
    let num = 2 * luminance * (ramp_len - 1) + 255;
    assert(2 * luminance * (ramp_len - 1) >= 0) by (nonlinear_arith)
        requires
            0 <= luminance,
            ramp_len >= 1,
    ;
    lemma_div_pos_is_pos(num, 510);
    if luminance == 0 {
        assert(2 * luminance * (ramp_len - 1) == 0) by (nonlinear_arith)
            requires
                luminance == 0,
        ;
        assert(num / 510 == 0);
    }
    if luminance == 255 {
        assert(2 * 255 * (ramp_len - 1) + 255 == 510 * (ramp_len - 1) + 255) by (nonlinear_arith);
        lemma_fundamental_div_mod_converse(510 * (ramp_len - 1) + 255, 510, ramp_len - 1, 255);
    }
}

/// Law: the ramp index is monotone in luminance.
pub proof fn lemma_char_index_monotonic(l1: int, l2: int, ramp_len: int)
    requires
        0 <= l1 <= l2 <= 255,
        ramp_len >= 1,
    ensures
        char_index_spec(l1, ramp_len) <= char_index_spec(l2, ramp_len),
{
    let n1 = 2 * l1 * (ramp_len - 1) + 255;
    let n2 = 2 * l2 * (ramp_len - 1) + 255;
    lemma_mul_inequality(2 * l1, 2 * l2, ramp_len - 1);
    lemma_div_is_ordered(n1, n2, 510);
}

/// The average of the three adjusted channels, used as a pseudo-alpha
/// value when an alpha threshold is configured.
pub open spec fn pixel_alpha(p: (u8, u8, u8)) -> int {
    (p.0 + p.1 + p.2) / 3
}

/// Whether a source pixel becomes a blank cell: only when an alpha
/// threshold is configured and the adjusted pixel's average channel
/// value falls below it.
pub open spec fn cell_is_blank(cfg: ConversionParams, p: (u8, u8, u8)) -> bool {
    match cfg.alpha_threshold {
        Some(t) => pixel_alpha(adjusted_pixel(cfg, p)) < t,
        None => false,
    }
}

/// The luminance a cell's glyph is selected by: the luma of the
/// adjusted pixel.
pub open spec fn cell_luminance(cfg: ConversionParams, p: (u8, u8, u8)) -> int {
    let a = adjusted_pixel(cfg, p);
    luminance_spec(a.0, a.1, a.2)
}

/// The glyph a source pixel maps to.
pub open spec fn cell_char_spec(cfg: ConversionParams, p: (u8, u8, u8)) -> char {
    if cell_is_blank(cfg, p) {
        ' '
    } else {
        cfg.ascii_chars[char_index_spec(cell_luminance(cfg, p), cfg.ascii_chars.len() as int)]
    }
}

/// The foreground colour a source pixel maps to: white for the plain
/// palette, replicated luminance for grayscale, the adjusted pixel for
/// colour, and black for blank cells.
pub open spec fn cell_fg_spec(cfg: ConversionParams, p: (u8, u8, u8)) -> (u8, u8, u8) {
    if cell_is_blank(cfg, p) {
        (0u8, 0u8, 0u8)
    } else {
        match cfg.palette {
            ColorPalette::Ascii => (255u8, 255u8, 255u8),
            ColorPalette::Grayscale => {
                let l = cell_luminance(cfg, p) as u8;
                (l, l, l)
            },
            ColorPalette::Color => adjusted_pixel(cfg, p),
        }
    }
}

/// The background colour a source pixel maps to (used only when the
/// converter keeps backgrounds): black except for the colour palette,
/// which darkens the adjusted pixel to quarter intensity.
pub open spec fn cell_bg_spec(cfg: ConversionParams, p: (u8, u8, u8)) -> (u8, u8, u8) {
    if cell_is_blank(cfg, p) {
        (0u8, 0u8, 0u8)
    } else {
        match cfg.palette {
            ColorPalette::Ascii => (0u8, 0u8, 0u8),
            ColorPalette::Grayscale => (0u8, 0u8, 0u8),
            ColorPalette::Color => {
                let a = adjusted_pixel(cfg, p);
                ((a.0 / 4) as u8, (a.1 / 4) as u8, (a.2 / 4) as u8)
            },
        }
    }
}

/// Whether the source image, corrected for cell shape, is wider than
/// the terminal: `src_w / src_h > term_w / (term_h * aspect)` over the
/// fixed-point factor, cross-multiplied to stay in integers.
pub open spec fn fits_to_width(
    src_w: int,
    src_h: int,
    term_w: int,
    term_h: int,
    aspect_milli: int,
) -> bool {
    src_w * (term_h * aspect_milli) > term_w * (src_h * 1000)
}

/// `num / den`, rounded to the nearest integer.
pub open spec fn round_div(num: int, den: int) -> int
    recommends
        num >= 0,
        den >= 1,
{
    (2 * num + den) / (2 * den)
}

/// The character-grid size a source fits into: the fitted dimension
/// fills the terminal, the other is scaled to preserve the source's
/// proportions under the aspect correction, capped at the terminal and
/// floored at one cell.
pub open spec fn target_dims_spec(
    src_w: int,
    src_h: int,
    term_w: int,
    term_h: int,
    aspect_milli: int,
) -> (int, int)
    recommends
        src_w >= 1,
        src_h >= 1,
        term_w >= 1,
        term_h >= 1,
        aspect_milli >= 1,
{
    if fits_to_width(src_w, src_h, term_w, term_h, aspect_milli) {
        let h0 = round_div(term_w * (src_h * aspect_milli), src_w * 1000);
        (term_w, clamp_spec(h0, 1, term_h))
    } else {
        let w0 = round_div(term_h * (src_w * 1000), src_h * aspect_milli);
        (clamp_spec(w0, 1, term_w), term_h)
    }
}

/// The source pixel a target cell `(x, y)` samples from under
/// nearest-neighbour scaling; positions outside the pixel buffer read
/// as black.
pub open spec fn source_pixel(
    data: Seq<u8>,
    src_w: int,
    src_h: int,
    tgt_w: int,
    tgt_h: int,
    x: int,
    y: int,
) -> (u8, u8, u8)
    recommends
        tgt_w >= 1,
        tgt_h >= 1,
{
    let sx = x * src_w / tgt_w;
    let sy = y * src_h / tgt_h;
    let idx = (sy * src_w + sx) * 3;
    if idx + 2 < data.len() {
        (data[idx], data[idx + 1], data[idx + 2])
    } else {
        (0u8, 0u8, 0u8)
    }
}

/// Cell `j` (in row-major order) of the resampled byte buffer holds
/// the source pixel it samples from.
pub open spec fn resized_cell_ok(
    resized: Seq<u8>,
    data: Seq<u8>,
    src_w: int,
    src_h: int,
    tgt_w: int,
    tgt_h: int,
    j: int,
) -> bool {
    let p = source_pixel(data, src_w, src_h, tgt_w, tgt_h, j % tgt_w, j / tgt_w);
    &&& resized[3 * j] == p.0
    &&& resized[3 * j + 1] == p.1
    &&& resized[3 * j + 2] == p.2
}

/// Cell `k` of the parallel output arrays is the mapping of the source
/// pixel it samples from.
pub open spec fn cell_maps_ok(
    cfg: ConversionParams,
    data: Seq<u8>,
    src_w: int,
    src_h: int,
    tgt_w: int,
    tgt_h: int,
    chars: Seq<char>,
    fgs: Seq<(u8, u8, u8)>,
    bgs: Seq<(u8, u8, u8)>,
    k: int,
) -> bool {
    let p = source_pixel(data, src_w, src_h, tgt_w, tgt_h, k % tgt_w, k / tgt_w);
    &&& chars[k] == cell_char_spec(cfg, p)
    &&& fgs[k] == cell_fg_spec(cfg, p)
    &&& bgs[k] == cell_bg_spec(cfg, p)
}

/// Cell `j` of a converted frame is the mapping of the source pixel it
/// samples from.
pub open spec fn cell_ok(
    cfg: ConversionParams,
    frame: VideoFrame,
    w: int,
    h: int,
    af: AsciiFrame,
    j: int,
) -> bool {
    let p = source_pixel(frame.data@, frame.width as int, frame.height as int, w, h, j % w, j / w);
    &&& af.characters@[j] == cell_char_spec(cfg, p)
    &&& af.fg_colors@[j] == cell_fg_spec(cfg, p)
    &&& (af.bg_colors matches Some(bg) ==> bg@[j] == cell_bg_spec(cfg, p))
}

/// The full contract of a conversion: the grid has the computed target
/// size, the parallel arrays cover it, backgrounds are present exactly
/// when the configuration is not transparent, every cell is the
/// mapping of its source pixel, and the timing metadata is carried
/// over.
pub open spec fn converted_frame_ok(
    cfg: ConversionParams,
    frame: VideoFrame,
    term_w: int,
    term_h: int,
    af: AsciiFrame,
) -> bool {
    let dims = target_dims_spec(
        frame.width as int,
        frame.height as int,
        term_w,
        term_h,
        cfg.aspect_ratio_milli,
    );
    let w = dims.0;
    let h = dims.1;
    &&& af.width == w
    &&& af.height == h
    &&& af.characters@.len() == w * h
    &&& af.fg_colors@.len() == w * h
    &&& (af.bg_colors is None <==> cfg.transparent)
    &&& (af.bg_colors matches Some(bg) ==> bg@.len() == w * h)
    &&& forall|j: int| 0 <= j < w * h ==> cell_ok(cfg, frame, w, h, af, j)
    &&& af.timestamp_ms == frame.timestamp_ms
    &&& af.frame_number == frame.frame_number
}

/// Converts raw frames into character grids under a fixed
/// configuration.
pub struct FrameConverter {
    /// The conversion configuration, fixed for the session.
    pub config: ConversionConfig,
}

impl FrameConverter {
    /// Creates a converter for the given configuration.
    pub fn new(config: ConversionConfig) -> (c: Self)
        ensures
            c.config == config,
    {
        FrameConverter { config }
    }

    /// Computes the rounded BT.709 luminance of a pixel.
    pub fn calculate_luminance(&self, r: u8, g: u8, b: u8) -> (l: u8)
        ensures
            l == luminance_spec(r, g, b),
    {
        proof {
            lemma_luminance_range(r, g, b);
        }
        let num: u64 = 2126 * (r as u64) + 7152 * (g as u64) + 722 * (b as u64) + 5000;
        (num / 10000) as u8
    }

    /// Maps a luminance value to an index into the configured ramp.
    pub fn luminance_to_char_index(&self, luminance: u8) -> (idx: usize)
        requires
            self.config@.wf(),
        ensures
            idx == char_index_spec(luminance as int, self.config@.ascii_chars.len() as int),
            idx < self.config@.ascii_chars.len(),
    {
        let n = self.config.ascii_chars.len();
        proof {
            assert((2 * (luminance as int)) * ((n - 1) as int) <= 510 * 0xFFFF_FFFF_FFFF_FFFFint)
                by (nonlinear_arith)
                requires
                    0 <= luminance <= 255,
                    1 <= n <= 0xFFFF_FFFF_FFFF_FFFFu64,
            ;
            lemma_char_index_range(luminance as int, n as int);
        }
        let num: u128 = 2 * (luminance as u128) * ((n - 1) as u128) + 255;
        let rounded = num / 510;
        if rounded > (n - 1) as u128 {
            n - 1
        } else {
            rounded as usize
        }
    }

    /// Applies the brightness and contrast adjustment to one channel.
    fn adjust_channel(&self, value: u8) -> (v: u8)
        requires
            self.config@.wf(),
        ensures
            v == adjust_channel_spec(
                value,
                self.config@.brightness_milli,
                self.config@.contrast_milli,
            ),
    {
        let base: i64 = (value as i64) * 1_000_000 + (self.config.brightness_milli as i64) * 255_000;
        proof {
            assert((base - 128_000_000) * (self.config@.contrast_milli) <= 766_000_000_000
                && (base - 128_000_000) * (self.config@.contrast_milli) >= -766_000_000_000)
                by (nonlinear_arith)
                requires
                    -383_000_000 <= base - 128_000_000 <= 382_000_000,
                    0 <= self.config@.contrast_milli <= 2000,
            ;
        }
        let scaled: i64 = (base - 128_000_000) * (self.config.contrast_milli as i64)
            + 128_000_000_000;
        let clamped: i64 = utils::clamp(scaled, 0, 255_000_000_000);
        ((clamped + 500_000_000) / 1_000_000_000) as u8
    }

    /// Applies the brightness and contrast adjustment to a pixel.
    pub fn adjust_color(&self, r: u8, g: u8, b: u8) -> (p: (u8, u8, u8))
        requires
            self.config@.wf(),
        ensures
            p == adjusted_pixel(self.config@, (r, g, b)),
    {
        (self.adjust_channel(r), self.adjust_channel(g), self.adjust_channel(b))
    }

    /// Maps one source pixel to its cell: glyph, foreground colour, and
    /// background colour (the caller drops the background in
    /// transparent mode).
    pub fn convert_pixel(&self, r: u8, g: u8, b: u8) -> (cell: (char, (u8, u8, u8), (u8, u8, u8)))
        requires
            self.config@.wf(),
        ensures
            cell.0 == cell_char_spec(self.config@, (r, g, b)),
            cell.1 == cell_fg_spec(self.config@, (r, g, b)),
            cell.2 == cell_bg_spec(self.config@, (r, g, b)),
    {
        let (adj_r, adj_g, adj_b) = self.adjust_color(r, g, b);
        if let Some(threshold) = self.config.alpha_threshold {
            let alpha = ((adj_r as u16) + (adj_g as u16) + (adj_b as u16)) / 3;
            if alpha < threshold as u16 {
                return (' ', (0, 0, 0), (0, 0, 0));
            }
        }
        let luminance = self.calculate_luminance(adj_r, adj_g, adj_b);
        let char_index = self.luminance_to_char_index(luminance);
        let ascii_char = self.config.ascii_chars[char_index];
        proof {
            lemma_luminance_range(adj_r, adj_g, adj_b);
        }
        match self.config.palette {
            ColorPalette::Ascii => (ascii_char, (255, 255, 255), (0, 0, 0)),
            ColorPalette::Grayscale => {
                let gray = luminance;
                (ascii_char, (gray, gray, gray), (0, 0, 0))
            },
            ColorPalette::Color => (
                ascii_char,
                (adj_r, adj_g, adj_b),
                (adj_r / 4, adj_g / 4, adj_b / 4),
            ),
        }
    }

    /// Computes the character-grid size the source is scaled to:
    /// within the terminal on both axes, at least one cell each, and
    /// exactly the fitted size of [`target_dims_spec`].
    pub fn calculate_target_dimensions(
        &self,
        src_width: u32,
        src_height: u32,
        term_width: u16,
        term_height: u16,
    ) -> (dims: (u16, u16))
        requires
            self.config@.wf(),
            src_width >= 1,
            src_height >= 1,
            term_width >= 1,
            term_height >= 1,
        ensures
            (dims.0 as int, dims.1 as int) == target_dims_spec(
                src_width as int,
                src_height as int,
                term_width as int,
                term_height as int,
                self.config@.aspect_ratio_milli,
            ),
            1 <= dims.0 <= term_width,
            1 <= dims.1 <= term_height,
    {
        let a = self.config.aspect_ratio_milli as u128;
        let sw = src_width as u128;
        let sh = src_height as u128;
        let tw = term_width as u128;
        let th = term_height as u128;
        proof {
            assert((th as int) * (a as int) <= 0x1_0000_0000_0000int
                && (sh as int) * 1000 <= 0x1_0000_0000_0000int
                && (sh as int) * (a as int) <= 0x1_0000_0000_0000int
                && (sw as int) * 1000 <= 0x1_0000_0000_0000int
                && (sw as int) * ((th as int) * (a as int)) <= 0x1_0000_0000_0000_0000_0000int
                && (tw as int) * ((sh as int) * 1000) <= 0x1_0000_0000_0000_0000_0000int
                && (tw as int) * ((sh as int) * (a as int)) <= 0x1_0000_0000_0000_0000_0000int
                && (th as int) * ((sw as int) * 1000) <= 0x1_0000_0000_0000_0000_0000int)
                by (nonlinear_arith)
                requires
                    1 <= sw <= 0xFFFF_FFFFu64,
                    1 <= sh <= 0xFFFF_FFFFu64,
                    1 <= tw <= 0xFFFFu64,
                    1 <= th <= 0xFFFFu64,
                    1 <= a <= 10000,
            ;
        }
        if sw * (th * a) > tw * (sh * 1000) {
            let num = tw * (sh * a);
            let den = sw * 1000;
            let h0 = (2 * num + den) / (2 * den);
            let h1 = if h0 > th {
                th
            } else {
                h0
            };
            let h2 = if h1 < 1 {
                1
            } else {
                h1
            };
            (term_width, h2 as u16)
        } else {
            let num = th * (sw * 1000);
            let den = sh * a;
            proof {
                assert((sh as int) * (a as int) >= 1) by (nonlinear_arith)
                    requires
                        sh >= 1,
                        a >= 1,
                ;
            }
            let w0 = (2 * num + den) / (2 * den);
            let w1 = if w0 > tw {
                tw
            } else {
                w0
            };
            let w2 = if w1 < 1 {
                1
            } else {
                w1
            };
            (w2 as u16, term_height)
        }
    }

    /// Resamples the pixel buffer to the target grid by nearest
    /// neighbour; cells that fall outside the buffer become black.
    #[verifier::loop_isolation(false)]
    fn resize_frame_data(
        &self,
        data: &[u8],
        src_width: u32,
        src_height: u32,
        target_width: u32,
        target_height: u32,
    ) -> (resized: Vec<u8>)
        requires
            src_width >= 1,
            src_height >= 1,
            1 <= target_width <= 0xFFFF,
            1 <= target_height <= 0xFFFF,
            3 * (target_width * target_height) <= usize::MAX,
        ensures
            resized@.len() == 3 * (target_width * target_height),
            forall|j: int|
                0 <= j < target_width * target_height ==> resized_cell_ok(
                    resized@,
                    data@,
                    src_width as int,
                    src_height as int,
                    target_width as int,
                    target_height as int,
                    j,
                ),
    {
        let tw = target_width as u64;
        let th = target_height as u64;
        let sw = src_width as u64;
        let sh = src_height as u64;
        proof {
            assert((tw as int) * (th as int) <= 0xFFFF_FFFFint) by (nonlinear_arith)
                requires
                    1 <= tw <= 0xFFFFu64,
                    1 <= th <= 0xFFFFu64,
            ;
        }
        let n = tw * th;
        let mut resized: Vec<u8> = Vec::new();
        let mut j: u64 = 0;
        while j < n
            invariant
                0 <= j <= n,
                resized@.len() == 3 * j,
                forall|k: int|
                    0 <= k < j ==> resized_cell_ok(
                        resized@,
                        data@,
                        src_width as int,
                        src_height as int,
                        target_width as int,
                        target_height as int,
                        k,
                    ),
            decreases n - j,
        {
            let x = j % tw;
            let y = j / tw;
            proof {
                lemma_multiply_divide_lt(j as int, tw as int, th as int);
                assert(x < tw && y < th);
                assert((x as int) * (sw as int) < 0x1_0000_0000_0000_0000int
                    && (y as int) * (sh as int) < 0x1_0000_0000_0000_0000int) by (nonlinear_arith)
                    requires
                        0 <= x < 0x1_0000u64,
                        0 <= y < 0x1_0000u64,
                        1 <= sw <= 0xFFFF_FFFFu64,
                        1 <= sh <= 0xFFFF_FFFFu64,
                ;
            }
            let sx = x * sw / tw;
            let sy = y * sh / th;
            proof {
                assert((x as int) * (sw as int) < (tw as int) * (sw as int)) by (nonlinear_arith)
                    requires
                        0 <= x < tw,
                        1 <= sw,
                ;
                assert((y as int) * (sh as int) < (th as int) * (sh as int)) by (nonlinear_arith)
                    requires
                        0 <= y < th,
                        1 <= sh,
                ;
                lemma_multiply_divide_lt((x as int) * (sw as int), tw as int, sw as int);
                lemma_multiply_divide_lt((y as int) * (sh as int), th as int, sh as int);
                assert(sx < sw && sy < sh);
                assert((sy as int) * (sw as int) + (sx as int) < 0x1_0000_0000_0000_0000int)
                    by (nonlinear_arith)
                    requires
                        0 <= sy < sh <= 0xFFFF_FFFFu64,
                        0 <= sx < sw <= 0xFFFF_FFFFu64,
                ;
            }
            let pix = sy * sw + sx;
            let idx: u128 = (pix as u128) * 3;
            let ghost pre = resized@;
            if idx + 2 < data.len() as u128 {
                let i = idx as usize;
                let r = data[i];
                let g = data[i + 1];
                let b = data[i + 2];
                resized.push(r);
                resized.push(g);
                resized.push(b);
            } else {
                resized.push(0);
                resized.push(0);
                resized.push(0);
            }
            proof {
                assert forall|k: int| 0 <= k < j + 1 implies resized_cell_ok(
                    resized@,
                    data@,
                    src_width as int,
                    src_height as int,
                    target_width as int,
                    target_height as int,
                    k,
                ) by {
                    if k < j {
                        assert(resized_cell_ok(
                            pre,
                            data@,
                            src_width as int,
                            src_height as int,
                            target_width as int,
                            target_height as int,
                            k,
                        ));
                        assert(resized@[3 * k] == pre[3 * k]);
                        assert(resized@[3 * k + 1] == pre[3 * k + 1]);
                        assert(resized@[3 * k + 2] == pre[3 * k + 2]);
                    } else {
                        assert(k == j);
                        assert(3 * k == pre.len());
                    }
                }
            }
            j = j + 1;
        }
        resized
    }

    /// Converts one raw frame into a character grid sized for the
    /// given terminal. Succeeds on every input the player produces;
    /// truncated or missing pixel data degrades to black cells rather
    /// than failing.
    #[verifier::loop_isolation(false)]
    pub fn convert_frame(
        &self,
        frame: &VideoFrame,
        terminal_width: u16,
        terminal_height: u16,
    ) -> (r: Result<AsciiFrame, crate::AsciiPlayerError>)
        requires
            self.config@.wf(),
            frame.width >= 1,
            frame.height >= 1,
            terminal_width >= 1,
            terminal_height >= 1,
            3 * ((terminal_width as int) * (terminal_height as int)) <= usize::MAX,
        ensures
            r matches Ok(af) && converted_frame_ok(
                self.config@,
                *frame,
                terminal_width as int,
                terminal_height as int,
                af,
            ),
            r matches Ok(af) && af.wf(),
    {
        let (target_width, target_height) = self.calculate_target_dimensions(
            frame.width,
            frame.height,
            terminal_width,
            terminal_height,
        );
        proof {
            assert((target_width as int) * (target_height as int) <= (terminal_width as int) * (
            terminal_height as int)) by (nonlinear_arith)
                requires
                    1 <= target_width <= terminal_width,
                    1 <= target_height <= terminal_height,
            ;
            assert(3 * ((target_width as int) * (target_height as int)) <= usize::MAX);
        }
        let resized = self.resize_frame_data(
            frame.data.as_slice(),
            frame.width,
            frame.height,
            target_width as u32,
            target_height as u32,
        );
        let w = target_width as usize;
        let h = target_height as usize;
        proof {
            assert((w as int) * (h as int) == (target_width as int) * (target_height as int));
            assert(resized@.len() == 3 * ((target_width as int) * (target_height as int)));
        }
        let n = w * h;
        let mut characters: Vec<char> = Vec::new();
        let mut fg_colors: Vec<(u8, u8, u8)> = Vec::new();
        let mut bg_vec: Vec<(u8, u8, u8)> = Vec::new();
        let mut j: usize = 0;
        while j < n
            invariant
                0 <= j <= n,
                characters@.len() == j,
                fg_colors@.len() == j,
                bg_vec@.len() == j,
                forall|k: int|
                    0 <= k < j ==> cell_maps_ok(
                        self.config@,
                        frame.data@,
                        frame.width as int,
                        frame.height as int,
                        target_width as int,
                        target_height as int,
                        characters@,
                        fg_colors@,
                        bg_vec@,
                        k,
                    ),
            decreases n - j,
        {
            let base = 3 * j;
            let r = resized[base];
            let g = resized[base + 1];
            let b = resized[base + 2];
            let (ch, fg, bg) = self.convert_pixel(r, g, b);
            proof {
                assert(resized_cell_ok(
                    resized@,
                    frame.data@,
                    frame.width as int,
                    frame.height as int,
                    target_width as int,
                    target_height as int,
                    j as int,
                ));
                let p = source_pixel(
                    frame.data@,
                    frame.width as int,
                    frame.height as int,
                    target_width as int,
                    target_height as int,
                    (j as int) % (target_width as int),
                    (j as int) / (target_width as int),
                );
                assert(p == (r, g, b));
            }
            let ghost pre_chars = characters@;
            let ghost pre_fg = fg_colors@;
            let ghost pre_bg = bg_vec@;
            characters.push(ch);
            fg_colors.push(fg);
            bg_vec.push(bg);
            proof {
                assert forall|k: int| 0 <= k < j + 1 implies cell_maps_ok(
                    self.config@,
                    frame.data@,
                    frame.width as int,
                    frame.height as int,
                    target_width as int,
                    target_height as int,
                    characters@,
                    fg_colors@,
                    bg_vec@,
                    k,
                ) by {
                    if k < j {
                        assert(cell_maps_ok(
                            self.config@,
                            frame.data@,
                            frame.width as int,
                            frame.height as int,
                            target_width as int,
                            target_height as int,
                            pre_chars,
                            pre_fg,
                            pre_bg,
                            k,
                        ));
                        assert(characters@[k] == pre_chars[k]);
                        assert(fg_colors@[k] == pre_fg[k]);
                        assert(bg_vec@[k] == pre_bg[k]);
                    } else {
                        assert(characters@[k] == ch);
                        assert(fg_colors@[k] == fg);
                        assert(bg_vec@[k] == bg);
                    }
                }
            }
            j = j + 1;
        }
        let ghost g_chars = characters@;
        let ghost g_fg = fg_colors@;
        let ghost g_bg = bg_vec@;
        let bg_colors = if self.config.transparent {
            None
        } else {
            Some(bg_vec)
        };
        let af = AsciiFrame {
            characters,
            fg_colors,
            bg_colors,
            width: target_width,
            height: target_height,
            timestamp_ms: frame.timestamp_ms,
            frame_number: frame.frame_number,
        };
        proof {
            assert forall|k: int|
                0 <= k < (target_width as int) * (target_height as int) implies cell_ok(
                self.config@,
                *frame,
                target_width as int,
                target_height as int,
                af,
                k,
            ) by {
                assert(cell_maps_ok(
                    self.config@,
                    frame.data@,
                    frame.width as int,
                    frame.height as int,
                    target_width as int,
                    target_height as int,
                    g_chars,
                    g_fg,
                    g_bg,
                    k,
                ));
                assert(af.characters@ == g_chars);
                assert(af.fg_colors@ == g_fg);
            }
        }
        Ok(af)
    }
}

/// Converts a frame with the stock configuration and the given ramp.
#[verifier::loop_isolation(false)]
pub fn frame_to_ascii(
    frame: &VideoFrame,
    terminal_width: u16,
    terminal_height: u16,
    ascii_chars: &[char],
) -> (af: AsciiFrame)
    requires
        ascii_chars@.len() >= 1,
        frame.width >= 1,
        frame.height >= 1,
        terminal_width >= 1,
        terminal_height >= 1,
        3 * ((terminal_width as int) * (terminal_height as int)) <= usize::MAX,
    ensures
        converted_frame_ok(
            ConversionParams { ascii_chars: ascii_chars@, ..default_params() },
            *frame,
            terminal_width as int,
            terminal_height as int,
            af,
        ),
        af.wf(),
{
    let mut ramp: Vec<char> = Vec::new();
    let mut i: usize = 0;
    while i < ascii_chars.len()
        invariant
            0 <= i <= ascii_chars@.len(),
            ramp@ == ascii_chars@.subrange(0, i as int),
        decreases ascii_chars@.len() - i,
    {
        ramp.push(ascii_chars[i]);
        proof {
            assert(ramp@ =~= ascii_chars@.subrange(0, i + 1));
        }
        i = i + 1;
    }
    proof {
        assert(ramp@ =~= ascii_chars@);
    }
    let config = ConversionConfig {
        ascii_chars: ramp,
        palette: ColorPalette::Color,
        transparent: false,
        alpha_threshold: None,
        aspect_ratio_milli: 500,
        brightness_milli: 0,
        contrast_milli: 1000,
    };
    proof {
        assert(config@ =~= ConversionParams { ascii_chars: ascii_chars@, ..default_params() });
    }
    let converter = FrameConverter::new(config);
    match converter.convert_frame(frame, terminal_width, terminal_height) {
        Ok(af) => af,
        Err(_) => {
            proof {
                assert(false);
            }
            AsciiFrame {
                characters: Vec::new(),
                fg_colors: Vec::new(),
                bg_colors: None,
                width: 0,
                height: 0,
                timestamp_ms: 0,
                frame_number: 0,
            }
        },
    }
}

} // verus!
