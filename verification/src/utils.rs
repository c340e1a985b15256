//! Small numeric and formatting helpers shared by the player.

use vstd::prelude::*;
use vstd::string::StringExecFns;
use crate::options::ColorPalette;

verus! {

/// Clamps `value` into the inclusive range `[min, max]`.
pub fn clamp(value: i64, min: i64, max: i64) -> (r: i64)
    requires
        min <= max,
    ensures
        r == if value < min {
            min
        } else if value > max {
            max
        } else {
            value
        },
        min <= r <= max,
{
    if value < min {
        min
    } else if value > max {
        max
    } else {
        value
    }
}

/// The plain character ramp, darkest glyph first.
pub open spec fn default_ramp() -> Seq<char> {
    seq![' ', '.', ':', '-', '=', '+', '*', '#', '%', '@']
}

/// The block character ramp, darkest glyph first.
pub open spec fn block_ramp() -> Seq<char> {
    seq![' ', '\u{2591}', '\u{2592}', '\u{2593}', '\u{2588}']
}

/// The ramp each palette selects: plain glyphs for the ASCII palette,
/// block glyphs for the grayscale and colour palettes.
pub open spec fn ramp_for_palette(palette: ColorPalette) -> Seq<char> {
    match palette {
        ColorPalette::Ascii => default_ramp(),
        ColorPalette::Grayscale => block_ramp(),
        ColorPalette::Color => block_ramp(),
    }
}

/// Builds the character ramp for the given palette.
pub fn get_ascii_chars(palette: &ColorPalette) -> (chars: Vec<char>)
    ensures
        chars@ == ramp_for_palette(*palette),
        chars@.len() >= 1,
{
    let mut chars: Vec<char> = Vec::new();
    match palette {
        ColorPalette::Ascii => {
            chars.push(' ');
            chars.push('.');
            chars.push(':');
            chars.push('-');
            chars.push('=');
            chars.push('+');
            chars.push('*');
            chars.push('#');
            chars.push('%');
            chars.push('@');
            proof {
                assert(chars@ =~= default_ramp());
            }
        },
        _ => {
            chars.push(' ');
            chars.push('\u{2591}');
            chars.push('\u{2592}');
            chars.push('\u{2593}');
            chars.push('\u{2588}');
            proof {
                assert(chars@ =~= block_ramp());
            }
        },
    }
    chars
}

/// The lines of a text, split on newline characters. A trailing
/// newline ends the last line without starting an empty one, so an
/// empty text has no lines at all.
pub open spec fn lines_of(s: Seq<char>) -> Seq<Seq<char>>
    decreases s.len(),
{
    if s.len() == 0 {
        Seq::<Seq<char>>::empty()
    } else if s[0] == '\n' {
        seq![Seq::<char>::empty()] + lines_of(s.drop_first())
    } else {
        let rest = lines_of(s.drop_first());
        if rest.len() == 0 {
            seq![seq![s[0]]]
        } else {
            seq![seq![s[0]] + rest[0]] + rest.drop_first()
        }
    }
}

/// Law: a text has at most one line per character.
pub proof fn lemma_lines_of_len(s: Seq<char>)
    ensures
        lines_of(s).len() <= s.len(),
    decreases s.len(),
{
    if s.len() > 0 {
        lemma_lines_of_len(s.drop_first());
    }
}

/// Law: no line is longer than the text it was cut from.
pub proof fn lemma_lines_of_line_len(s: Seq<char>, i: int)
    requires
        0 <= i < lines_of(s).len(),
    ensures
        lines_of(s)[i].len() <= s.len(),
    decreases s.len(),
{
    if s.len() > 0 {
        let rest = lines_of(s.drop_first());
        if s[0] == '\n' {
            if i > 0 {
                lemma_lines_of_line_len(s.drop_first(), i - 1);
            }
        } else {
            if rest.len() > 0 {
                if i == 0 {
                    lemma_lines_of_line_len(s.drop_first(), 0);
                } else {
                    lemma_lines_of_line_len(s.drop_first(), i);
                }
            }
        }
    }
}

/// The lines of the whole text, given the lines already closed, the
/// open line, and the lines of the remaining text.
spec fn glue_lines(cur: Seq<char>, rest: Seq<Seq<char>>) -> Seq<Seq<char>> {
    if rest.len() == 0 {
        if cur.len() == 0 {
            Seq::<Seq<char>>::empty()
        } else {
            seq![cur]
        }
    } else {
        seq![cur + rest[0]] + rest.drop_first()
    }
}

/// How [`lines_of`] steps across one character of the text.
proof fn lemma_lines_of_step(s: Seq<char>, i: int)
    requires
        0 <= i < s.len(),
    ensures
        s[i] == '\n' ==> lines_of(s.skip(i)) == seq![Seq::<char>::empty()] + lines_of(
            s.skip(i + 1),
        ),
        s[i] != '\n' ==> lines_of(s.skip(i)) == ({
            let rest = lines_of(s.skip(i + 1));
            if rest.len() == 0 {
                seq![seq![s[i]]]
            } else {
                seq![seq![s[i]] + rest[0]] + rest.drop_first()
            }
        }),
{
    assert(s.skip(i).len() == s.len() - i);
    assert(s.skip(i)[0] == s[i]);
    assert(s.skip(i).drop_first() =~= s.skip(i + 1));
}

/// Splits a text into its lines, cutting at each newline character.
#[verifier::loop_isolation(false)]
pub fn split_lines(text: &Vec<char>) -> (lines: Vec<Vec<char>>)
    ensures
        lines.deep_view() == lines_of(text@),
{
    let mut lines: Vec<Vec<char>> = Vec::new();
    let mut cur: Vec<char> = Vec::new();
    proof {
        assert(text@.skip(0) =~= text@);
        assert(lines.deep_view() =~~= Seq::<Seq<char>>::empty());
        assert(lines_of(text@) =~~= lines.deep_view() + glue_lines(cur@, lines_of(text@.skip(0))));
    }
    let mut i: usize = 0;
    while i < text.len()
        invariant
            0 <= i <= text@.len(),
            lines_of(text@) == lines.deep_view() + glue_lines(cur@, lines_of(text@.skip(i as int))),
        decreases text@.len() - i,
    {
        proof {
            lemma_lines_of_step(text@, i as int);
        }
        let c = text[i];
        if c == '\n' {
            let ghost pre = lines.deep_view();
            let ghost pre_cur = cur@;
            lines.push(cur);
            cur = Vec::new();
            proof {
                assert(lines.deep_view() =~~= pre.push(pre_cur));
                let rest1 = lines_of(text@.skip(i as int + 1));
                assert(glue_lines(pre_cur, lines_of(text@.skip(i as int))) =~~= seq![pre_cur]
                    + glue_lines(cur@, rest1));
                assert(lines_of(text@) =~~= lines.deep_view() + glue_lines(
                    cur@,
                    lines_of(text@.skip(i as int + 1)),
                ));
            }
        } else {
            let ghost pre_cur = cur@;
            cur.push(c);
            proof {
                let rest1 = lines_of(text@.skip(i as int + 1));
                assert(glue_lines(pre_cur, lines_of(text@.skip(i as int))) =~~= glue_lines(
                    cur@,
                    rest1,
                ));
            }
        }
        i = i + 1;
    }
    proof {
        assert(text@.skip(text@.len() as int) =~= Seq::<char>::empty());
        assert(lines_of(Seq::<char>::empty()).len() == 0);
    }
    if cur.len() > 0 {
        let ghost pre = lines.deep_view();
        let ghost pre_cur = cur@;
        lines.push(cur);
        proof {
            assert(lines.deep_view() =~~= pre.push(pre_cur));
            assert(lines.deep_view() =~~= lines_of(text@));
        }
    } else {
        proof {
            assert(lines.deep_view() =~~= lines_of(text@));
        }
    }
    lines
}

/// The decimal digit glyph for `d`.
pub open spec fn digit_char(d: int) -> char
    recommends
        0 <= d < 10,
{
    if d == 0 {
        '0'
    } else if d == 1 {
        '1'
    } else if d == 2 {
        '2'
    } else if d == 3 {
        '3'
    } else if d == 4 {
        '4'
    } else if d == 5 {
        '5'
    } else if d == 6 {
        '6'
    } else if d == 7 {
        '7'
    } else if d == 8 {
        '8'
    } else {
        '9'
    }
}

/// The decimal rendering of `n`, without leading zeros.
pub open spec fn dec_digits(n: nat) -> Seq<char>
    decreases n,
{
    if n < 10 {
        seq![digit_char(n as int)]
    } else {
        dec_digits(n / 10).push(digit_char((n % 10) as int))
    }
}

/// The two-digit, zero-padded rendering of `n`.
pub open spec fn two_digits(n: int) -> Seq<char>
    recommends
        0 <= n < 100,
{
    seq![digit_char(n / 10), digit_char(n % 10)]
}

/// A value in tenths, rendered with one decimal place.
pub open spec fn one_decimal(deci: nat) -> Seq<char> {
    dec_digits(deci / 10) + seq!['.'] + seq![digit_char((deci % 10) as int)]
}

/// A value in hundredths, rendered with two decimal places.
pub open spec fn two_decimal(centi: nat) -> Seq<char> {
    dec_digits(centi / 100) + seq!['.'] + two_digits((centi % 100) as int)
}

/// A duration of `total_seconds`, rendered as `h:mm:ss`, or `m:ss` when
/// it is under an hour.
pub open spec fn format_duration_spec(total_seconds: nat) -> Seq<char> {
    let hours = total_seconds / 3600;
    let minutes = (total_seconds % 3600) / 60;
    let secs = total_seconds % 60;
    if hours > 0 {
        dec_digits(hours) + seq![':'] + two_digits(minutes as int) + seq![':'] + two_digits(
            secs as int,
        )
    } else {
        dec_digits(minutes) + seq![':'] + two_digits(secs as int)
    }
}

/// The one-character string for the decimal digit `d`.
fn digit_str(d: u64) -> (s: &'static str)
    requires
        d < 10,
    ensures
        s@ == seq![digit_char(d as int)],
{
    proof {
        reveal_strlit("0");
        reveal_strlit("1");
        reveal_strlit("2");
        reveal_strlit("3");
        reveal_strlit("4");
        reveal_strlit("5");
        reveal_strlit("6");
        reveal_strlit("7");
        reveal_strlit("8");
        reveal_strlit("9");
    }
    let s = match d {
        0 => "0",
        1 => "1",
        2 => "2",
        3 => "3",
        4 => "4",
        5 => "5",
        6 => "6",
        7 => "7",
        8 => "8",
        _ => "9",
    };
    proof {
        assert(s@ =~= seq![digit_char(d as int)]);
    }
    s
}

/// Appends the decimal rendering of `n` to `out`.
pub(crate) fn append_decimal(out: &mut String, n: u64)
    ensures
        final(out)@ == old(out)@ + dec_digits(n as nat),
    decreases n,
{
    if n >= 10 {
        append_decimal(out, n / 10);
    }
    out.append(digit_str(n % 10));
    proof {
        if n >= 10 {
            assert(out@ =~= old(out)@ + dec_digits(n as nat));
        } else {
            assert(out@ =~= old(out)@ + dec_digits(n as nat));
        }
    }
}

/// Appends the two-digit, zero-padded rendering of `n` to `out`.
fn append_two_digits(out: &mut String, n: u64)
    requires
        n < 100,
    ensures
        final(out)@ == old(out)@ + two_digits(n as int),
{
    out.append(digit_str(n / 10));
    out.append(digit_str(n % 10));
    proof {
        assert(out@ =~= old(out)@ + two_digits(n as int));
    }
}

/// Appends a value in tenths with one decimal place to `out`.
pub(crate) fn append_one_decimal(out: &mut String, deci: u64)
    ensures
        final(out)@ == old(out)@ + one_decimal(deci as nat),
{
    proof {
        reveal_strlit(".");
    }
    append_decimal(out, deci / 10);
    out.append(".");
    out.append(digit_str(deci % 10));
    proof {
        assert(out@ =~= old(out)@ + one_decimal(deci as nat));
    }
}

/// Appends a value in hundredths with two decimal places to `out`.
pub(crate) fn append_two_decimal(out: &mut String, centi: u64)
    ensures
        final(out)@ == old(out)@ + two_decimal(centi as nat),
{
    proof {
        reveal_strlit(".");
    }
    append_decimal(out, centi / 100);
    out.append(".");
    append_two_digits(out, centi % 100);
    proof {
        assert(out@ =~= old(out)@ + two_decimal(centi as nat));
    }
}

/// Renders a duration in seconds as `h:mm:ss`, or `m:ss` under an hour.
pub fn format_duration(total_seconds: u64) -> (r: String)
    ensures
        r@ == format_duration_spec(total_seconds as nat),
{
    proof {
        reveal_strlit(":");
    }
    let hours = total_seconds / 3600;
    let minutes = (total_seconds % 3600) / 60;
    let secs = total_seconds % 60;
    assert(minutes < 60);
    assert(secs < 60);
    let mut r = String::new();
    if hours > 0 {
        append_decimal(&mut r, hours);
        r.append(":");
        append_two_digits(&mut r, minutes);
        r.append(":");
        append_two_digits(&mut r, secs);
    } else {
        append_decimal(&mut r, minutes);
        r.append(":");
        append_two_digits(&mut r, secs);
    }
    proof {
        assert(r@ =~= format_duration_spec(total_seconds as nat));
    }
    r
}

} // verus!
