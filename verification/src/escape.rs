//! Taking the color out again: a box without its escape sequences is the
//! box that was drawn without color.

use vstd::prelude::*;
use crate::formatting::Formatting;
use crate::helper::{lacks, lines_of, unlines};
use crate::layout::{
    border_glyphs, box_rows, content_lines, content_width, interior_width, left_pad,
    lemma_rendered_rows, render, repeat, right_pad,
};
use crate::lines::color::{ansi_number, decimal, escape_prefix, paint, reset_code, ColorSpec};
use crate::lines::{style_glyphs, Glyphs};
use crate::text::{from_chars, spaces, to_chars};
use crate::wrapping::lemma_normalized_lacks;

verus! {

/// The character that starts an escape sequence.
pub const ESCAPE: char = '\x1B';

/// What is left of `s` when its escape sequences are taken out. A
/// sequence runs from an escape character to the next `m`; with `inside`
/// set, `s` starts in the middle of one.
pub open spec fn strip_from(s: Seq<char>, inside: bool) -> Seq<char>
    decreases s.len(),
{
    if s.len() == 0 {
        Seq::empty()
    } else if inside {
        strip_from(s.skip(1), s[0] != 'm')
    } else if s[0] == ESCAPE {
        strip_from(s.skip(1), true)
    } else {
        seq![s[0]] + strip_from(s.skip(1), false)
    }
}

/// Whether the end of `s` is in the middle of an escape sequence.
pub open spec fn inside_after(s: Seq<char>, inside: bool) -> bool
    decreases s.len(),
{
    if s.len() == 0 {
        inside
    } else if inside {
        inside_after(s.skip(1), s[0] != 'm')
    } else {
        inside_after(s.skip(1), s[0] == ESCAPE)
    }
}

/// `s` without its escape sequences.
pub open spec fn stripped(s: Seq<char>) -> Seq<char> {
    strip_from(s, false)
}

/// `s` without its escape sequences is `plain`, and `s` ends outside of
/// any sequence.
pub open spec fn strips_to(s: Seq<char>, plain: Seq<char>) -> bool {
    strip_from(s, false) == plain && !inside_after(s, false)
}

/// Row by row, `colored` without escape sequences is `plain`.
pub open spec fn rows_strip_to(colored: Seq<Seq<char>>, plain: Seq<Seq<char>>) -> bool {
    &&& colored.len() == plain.len()
    &&& forall|i: int| 0 <= i < colored.len() ==> strips_to(#[trigger] colored[i], plain[i])
}

/// Glyph by glyph, `colored` without escape sequences is `plain`.
pub open spec fn glyphs_strip_to(colored: Glyphs, plain: Glyphs) -> bool {
    &&& strips_to(colored.horizontal, plain.horizontal)
    &&& strips_to(colored.vertical, plain.vertical)
    &&& strips_to(colored.top_left, plain.top_left)
    &&& strips_to(colored.top_right, plain.top_right)
    &&& strips_to(colored.bottom_left, plain.bottom_left)
    &&& strips_to(colored.bottom_right, plain.bottom_right)
}

/// Removes the escape sequences from `text`.
pub fn strip_escapes(text: &String) -> (out: String)
    ensures
        out@ == stripped(text@),
{
    let chars = to_chars(text.as_str());
    let mut kept: Vec<char> = Vec::new();
    let mut inside = false;
    let mut i: usize = 0;
    proof {
        assert(chars@.skip(0) =~= chars@);
    }
    while i < chars.len()
        invariant
            i <= chars.len(),
            stripped(chars@) == kept@ + strip_from(chars@.skip(i as int), inside),
        decreases chars.len() - i,
    {
        let c = chars[i];
        proof {
            assert(chars@.skip(i as int).skip(1) =~= chars@.skip(i + 1));
        }
        if inside {
            inside = c != 'm';
        } else if c == ESCAPE {
            inside = true;
        } else {
            kept.push(c);
        }
        i += 1;
    }
    from_chars(kept.as_slice())
}

/// Stripping goes through a text piece by piece.
pub proof fn lemma_strip_concat(a: Seq<char>, b: Seq<char>, inside: bool)
    ensures
        strip_from(a + b, inside) == strip_from(a, inside) + strip_from(
            b,
            inside_after(a, inside),
        ),
        inside_after(a + b, inside) == inside_after(b, inside_after(a, inside)),
    decreases a.len(),
{
    if a.len() > 0 {
        assert((a + b).skip(1) =~= a.skip(1) + b);
        if inside {
            lemma_strip_concat(a.skip(1), b, a[0] != 'm');
        } else if a[0] == ESCAPE {
            lemma_strip_concat(a.skip(1), b, true);
        } else {
            lemma_strip_concat(a.skip(1), b, false);
        }
    }
}

/// Two pieces that strip to two plain ones strip, joined, to these joined.
pub proof fn lemma_strips_to_concat(a: Seq<char>, pa: Seq<char>, b: Seq<char>, pb: Seq<char>)
    requires
        strips_to(a, pa),
        strips_to(b, pb),
    ensures
        strips_to(a + b, pa + pb),
{
    lemma_strip_concat(a, b, false);
}

/// Text without an escape character is left as it is.
pub proof fn lemma_strip_plain(s: Seq<char>)
    requires
        lacks(s, ESCAPE),
    ensures
        strips_to(s, s),
    decreases s.len(),
{
    if s.len() > 0 {
        let t = s.skip(1);
        lemma_strip_plain(t);
        assert(seq![s[0]] + t =~= s);
    } else {
        assert(strip_from(s, false) =~= s);
    }
}

/// Inside a sequence, text without an `m` is dropped and the sequence
/// goes on.
pub proof fn lemma_strip_inside(s: Seq<char>)
    requires
        lacks(s, 'm'),
    ensures
        strip_from(s, true) == Seq::<char>::empty(),
        inside_after(s, true),
    decreases s.len(),
{
    if s.len() > 0 {
        lemma_strip_inside(s.skip(1));
    }
}

/// An escape character, parameters without an `m`, and an `m` make one
/// sequence, of which nothing is left.
pub proof fn lemma_strip_sequence(body: Seq<char>)
    requires
        lacks(body, 'm'),
    ensures
        strips_to(seq![ESCAPE] + body + seq!['m'], Seq::empty()),
{
    let s = seq![ESCAPE] + body + seq!['m'];
    let end = seq!['m'];
    assert(s.skip(1) =~= body + end);
    lemma_strip_concat(body, end, true);
    lemma_strip_inside(body);
    assert(strip_from(end.skip(1), false) =~= Seq::<char>::empty());
    assert(!inside_after(end.skip(1), false));
}

/// A number in decimal holds no `m`.
pub proof fn lemma_decimal_lacks_m(n: nat)
    ensures
        lacks(decimal(n), 'm'),
    decreases n,
{
    if n >= 10 {
        lemma_decimal_lacks_m(n / 10);
    }
}

/// The escape sequence of a color is one sequence.
pub proof fn lemma_strip_prefix(choice: ColorSpec)
    ensures
        strips_to(escape_prefix(choice), Seq::empty()),
{
    match choice {
        ColorSpec::Plain => {},
        ColorSpec::Indexed(n) => {
            lemma_decimal_lacks_m(n as nat);
            let body = seq!['[', '3', '8', ';', '5', ';'] + decimal(n as nat);
            lemma_strip_sequence(body);
            assert(escape_prefix(choice) =~= seq![ESCAPE] + body + seq!['m']);
        },
        ColorSpec::Rgb(r, g, b) => {
            lemma_decimal_lacks_m(r as nat);
            lemma_decimal_lacks_m(g as nat);
            lemma_decimal_lacks_m(b as nat);
            let body = seq!['[', '3', '8', ';', '2', ';'] + decimal(r as nat) + seq![';']
                + decimal(g as nat) + seq![';'] + decimal(b as nat);
            lemma_strip_sequence(body);
            assert(escape_prefix(choice) =~= seq![ESCAPE] + body + seq!['m']);
        },
        ColorSpec::Named(code) => {
            lemma_decimal_lacks_m(ansi_number(code) as nat);
            let body = seq!['['] + decimal(ansi_number(code) as nat);
            lemma_strip_sequence(body);
            assert(escape_prefix(choice) =~= seq![ESCAPE] + body + seq!['m']);
        },
    }
}

/// Colored text without an escape character of its own strips to what
/// it was before it was colored.
pub proof fn lemma_strip_paint(text: Seq<char>, choice: ColorSpec)
    requires
        lacks(text, ESCAPE),
    ensures
        strips_to(paint(text, choice), text),
{
    lemma_strip_plain(text);
    if choice != ColorSpec::Plain {
        let empty = Seq::<char>::empty();
        lemma_strip_prefix(choice);
        let body = seq!['[', '0'];
        lemma_strip_sequence(body);
        assert(reset_code() =~= seq![ESCAPE] + body + seq!['m']);
        lemma_strips_to_concat(escape_prefix(choice), empty, text, text);
        lemma_strips_to_concat(escape_prefix(choice) + text, empty + text, reset_code(), empty);
    }
}

/// The glyphs of every border style, in any color, strip to the plain
/// glyphs of that style.
pub proof fn lemma_strip_glyphs(format: Formatting, choice: ColorSpec)
    ensures
        glyphs_strip_to(border_glyphs(format, choice), border_glyphs(format, ColorSpec::Plain)),
{
    let plain = style_glyphs(format.border_style);
    lemma_strip_paint(plain.horizontal, choice);
    lemma_strip_paint(plain.vertical, choice);
    lemma_strip_paint(plain.top_left, choice);
    lemma_strip_paint(plain.top_right, choice);
    lemma_strip_paint(plain.bottom_left, choice);
    lemma_strip_paint(plain.bottom_right, choice);
}

/// Repetitions of a glyph strip to the repetitions of what it strips to.
pub proof fn lemma_strip_repeat(glyph: Seq<char>, plain: Seq<char>, n: nat)
    requires
        strips_to(glyph, plain),
    ensures
        strips_to(repeat(glyph, n), repeat(plain, n)),
    decreases n,
{
    if n > 0 {
        lemma_strip_repeat(glyph, plain, (n - 1) as nat);
        lemma_strips_to_concat(
            repeat(glyph, (n - 1) as nat),
            repeat(plain, (n - 1) as nat),
            glyph,
            plain,
        );
    }
}

/// A border row strips to the plain border row.
pub proof fn lemma_strip_border(
    left: Seq<char>,
    fill: Seq<char>,
    right: Seq<char>,
    plain_left: Seq<char>,
    plain_fill: Seq<char>,
    plain_right: Seq<char>,
    width: nat,
)
    requires
        strips_to(left, plain_left),
        strips_to(fill, plain_fill),
        strips_to(right, plain_right),
    ensures
        strips_to(
            left + repeat(fill, width) + right,
            plain_left + repeat(plain_fill, width) + plain_right,
        ),
{
    lemma_strip_repeat(fill, plain_fill, width);
    lemma_strips_to_concat(left, plain_left, repeat(fill, width), repeat(plain_fill, width));
    lemma_strips_to_concat(
        left + repeat(fill, width),
        plain_left + repeat(plain_fill, width),
        right,
        plain_right,
    );
}

/// A row between two verticals strips to the same row between the plain
/// verticals, where what stands between them holds no escape character.
pub proof fn lemma_strip_framed(vertical: Seq<char>, plain: Seq<char>, middle: Seq<char>)
    requires
        strips_to(vertical, plain),
        lacks(middle, ESCAPE),
    ensures
        strips_to(vertical + middle + vertical, plain + middle + plain),
{
    lemma_strip_plain(middle);
    lemma_strips_to_concat(vertical, plain, middle, middle);
    lemma_strips_to_concat(vertical + middle, plain + middle, vertical, plain);
}

/// Rows that strip to plain rows strip, joined by `unlines`, to the plain
/// rows joined.
pub proof fn lemma_strip_unlines(colored: Seq<Seq<char>>, plain: Seq<Seq<char>>)
    requires
        rows_strip_to(colored, plain),
    ensures
        strips_to(unlines(colored), unlines(plain)),
    decreases colored.len(),
{
    if colored.len() > 0 {
        let c = colored.skip(1);
        let p = plain.skip(1);
        lemma_strip_unlines(c, p);
        let newline = seq!['\n'];
        lemma_strip_plain(newline);
        lemma_strips_to_concat(colored[0], plain[0], newline, newline);
        lemma_strips_to_concat(colored[0] + newline, plain[0] + newline, unlines(c), unlines(p));
    }
}

/// Row by row, a box drawn with glyphs that strip to plain ones strips
/// to the box drawn with these, where the text holds no escape character.
pub proof fn lemma_strip_rows(text: Seq<char>, format: Formatting, colored: Glyphs, plain: Glyphs)
    requires
        lacks(text, ESCAPE),
        glyphs_strip_to(colored, plain),
    ensures
        rows_strip_to(box_rows(text, format, colored), box_rows(text, format, plain)),
{
    let lines = content_lines(text, format);
    let cw = content_width(text, format);
    let width = interior_width(text, format);
    let c = box_rows(text, format, colored);
    let p = box_rows(text, format, plain);
    let top = format.top() as int;
    let n = lines.len() as int;
    lemma_normalized_lacks(text, format.max_width as nat, format.horizontal(), ESCAPE);
    lemma_strip_border(
        colored.top_left,
        colored.horizontal,
        colored.top_right,
        plain.top_left,
        plain.horizontal,
        plain.top_right,
        width,
    );
    lemma_strip_border(
        colored.bottom_left,
        colored.horizontal,
        colored.bottom_right,
        plain.bottom_left,
        plain.horizontal,
        plain.bottom_right,
        width,
    );
    lemma_strip_framed(colored.vertical, plain.vertical, spaces(width));
    assert forall|i: int| 0 <= i < c.len() implies strips_to(#[trigger] c[i], p[i]) by {
        if 1 + top <= i < 1 + top + n {
            let line = lines[i - 1 - top];
            let middle = spaces(left_pad(format, cw, line.len())) + line + spaces(
                right_pad(format, cw, line.len()),
            );
            lemma_strip_framed(colored.vertical, plain.vertical, middle);
            assert(c[i] =~= colored.vertical + middle + colored.vertical);
            assert(p[i] =~= plain.vertical + middle + plain.vertical);
        }
    }
}

/// A box in any color, with its escape sequences taken out, is the box
/// drawn without color, character for character. This holds of every
/// text that has no escape character of its own.
pub proof fn lemma_strip_render(text: Seq<char>, format: Formatting, choice: ColorSpec)
    requires
        lacks(text, ESCAPE),
    ensures
        stripped(render(text, format, choice)) == render(text, format, ColorSpec::Plain),
{
    let colored = border_glyphs(format, choice);
    let plain = border_glyphs(format, ColorSpec::Plain);
    lemma_strip_glyphs(format, choice);
    lemma_strip_rows(text, format, colored, plain);
    let c = box_rows(text, format, colored);
    let p = box_rows(text, format, plain);
    let ci = c.drop_last();
    let pi = p.drop_last();
    lemma_strip_unlines(ci, pi);
    lemma_strips_to_concat(unlines(ci), unlines(pi), c.last(), p.last());
}

/// Every row of a box in any color has, once its escape sequences are
/// taken out, the same number of characters: the length of the longest
/// content line, the left and right padding, and 2 for the border. This
/// holds of every text that has no escape character of its own.
pub proof fn lemma_colored_rows_same_width(text: Seq<char>, format: Formatting, choice: ColorSpec)
    requires
        lacks(text, ESCAPE),
    ensures
        forall|i: int|
            0 <= i < lines_of(stripped(render(text, format, choice))).len() ==> (
            #[trigger] lines_of(stripped(render(text, format, choice)))[i]).len() == content_width(
                text,
                format,
            ) + format.horizontal() + 2,
{
    lemma_strip_render(text, format, choice);
    lemma_rendered_rows(text, format);
}

} // verus!
