//! The rows of a box: what a rendering is, row by row, and what holds of
//! every row.

use vstd::prelude::*;
use crate::formatting::{Alignment, Formatting};
use crate::helper::{
    lacks, lemma_first_newline_at, lemma_unlines_concat, lemma_unlines_one, lines_of, max_len,
    normalize_spec, unlines,
};
use crate::lines::color::ColorSpec;
use crate::lines::{paint_glyphs, style_glyphs, Glyphs};
use crate::text::spaces;
use crate::wrapping::{all_lack, lemma_lines_no_newline, lemma_max_len_covers};

verus! {

/// `glyph` written `n` times.
pub open spec fn repeat(glyph: Seq<char>, n: nat) -> Seq<char>
    decreases n,
{
    if n == 0 {
        Seq::empty()
    } else {
        repeat(glyph, (n - 1) as nat) + glyph
    }
}

/// The top border over an interior of `width` columns.
pub open spec fn top_row(glyphs: Glyphs, width: nat) -> Seq<char> {
    glyphs.top_left + repeat(glyphs.horizontal, width) + glyphs.top_right
}

/// The bottom border under an interior of `width` columns.
pub open spec fn bottom_row(glyphs: Glyphs, width: nat) -> Seq<char> {
    glyphs.bottom_left + repeat(glyphs.horizontal, width) + glyphs.bottom_right
}

/// A row of vertical padding: `width` spaces between the two verticals.
pub open spec fn blank_row(glyphs: Glyphs, width: nat) -> Seq<char> {
    glyphs.vertical + spaces(width) + glyphs.vertical
}

/// `count` rows of vertical padding.
pub open spec fn blank_rows(glyphs: Glyphs, width: nat, count: nat) -> Seq<Seq<char>> {
    Seq::new(count, |i: int| blank_row(glyphs, width))
}

/// The spaces left of a line of `len` characters in a box whose longest
/// line has `content_width`: the left padding, and with alignment to the
/// right also what the line lacks.
pub open spec fn left_pad(format: Formatting, content_width: nat, len: nat) -> nat {
    match format.alignment {
        Alignment::Left => format.left(),
        Alignment::Right => (format.left() + content_width - len) as nat,
    }
}

/// The spaces right of a line of `len` characters in a box whose longest
/// line has `content_width`: the right padding, and with alignment to the
/// left also what the line lacks.
pub open spec fn right_pad(format: Formatting, content_width: nat, len: nat) -> nat {
    match format.alignment {
        Alignment::Left => (format.right() + content_width - len) as nat,
        Alignment::Right => format.right(),
    }
}

/// The row of one content line.
pub open spec fn content_row(
    glyphs: Glyphs,
    format: Formatting,
    content_width: nat,
    line: Seq<char>,
) -> Seq<char> {
    glyphs.vertical + spaces(left_pad(format, content_width, line.len())) + line + spaces(
        right_pad(format, content_width, line.len()),
    ) + glyphs.vertical
}

/// The rows of the content lines, in order.
pub open spec fn content_rows(
    glyphs: Glyphs,
    format: Formatting,
    content_width: nat,
    lines: Seq<Seq<char>>,
) -> Seq<Seq<char>> {
    Seq::new(lines.len(), |i: int| content_row(glyphs, format, content_width, lines[i]))
}

/// The content lines of the box of `text`: the lines of its normalized
/// form.
pub open spec fn content_lines(text: Seq<char>, format: Formatting) -> Seq<Seq<char>> {
    lines_of(normalize_spec(text, format.max_width as nat, format.horizontal()))
}

/// The length of the longest content line.
pub open spec fn content_width(text: Seq<char>, format: Formatting) -> nat {
    max_len(content_lines(text, format))
}

/// The columns between the two verticals: the longest content line and
/// the padding on both sides of it.
pub open spec fn interior_width(text: Seq<char>, format: Formatting) -> nat {
    content_width(text, format) + format.horizontal()
}

/// The rows of the box of `text`, from the top border to the bottom one.
pub open spec fn box_rows(text: Seq<char>, format: Formatting, glyphs: Glyphs) -> Seq<Seq<char>> {
    let width = interior_width(text, format);
    seq![top_row(glyphs, width)] + blank_rows(glyphs, width, format.top()) + content_rows(
        glyphs,
        format,
        content_width(text, format),
        content_lines(text, format),
    ) + blank_rows(glyphs, width, format.bottom()) + seq![bottom_row(glyphs, width)]
}

/// The rows with a newline between each two; none after the last.
pub open spec fn join_rows(rows: Seq<Seq<char>>) -> Seq<char> {
    if rows.len() == 0 {
        Seq::empty()
    } else {
        unlines(rows.drop_last()) + rows.last()
    }
}

/// The glyphs that a box is drawn with: those of the border style, in the
/// color `choice`.
pub open spec fn border_glyphs(format: Formatting, choice: ColorSpec) -> Glyphs {
    paint_glyphs(style_glyphs(format.border_style), choice)
}

/// The box of `text`: what a rendering returns.
pub open spec fn render(text: Seq<char>, format: Formatting, choice: ColorSpec) -> Seq<char> {
    join_rows(box_rows(text, format, border_glyphs(format, choice)))
}

/// Each glyph is a single character, as in every border style before it
/// is colored.
pub open spec fn single_width(glyphs: Glyphs) -> bool {
    &&& glyphs.horizontal.len() == 1
    &&& glyphs.vertical.len() == 1
    &&& glyphs.top_left.len() == 1
    &&& glyphs.top_right.len() == 1
    &&& glyphs.bottom_left.len() == 1
    &&& glyphs.bottom_right.len() == 1
}

/// `n` repetitions of a glyph are `n` times as long as the glyph.
pub proof fn lemma_repeat_len(glyph: Seq<char>, n: nat)
    ensures
        repeat(glyph, n).len() == n * glyph.len(),
    decreases n,
{
    if n > 0 {
        lemma_repeat_len(glyph, (n - 1) as nat);
        assert(n * glyph.len() == (n - 1) * glyph.len() + glyph.len()) by (nonlinear_arith);
    } else {
        assert(0 * glyph.len() == 0);
    }
}

/// `unlines` of rows and one more row.
pub proof fn lemma_unlines_push(rows: Seq<Seq<char>>, row: Seq<char>)
    ensures
        unlines(rows.push(row)) == unlines(rows) + row + seq!['\n'],
{
    lemma_unlines_concat(rows, seq![row]);
    lemma_unlines_one(row);
    assert(rows.push(row) =~= rows + seq![row]);
}

/// Every row of an uncolored box, the two border rows included, has the
/// same number of characters: the length of the longest content line, the
/// left and right padding, and 2 for the border.
pub proof fn lemma_rows_same_width(text: Seq<char>, format: Formatting, glyphs: Glyphs)
    requires
        single_width(glyphs),
    ensures
        forall|i: int|
            0 <= i < box_rows(text, format, glyphs).len() ==> (#[trigger] box_rows(
                text,
                format,
                glyphs,
            )[i]).len() == content_width(text, format) + format.horizontal() + 2,
{
    lemma_max_len_covers(content_lines(text, format));
    lemma_repeat_len(glyphs.horizontal, interior_width(text, format));
}

/// None of the six glyphs holds the character `c`.
pub open spec fn glyphs_lack(glyphs: Glyphs, c: char) -> bool {
    &&& lacks(glyphs.horizontal, c)
    &&& lacks(glyphs.vertical, c)
    &&& lacks(glyphs.top_left, c)
    &&& lacks(glyphs.top_right, c)
    &&& lacks(glyphs.bottom_left, c)
    &&& lacks(glyphs.bottom_right, c)
}

/// Repetitions of a glyph hold no character that the glyph lacks.
pub proof fn lemma_repeat_lacks(glyph: Seq<char>, n: nat, c: char)
    requires
        lacks(glyph, c),
    ensures
        lacks(repeat(glyph, n), c),
    decreases n,
{
    if n > 0 {
        lemma_repeat_lacks(glyph, (n - 1) as nat, c);
    }
}

/// No row of a box holds a newline, where the glyphs hold none.
pub proof fn lemma_rows_lack_newline(text: Seq<char>, format: Formatting, glyphs: Glyphs)
    requires
        glyphs_lack(glyphs, '\n'),
    ensures
        all_lack(box_rows(text, format, glyphs), '\n'),
{
    lemma_lines_no_newline(normalize_spec(text, format.max_width as nat, format.horizontal()));
    lemma_repeat_lacks(glyphs.horizontal, interior_width(text, format), '\n');
}

/// The lines of joined rows are the rows, where no row holds a newline
/// and the last row is not empty.
pub proof fn lemma_lines_of_joined(rows: Seq<Seq<char>>)
    requires
        rows.len() > 0,
        all_lack(rows, '\n'),
        rows.last().len() > 0,
    ensures
        lines_of(join_rows(rows)) == rows,
    decreases rows.len(),
{
    let joined = join_rows(rows);
    let first = rows[0];
    if rows.len() == 1 {
        lemma_first_newline_at(joined, joined.len() as int);
    } else {
        let rest = rows.skip(1);
        lemma_lines_of_joined(rest);
        assert(rows.drop_last().skip(1) =~= rest.drop_last());
        let k = first.len() as int;
        lemma_first_newline_at(joined, k);
        assert(joined.take(k) =~= first);
        assert(joined.skip(k + 1) =~= join_rows(rest));
    }
}

/// The lines of a rendered box are its rows, and in a box without color
/// every one of them, the two border rows included, has the same number
/// of characters: the length of the longest content line, the left and
/// right padding, and 2 for the border.
pub proof fn lemma_rendered_rows(text: Seq<char>, format: Formatting)
    ensures
        lines_of(render(text, format, ColorSpec::Plain)) == box_rows(
            text,
            format,
            border_glyphs(format, ColorSpec::Plain),
        ),
        forall|i: int|
            0 <= i < lines_of(render(text, format, ColorSpec::Plain)).len() ==> (
            #[trigger] lines_of(render(text, format, ColorSpec::Plain))[i]).len() == content_width(
                text,
                format,
            ) + format.horizontal() + 2,
{
    let glyphs = border_glyphs(format, ColorSpec::Plain);
    lemma_rows_lack_newline(text, format, glyphs);
    lemma_rows_same_width(text, format, glyphs);
    lemma_lines_of_joined(box_rows(text, format, glyphs));
}

/// With alignment to the left every content row has exactly the left
/// padding before its line, however long the line is; with alignment to
/// the right every content row has exactly the right padding after it.
/// The other side takes up what the line lacks of the longest one. The
/// row of the content line `i` comes after the top border and the rows
/// of padding above.
pub proof fn lemma_alignment(text: Seq<char>, format: Formatting, glyphs: Glyphs, i: int)
    requires
        0 <= i < content_lines(text, format).len(),
    ensures
        content_lines(text, format)[i].len() <= content_width(text, format),
        format.alignment == Alignment::Left ==> box_rows(text, format, glyphs)[1 + format.top()
            + i] == glyphs.vertical + spaces(format.left()) + content_lines(text, format)[i]
            + spaces(
            (format.right() + content_width(text, format) - content_lines(
                text,
                format,
            )[i].len()) as nat,
        ) + glyphs.vertical,
        format.alignment == Alignment::Right ==> box_rows(text, format, glyphs)[1 + format.top()
            + i] == glyphs.vertical + spaces(
            (format.left() + content_width(text, format) - content_lines(
                text,
                format,
            )[i].len()) as nat,
        ) + content_lines(text, format)[i] + spaces(format.right()) + glyphs.vertical,
{
    lemma_max_len_covers(content_lines(text, format));
}

} // verus!
