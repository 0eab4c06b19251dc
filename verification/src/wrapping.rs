//! What holds of normalized text: its lines are the wrapped lines of the
//! input, none is longer than the width asked for, and normalizing it
//! once more changes nothing.

use vstd::prelude::*;
use crate::helper::{
    first_newline, lacks, lemma_first_newline, lemma_first_newline_at, lines_of, max_len,
    normalize_spec, split_point, unlines, untab, wrap_all, wrap_line,
};

verus! {

/// Each line of `lines` with a space in place of each tab.
pub open spec fn untab_all(lines: Seq<Seq<char>>) -> Seq<Seq<char>> {
    Seq::new(lines.len(), |i: int| untab(lines[i]))
}

/// `text` if it is empty or ends in a newline, else `text` and a newline.
pub open spec fn terminated(text: Seq<char>) -> Seq<char> {
    if text.len() == 0 || text.last() == '\n' {
        text
    } else {
        text.push('\n')
    }
}

/// The character `c` occurs in no line of `lines`.
pub open spec fn all_lack(lines: Seq<Seq<char>>, c: char) -> bool {
    forall|i: int| 0 <= i < lines.len() ==> lacks(#[trigger] lines[i], c)
}

/// No line of `lines` is longer than `bound`.
pub open spec fn all_within(lines: Seq<Seq<char>>, bound: nat) -> bool {
    forall|i: int| 0 <= i < lines.len() ==> (#[trigger] lines[i]).len() <= bound
}

/// No line of a text holds a newline.
pub proof fn lemma_lines_no_newline(s: Seq<char>)
    ensures
        all_lack(lines_of(s), '\n'),
    decreases s.len(),
{
    if s.len() > 0 {
        lemma_first_newline(s);
        let k = first_newline(s);
        if k < s.len() {
            lemma_lines_no_newline(s.skip(k as int + 1));
        }
    }
}

/// A character that a text lacks is in none of its lines.
pub proof fn lemma_lines_lack(s: Seq<char>, c: char)
    requires
        lacks(s, c),
    ensures
        all_lack(lines_of(s), c),
    decreases s.len(),
{
    if s.len() > 0 {
        lemma_first_newline(s);
        let k = first_newline(s);
        if k < s.len() {
            lemma_lines_lack(s.skip(k as int + 1), c);
        }
    }
}

/// The longest line is at least as long as every line.
pub proof fn lemma_max_len_covers(lines: Seq<Seq<char>>)
    ensures
        all_within(lines, max_len(lines)),
    decreases lines.len(),
{
    if lines.len() > 0 {
        let rest = lines.skip(1);
        lemma_max_len_covers(rest);
        assert forall|i: int| 0 <= i < lines.len() implies (#[trigger] lines[i]).len() <= max_len(
            lines,
        ) by {
            if i > 0 {
                assert(lines[i] == rest[i - 1]);
            }
        }
    }
}

/// Where no line is longer than `bound`, the longest is not either.
pub proof fn lemma_max_len_within(lines: Seq<Seq<char>>, bound: nat)
    requires
        all_within(lines, bound),
    ensures
        max_len(lines) <= bound,
    decreases lines.len(),
{
    if lines.len() > 0 {
        lemma_max_len_within(lines.skip(1), bound);
    }
}

/// A character that a line lacks is in none of its pieces.
pub proof fn lemma_wrap_line_lacks(line: Seq<char>, max_width: nat, padding: nat, c: char)
    requires
        lacks(line, c),
    ensures
        all_lack(wrap_line(line, max_width, padding), c),
    decreases line.len(),
{
    let cut = split_point(max_width, padding);
    if line.len() > max_width && cut <= line.len() {
        lemma_wrap_line_lacks(line.skip(cut as int), max_width, padding, c);
    }
}

/// No piece of a wrapped line is longer than `max_width`, where that is
/// at least 1.
pub proof fn lemma_wrap_line_within(line: Seq<char>, max_width: nat, padding: nat)
    requires
        max_width >= 1,
    ensures
        all_within(wrap_line(line, max_width, padding), max_width),
    decreases line.len(),
{
    let cut = split_point(max_width, padding);
    if line.len() > max_width && cut <= line.len() {
        lemma_wrap_line_within(line.skip(cut as int), max_width, padding);
    }
}

/// A character that every line lacks is in none of the wrapped lines.
pub proof fn lemma_wrap_all_lacks(lines: Seq<Seq<char>>, max_width: nat, padding: nat, c: char)
    requires
        all_lack(lines, c),
    ensures
        all_lack(wrap_all(lines, max_width, padding), c),
    decreases lines.len(),
{
    if lines.len() > 0 {
        lemma_wrap_all_lacks(lines.skip(1), max_width, padding, c);
        lemma_wrap_line_lacks(lines[0], max_width, padding, c);
    }
}

/// No wrapped line is longer than `max_width`, where that is at least 1.
pub proof fn lemma_wrap_all_within(lines: Seq<Seq<char>>, max_width: nat, padding: nat)
    requires
        max_width >= 1,
    ensures
        all_within(wrap_all(lines, max_width, padding), max_width),
    decreases lines.len(),
{
    if lines.len() > 0 {
        lemma_wrap_all_within(lines.skip(1), max_width, padding);
        lemma_wrap_line_within(lines[0], max_width, padding);
    }
}

/// Lines that fit are left as they are.
pub proof fn lemma_wrap_all_fitting(lines: Seq<Seq<char>>, max_width: nat, padding: nat)
    requires
        all_within(lines, max_width),
    ensures
        wrap_all(lines, max_width, padding) == lines,
    decreases lines.len(),
{
    if lines.len() > 0 {
        lemma_wrap_all_fitting(lines.skip(1), max_width, padding);
    }
}

/// Splitting what `unlines` joined gives the lines back, where none of
/// them holds a newline.
pub proof fn lemma_lines_of_unlines(lines: Seq<Seq<char>>)
    requires
        all_lack(lines, '\n'),
    ensures
        lines_of(unlines(lines)) == lines,
    decreases lines.len(),
{
    if lines.len() > 0 {
        let rest = lines.skip(1);
        lemma_lines_of_unlines(rest);
        let s = unlines(lines);
        let k = lines[0].len() as int;
        lemma_first_newline_at(s, k);
        assert(s.take(k) =~= lines[0]);
        assert(s.skip(k + 1) =~= unlines(rest));
    }
}

/// Joining the lines of a text gives the text back, with a newline at its
/// end if it had none.
pub proof fn lemma_unlines_of_lines(text: Seq<char>)
    ensures
        unlines(lines_of(text)) == terminated(text),
    decreases text.len(),
{
    if text.len() > 0 {
        lemma_first_newline(text);
        let k = first_newline(text) as int;
        if k < text.len() {
            let tail = text.skip(k + 1);
            lemma_unlines_of_lines(tail);
            assert((seq![text.take(k)] + lines_of(tail)).skip(1) =~= lines_of(tail));
        } else {
            assert(unlines(seq![text].skip(1)) =~= Seq::<char>::empty());
        }
    }
}

/// Tabs can be replaced before the lines are joined or after.
pub proof fn lemma_untab_unlines(lines: Seq<Seq<char>>)
    ensures
        untab(unlines(lines)) == unlines(untab_all(lines)),
    decreases lines.len(),
{
    if lines.len() > 0 {
        let rest = lines.skip(1);
        lemma_untab_unlines(rest);
        assert(untab_all(lines).skip(1) =~= untab_all(rest));
    }
}

/// The lines of normalized text are the wrapped lines of the input with
/// their tabs replaced.
pub proof fn lemma_normalized_lines(text: Seq<char>, max_width: nat, padding: nat)
    ensures
        lines_of(normalize_spec(text, max_width, padding)) == untab_all(
            wrap_all(lines_of(text), max_width, padding),
        ),
        normalize_spec(text, max_width, padding) == unlines(
            untab_all(wrap_all(lines_of(text), max_width, padding)),
        ),
{
    let wrapped = wrap_all(lines_of(text), max_width, padding);
    lemma_lines_no_newline(text);
    lemma_wrap_all_lacks(lines_of(text), max_width, padding, '\n');
    lemma_untab_unlines(wrapped);
    lemma_lines_of_unlines(untab_all(wrapped));
}

/// A character that the text lacks, other than the space, is in no line
/// of its normalized form.
pub proof fn lemma_normalized_lacks(text: Seq<char>, max_width: nat, padding: nat, c: char)
    requires
        lacks(text, c),
        c != ' ',
    ensures
        all_lack(lines_of(normalize_spec(text, max_width, padding)), c),
{
    lemma_lines_lack(text, c);
    lemma_wrap_all_lacks(lines_of(text), max_width, padding, c);
    lemma_normalized_lines(text, max_width, padding);
}

/// No line of normalized text is longer than `max_width`, where that is
/// at least 1.
pub proof fn lemma_normalized_width(text: Seq<char>, max_width: nat, padding: nat)
    requires
        max_width >= 1,
    ensures
        all_within(lines_of(normalize_spec(text, max_width, padding)), max_width),
        max_len(lines_of(normalize_spec(text, max_width, padding))) <= max_width,
{
    let wrapped = wrap_all(lines_of(text), max_width, padding);
    lemma_wrap_all_within(lines_of(text), max_width, padding);
    lemma_normalized_lines(text, max_width, padding);
    lemma_max_len_within(untab_all(wrapped), max_width);
}

/// Text of which no line is longer than `max_width` is normalized by
/// replacing its tabs and ending its last line: nothing else changes.
pub proof fn lemma_normalize_fitting(text: Seq<char>, max_width: nat, padding: nat)
    requires
        all_within(lines_of(text), max_width),
    ensures
        normalize_spec(text, max_width, padding) == untab(terminated(text)),
{
    lemma_wrap_all_fitting(lines_of(text), max_width, padding);
    lemma_unlines_of_lines(text);
}

/// Normalizing normalized text, with the same width and padding, gives it
/// back unchanged.
pub proof fn lemma_normalize_idempotent(text: Seq<char>, max_width: nat, padding: nat)
    requires
        max_width >= 1,
    ensures
        normalize_spec(normalize_spec(text, max_width, padding), max_width, padding)
            == normalize_spec(text, max_width, padding),
{
    let clean = untab_all(wrap_all(lines_of(text), max_width, padding));
    lemma_normalized_lines(text, max_width, padding);
    lemma_normalized_width(text, max_width, padding);
    lemma_wrap_all_fitting(clean, max_width, padding);
    lemma_untab_unlines(clean);
    assert forall|i: int| 0 <= i < clean.len() implies untab(clean[i]) =~= clean[i] by {}
    assert(untab_all(clean) =~= clean);
}

} // verus!
