//! Splitting a message into lines, wrapping the long ones, and measuring
//! the result.

use vstd::prelude::*;
use crate::text::{extend_range, from_chars, push_spaces, spaces, to_chars};

verus! {

/// The number of characters of `s` that stand before its first newline;
/// the length of `s` where it holds none.
pub open spec fn first_newline(s: Seq<char>) -> nat
    decreases s.len(),
{
    if s.len() == 0 || s[0] == '\n' {
        0
    } else {
        (1 + first_newline(s.skip(1))) as nat
    }
}

/// The lines of `s`: the pieces between newlines. A newline ends a line,
/// so text that ends in one has no empty line after it, and empty text has
/// no line at all.
pub open spec fn lines_of(s: Seq<char>) -> Seq<Seq<char>>
    decreases s.len(),
{
    if s.len() == 0 {
        Seq::empty()
    } else {
        let k = first_newline(s);
        if k < s.len() {
            seq![s.take(k as int)] + lines_of(s.skip(k as int + 1))
        } else {
            seq![s]
        }
    }
}

/// Each line followed by a newline, one after another.
pub open spec fn unlines(lines: Seq<Seq<char>>) -> Seq<char>
    decreases lines.len(),
{
    if lines.len() == 0 {
        Seq::empty()
    } else {
        lines[0] + seq!['\n'] + unlines(lines.skip(1))
    }
}

/// Where an overlong line is cut: the width left once the padding and
/// the two border columns are taken off `max_width`, and never less
/// than one character.
pub open spec fn split_point(max_width: nat, padding: nat) -> nat {
    if max_width - padding - 2 >= 1 {
        (max_width - padding - 2) as nat
    } else {
        1
    }
}

/// One line cut into pieces: while what is left is longer than
/// `max_width`, its first `split_point` characters become a line.
pub open spec fn wrap_line(line: Seq<char>, max_width: nat, padding: nat) -> Seq<Seq<char>>
    decreases line.len(),
{
    let cut = split_point(max_width, padding);
    if line.len() > max_width && cut <= line.len() {
        seq![line.take(cut as int)] + wrap_line(line.skip(cut as int), max_width, padding)
    } else {
        seq![line]
    }
}

/// Every line of `lines` wrapped, in order.
pub open spec fn wrap_all(lines: Seq<Seq<char>>, max_width: nat, padding: nat) -> Seq<Seq<char>>
    decreases lines.len(),
{
    if lines.len() == 0 {
        Seq::empty()
    } else {
        wrap_line(lines[0], max_width, padding) + wrap_all(lines.skip(1), max_width, padding)
    }
}

/// `s` with a space in place of each tab.
pub open spec fn untab(s: Seq<char>) -> Seq<char> {
    Seq::new(
        s.len(),
        |i: int|
            if s[i] == '\t' {
                ' '
            } else {
                s[i]
            },
    )
}

/// The normalized form of `text`: its lines wrapped, each ended by a
/// newline, and tabs turned into spaces.
pub open spec fn normalize_spec(text: Seq<char>, max_width: nat, padding: nat) -> Seq<char> {
    untab(unlines(wrap_all(lines_of(text), max_width, padding)))
}

/// The length of the longest of `lines`; 0 where there is none.
pub open spec fn max_len(lines: Seq<Seq<char>>) -> nat
    decreases lines.len(),
{
    if lines.len() == 0 {
        0
    } else {
        let rest = max_len(lines.skip(1));
        if lines[0].len() >= rest {
            lines[0].len()
        } else {
            rest
        }
    }
}

/// The character `c` does not occur in `s`.
pub open spec fn lacks(s: Seq<char>, c: char) -> bool {
    forall|i: int| 0 <= i < s.len() ==> s[i] != c
}

/// `first_newline` is the least index that holds a newline.
pub proof fn lemma_first_newline(s: Seq<char>)
    ensures
        first_newline(s) <= s.len(),
        first_newline(s) < s.len() ==> s[first_newline(s) as int] == '\n',
        forall|i: int| 0 <= i < first_newline(s) ==> s[i] != '\n',
    decreases s.len(),
{
    if s.len() == 0 || s[0] == '\n' {
    } else {
        let t = s.skip(1);
        lemma_first_newline(t);
        assert forall|i: int| 0 <= i < first_newline(s) implies s[i] != '\n' by {
            if i > 0 {
                assert(s[i] == t[i - 1]);
            }
        }
    }
}

/// An index with a newline, or the end, before which no newline stands
/// is `first_newline`.
pub proof fn lemma_first_newline_at(s: Seq<char>, k: int)
    requires
        0 <= k <= s.len(),
        k < s.len() ==> s[k] == '\n',
        forall|i: int| 0 <= i < k ==> s[i] != '\n',
    ensures
        first_newline(s) == k,
{
    lemma_first_newline(s);
}

/// `unlines` of two runs of lines is the one's followed by the other's.
pub proof fn lemma_unlines_concat(a: Seq<Seq<char>>, b: Seq<Seq<char>>)
    ensures
        unlines(a + b) == unlines(a) + unlines(b),
    decreases a.len(),
{
    if a.len() > 0 {
        lemma_unlines_concat(a.skip(1), b);
        assert((a + b).skip(1) =~= a.skip(1) + b);
    }
}

/// `unlines` of a single line is the line and a newline.
pub proof fn lemma_unlines_one(line: Seq<char>)
    ensures
        unlines(seq![line]) == line + seq!['\n'],
{
    assert(unlines(seq![line].skip(1)) =~= Seq::<char>::empty());
}

/// `wrap_all` of two runs of lines is the one's followed by the other's.
pub proof fn lemma_wrap_all_concat(
    a: Seq<Seq<char>>,
    b: Seq<Seq<char>>,
    max_width: nat,
    padding: nat,
)
    ensures
        wrap_all(a + b, max_width, padding) == wrap_all(a, max_width, padding) + wrap_all(
            b,
            max_width,
            padding,
        ),
    decreases a.len(),
{
    if a.len() > 0 {
        lemma_wrap_all_concat(a.skip(1), b, max_width, padding);
        assert((a + b).skip(1) =~= a.skip(1) + b);
    }
}

/// The lines of `text` from `start` on are the line that ends at `end`
/// and the lines of what follows.
pub proof fn lemma_lines_step(text: Seq<char>, start: int, end: int, next: int)
    requires
        0 <= start < text.len(),
        start <= end <= text.len(),
        end - start == first_newline(text.skip(start)),
        next == if end < text.len() { end + 1 } else { end },
    ensures
        lines_of(text.skip(start)) == seq![text.subrange(start, end)] + lines_of(text.skip(next)),
{
    let t = text.skip(start);
    let k = first_newline(t);
    if end < text.len() {
        assert(t.take(k as int) =~= text.subrange(start, end));
        assert(t.skip(k as int + 1) =~= text.skip(next));
    }
}

/// The index of the first newline of `text` at or after `start`, or the
/// length of `text` where there is none.
pub fn line_end(text: &[char], start: usize) -> (end: usize)
    requires
        start <= text.len(),
    ensures
        start <= end <= text.len(),
        end - start == first_newline(text@.skip(start as int)),
{
    let mut end: usize = start;
    while end < text.len() && text[end] != '\n'
        invariant
            start <= end <= text.len(),
            forall|i: int| start <= i < end ==> text@[i] != '\n',
        decreases text.len() - end,
    {
        end += 1;
    }
    proof {
        lemma_first_newline_at(text@.skip(start as int), end - start);
    }
    end
}

/// The index at which an overlong line is cut.
pub fn split_index(max_width: usize, padding: usize) -> (cut: usize)
    ensures
        cut == split_point(max_width as nat, padding as nat),
        1 <= cut,
        max_width >= 1 ==> cut <= max_width,
{
    if max_width >= 3 && padding <= max_width - 3 {
        max_width - padding - 2
    } else {
        1
    }
}

/// Normalizes a message held as characters.
pub fn normalize_chars(text: &[char], max_width: usize, padding: usize) -> (out: Vec<char>)
    ensures
        out@ == normalize_spec(text@, max_width as nat, padding as nat),
{
    let cut = split_index(max_width, padding);
    let ghost mw = max_width as nat;
    let ghost pad = padding as nat;
    let ghost total = unlines(wrap_all(lines_of(text@), mw, pad));
    let mut raw: Vec<char> = Vec::new();
    let mut start: usize = 0;
    proof {
        assert(text@.skip(0) =~= text@);
    }
    while start < text.len()
        invariant
            start <= text.len(),
            mw == max_width,
            pad == padding,
            cut == split_point(mw, pad),
            total == raw@ + unlines(wrap_all(lines_of(text@.skip(start as int)), mw, pad)),
        decreases text.len() - start,
    {
        let end = line_end(text, start);
        let next = if end < text.len() {
            end + 1
        } else {
            end
        };
        let ghost line = text@.subrange(start as int, end as int);
        let ghost rest = unlines(wrap_all(lines_of(text@.skip(next as int)), mw, pad));
        let ghost before = raw@;
        proof {
            lemma_lines_step(text@, start as int, end as int, next as int);
            lemma_wrap_all_concat(seq![line], lines_of(text@.skip(next as int)), mw, pad);
            assert(wrap_all(seq![line].skip(1), mw, pad) =~= Seq::<Seq<char>>::empty());
            lemma_unlines_concat(
                wrap_line(line, mw, pad),
                wrap_all(lines_of(text@.skip(next as int)), mw, pad),
            );
            assert(total =~= before + unlines(wrap_line(line, mw, pad)) + rest);
        }
        let mut pos: usize = start;
        while end - pos > max_width
            invariant
                start <= pos <= end <= text.len(),
                mw == max_width,
                pad == padding,
                cut == split_point(mw, pad),
                before + unlines(wrap_line(line, mw, pad)) == raw@ + unlines(
                    wrap_line(text@.subrange(pos as int, end as int), mw, pad),
                ),
            decreases end - pos,
        {
            let ghost piece = text@.subrange(pos as int, end as int);
            proof {
                assert(piece.skip(cut as int) =~= text@.subrange(pos + cut, end as int));
                lemma_unlines_concat(
                    seq![piece.take(cut as int)],
                    wrap_line(piece.skip(cut as int), mw, pad),
                );
                lemma_unlines_one(piece.take(cut as int));
            }
            extend_range(&mut raw, text, pos, pos + cut);
            raw.push('\n');
            pos += cut;
        }
        proof {
            lemma_unlines_one(text@.subrange(pos as int, end as int));
        }
        extend_range(&mut raw, text, pos, end);
        raw.push('\n');
        start = next;
    }
    let mut out: Vec<char> = Vec::new();
    let mut i: usize = 0;
    while i < raw.len()
        invariant
            i <= raw.len(),
            out@ == untab(raw@.take(i as int)),
        decreases raw.len() - i,
    {
        let c = raw[i];
        if c == '\t' {
            out.push(' ');
        } else {
            out.push(c);
        }
        i += 1;
    }
    out
}

/// Set a uniform line length: every line longer than `max_width` is cut
/// at the column left by `padding` and the border, every line ends in a
/// newline, and each tab becomes one space.
pub fn normalize_lines(message: &String, max_width: usize, padding: usize) -> (out: String)
    ensures
        out@ == normalize_spec(message@, max_width as nat, padding as nat),
{
    let chars = to_chars(message.as_str());
    let normalized = normalize_chars(chars.as_slice(), max_width, padding);
    from_chars(normalized.as_slice())
}

/// The length of the longest line of a message held as characters.
pub fn max_line_length_chars(text: &[char]) -> (longest: usize)
    ensures
        longest == max_len(lines_of(text@)),
{
    let mut longest: usize = 0;
    let mut start: usize = 0;
    proof {
        assert(text@.skip(0) =~= text@);
    }
    while start < text.len()
        invariant
            start <= text.len(),
            max_len(lines_of(text@)) == if longest >= max_len(lines_of(text@.skip(start as int))) {
                longest as nat
            } else {
                max_len(lines_of(text@.skip(start as int)))
            },
        decreases text.len() - start,
    {
        let end = line_end(text, start);
        let next = if end < text.len() {
            end + 1
        } else {
            end
        };
        proof {
            lemma_lines_step(text@, start as int, end as int, next as int);
            let line = text@.subrange(start as int, end as int);
            let rest = lines_of(text@.skip(next as int));
            assert((seq![line] + rest).skip(1) =~= rest);
        }
        if end - start > longest {
            longest = end - start;
        }
        start = next;
    }
    longest
}

/// Helper function to get the length of the longest line.
pub fn max_line_length(message: &String) -> (longest: usize)
    ensures
        longest == max_len(lines_of(message@)),
{
    let chars = to_chars(message.as_str());
    max_line_length_chars(chars.as_slice())
}

/// Helper function to get whitespace for padding.
pub fn gen_whitespace(num: usize) -> (out: String)
    ensures
        out@ == spaces(num as nat),
{
    let mut out = String::new();
    push_spaces(&mut out, num);
    out
}

} // verus!
