//! Line boxes for terminal text: wrap a message, pad and align it, and
//! frame it with a border.
//!
//! ```text
//! ┌──────────────────────────────────────────────────────────────────────────┐
//! │                                                                          │
//! │  Only those who leisurely approach that which the masses are busy about  │
//! │  can be busy about that which the masses take leisurely.                 │
//! │  -- Lao Tsu                                                              │
//! │                                                                          │
//! └──────────────────────────────────────────────────────────────────────────┘
//! ```
//!
//! # Example
//! ```text
//! let lorem_ipsum = "Lorem ipsum dolor sit amet, consectetur adipiscing elit, sed do
//! eiusmod tempor incididunt ut labore et dolore magna aliqua.";
//!
//! let boxed_message = bauxite::BoxBuilder::from(lorem_ipsum)
//!     .padding(3)
//!     .alignment(bauxite::Alignment::Left);
//! match boxed_message.to_string() {
//!     Ok(boxed) => println!("{}", boxed),
//!     Err(error) => println!("{}", error.message()),
//! }
//! ```
//!
//! Widths are counted in characters. A layout whose `max_width` leaves no
//! column for content is not drawn: `to_string` says which constraint it
//! breaks.

pub mod color;
pub mod escape;
pub mod formatting;
pub mod helper;
pub mod layout;
pub mod lines;
pub mod message;
pub mod text;
pub mod wrapping;

use vstd::prelude::*;
use vstd::string::StringExecFns;
use crate::formatting::Formatting;
use crate::helper::{
    lemma_lines_step, lemma_unlines_concat, lemma_unlines_one, line_end, lines_of, max_len,
    unlines,
};
use crate::layout::{
    blank_row, blank_rows, bottom_row, box_rows, content_lines, content_row, content_rows,
    content_width, left_pad, lemma_unlines_push, render, repeat, right_pad, top_row,
};
use crate::lines::color::{LineColor, RgbColor};
use crate::lines::{resolve_line_type, Lines};
use crate::text::{push_chars, push_spaces, spaces, to_chars};
use crate::wrapping::lemma_normalized_width;

pub use crate::formatting::{Alignment, ConfigError};
pub use crate::lines::color::AnsiColorCode;
pub use crate::lines::line_type::LineType;

verus! {

/// Box builder struct that represents your formatted line box.
pub struct BoxBuilder {
    message: String,
    format: Formatting,
    color: LineColor,
}

impl BoxBuilder {
    /// The message in the box.
    pub closed spec fn message(&self) -> Seq<char> {
        self.message@
    }

    /// The layout of the box.
    pub closed spec fn format(&self) -> Formatting {
        self.format
    }

    /// The colors set for the border.
    pub closed spec fn line_color(&self) -> LineColor {
        self.color
    }

    /// Create a new boxed message from a String
    pub fn new(message: String) -> (out: BoxBuilder)
        ensures
            out.message() == message@,
            out.format() == Formatting::defaults(),
            out.line_color() == (LineColor { ansi: None, rgb: None, color8: None }),
    {
        BoxBuilder { message: message, format: Formatting::new(), color: LineColor::new() }
    }

    /// Create new boxed message from a str
    pub fn from(message: &str) -> (out: BoxBuilder)
        ensures
            out.message() == message@,
            out.format() == Formatting::defaults(),
            out.line_color() == (LineColor { ansi: None, rgb: None, color8: None }),
    {
        BoxBuilder {
            message: String::from_str(message),
            format: Formatting::new(),
            color: LineColor::new(),
        }
    }

    /// Set the global padding on the box
    pub fn padding(self, pad: usize) -> (out: Self)
        ensures
            out.message() == self.message(),
            out.line_color() == self.line_color(),
            out.format() == (Formatting { padding: pad, ..self.format() }),
    {
        let mut next = self;
        next.format.padding = pad;
        next
    }

    /// Set the alignment of the content
    pub fn alignment(self, align: Alignment) -> (out: Self)
        ensures
            out.message() == self.message(),
            out.line_color() == self.line_color(),
            out.format() == (Formatting { alignment: align, ..self.format() }),
    {
        let mut next = self;
        next.format.alignment = align;
        next
    }

    /// Set the maximum width of the box before lines should wrap
    pub fn max_width(self, width: usize) -> (out: Self)
        ensures
            out.message() == self.message(),
            out.line_color() == self.line_color(),
            out.format() == (Formatting { max_width: width, ..self.format() }),
    {
        let mut next = self;
        next.format.max_width = width;
        next
    }

    /// Set the padding on the bottom, overrides the global bottom padding
    pub fn padding_bottom(self, pad: usize) -> (out: Self)
        ensures
            out.message() == self.message(),
            out.line_color() == self.line_color(),
            out.format() == (Formatting { padding_bottom: Some(pad), ..self.format() }),
    {
        let mut next = self;
        next.format.padding_bottom = Some(pad);
        next
    }

    /// Set the padding on the top, overrides the global top padding
    pub fn padding_top(self, pad: usize) -> (out: Self)
        ensures
            out.message() == self.message(),
            out.line_color() == self.line_color(),
            out.format() == (Formatting { padding_top: Some(pad), ..self.format() }),
    {
        let mut next = self;
        next.format.padding_top = Some(pad);
        next
    }

    /// Set the padding on the left, overrides the global left padding
    pub fn padding_left(self, pad: usize) -> (out: Self)
        ensures
            out.message() == self.message(),
            out.line_color() == self.line_color(),
            out.format() == (Formatting { padding_left: Some(pad), ..self.format() }),
    {
        let mut next = self;
        next.format.padding_left = Some(pad);
        next
    }

    /// Set the padding on the right, overrides the global right padding
    pub fn padding_right(self, pad: usize) -> (out: Self)
        ensures
            out.message() == self.message(),
            out.line_color() == self.line_color(),
            out.format() == (Formatting { padding_right: Some(pad), ..self.format() }),
    {
        let mut next = self;
        next.format.padding_right = Some(pad);
        next
    }

    /// Set the style that the border is drawn in
    pub fn line_type(self, style: LineType) -> (out: Self)
        ensures
            out.message() == self.message(),
            out.line_color() == self.line_color(),
            out.format() == (Formatting { border_style: style, ..self.format() }),
    {
        let mut next = self;
        next.format.border_style = style;
        next
    }

    /// Sets 8 bit color code.
    ///
    /// 0-7 are standard colors
    /// 8-15 are high intensity colors
    /// 16-231 are defined by 16 + 36 x r + 6 x g + b (0 <= r, g, b <= 5)
    /// 232-255 are grayscale from black to white in 24 steps
    ///
    /// An RGB or a named color that was set before still wins over it.
    pub fn color_8(self, color: u8) -> (out: Self)
        ensures
            out.message() == self.message(),
            out.format() == self.format(),
            out.line_color() == (LineColor { color8: Some(color), ..self.line_color() }),
    {
        let mut next = self;
        next.color.color8 = Some(color);
        next
    }

    /// Basic RGB colors. A named color that was set before still wins
    /// over it.
    pub fn color_rgb(self, red: u8, green: u8, blue: u8) -> (out: Self)
        ensures
            out.message() == self.message(),
            out.format() == self.format(),
            out.line_color() == (LineColor {
                rgb: Some(RgbColor { red: red, green: green, blue: blue }),
                ..self.line_color()
            }),
    {
        let mut next = self;
        next.color.rgb = Some(RgbColor { red: red, green: green, blue: blue });
        next
    }

    /// Simplest ANSI color codes defined by AnsiColorCode enumerated type.
    pub fn color(self, code: AnsiColorCode) -> (out: Self)
        ensures
            out.message() == self.message(),
            out.format() == self.format(),
            out.line_color() == (LineColor { ansi: Some(code), ..self.line_color() }),
    {
        let mut next = self;
        next.color.ansi = Some(code);
        next
    }

    /// Boxed message to string.
    /// Returns the full line boxed message, or says why the layout
    /// cannot be rendered.
    pub fn to_string(&self) -> (out: Result<String, ConfigError>)
        ensures
            match out {
                Ok(boxed) => self.format().check() is Ok && boxed@ == render(
                    self.message(),
                    self.format(),
                    self.line_color().choice(),
                ),
                Err(error) => self.format().check() == Err::<(), ConfigError>(error),
            },
    {
        let format = &self.format;
        match format.validate() {
            Err(error) => {
                return Err(error);
            },
            Ok(_) => {},
        }
        let right_padding = format.right_padding();
        let left_padding = format.left_padding();
        let total_horizontal_pad = right_padding + left_padding;

        let normalized_message = crate::helper::normalize_lines(
            &self.message,
            format.max_width,
            total_horizontal_pad,
        );
        let max_line_length = crate::helper::max_line_length(&normalized_message);
        proof {
            lemma_normalized_width(
                self.message@,
                format.max_width as nat,
                total_horizontal_pad as nat,
            );
        }
        let lines = resolve_line_type(format.border_style).colored(&self.color);
        let length = max_line_length + total_horizontal_pad;

        // wrap the message in the box
        let mut boxed_message = self.gen_top(&lines, length);
        let top_padding = self.gen_top_padding(&lines, length);
        boxed_message.append(top_padding.as_str());
        let content = self.wrap_lines(&lines, &normalized_message, max_line_length);
        boxed_message.append(content.as_str());
        let bottom_padding = self.gen_bottom_padding(&lines, length);
        boxed_message.append(bottom_padding.as_str());
        let bottom = self.gen_bottom(&lines, length);
        boxed_message.append(bottom.as_str());
        proof {
            let glyphs = lines@;
            let text = self.message@;
            let width = length as nat;
            let first = seq![top_row(glyphs, width)];
            let above = blank_rows(glyphs, width, self.format.top());
            let middle = content_rows(
                glyphs,
                self.format,
                content_width(text, self.format),
                content_lines(text, self.format),
            );
            let below = blank_rows(glyphs, width, self.format.bottom());
            let rows = box_rows(text, self.format, glyphs);
            assert(rows.drop_last() =~= first + above + middle + below);
            lemma_unlines_one(top_row(glyphs, width));
            lemma_unlines_concat(first, above);
            lemma_unlines_concat(first + above, middle);
            lemma_unlines_concat(first + above + middle, below);
        }
        Ok(boxed_message)
    }

    /// Helper function to build the top of the box
    fn gen_top(&self, lines: &Lines, length: usize) -> (out: String)
        ensures
            out@ == top_row(lines@, length as nat) + seq!['\n'],
    {
        let mut out = String::new();
        out.append(lines.top_left.as_str());
        let mut i: usize = 0;
        while i < length
            invariant
                i <= length,
                out@ == lines.top_left@ + repeat(lines.horizontal@, i as nat),
            decreases length - i,
        {
            out.append(lines.horizontal.as_str());
            i += 1;
        }
        out.append(lines.top_right.as_str());
        out.push('\n');
        out
    }

    /// Helper function to build the bottom of the box
    fn gen_bottom(&self, lines: &Lines, length: usize) -> (out: String)
        ensures
            out@ == bottom_row(lines@, length as nat),
    {
        let mut out = String::new();
        out.append(lines.bottom_left.as_str());
        let mut i: usize = 0;
        while i < length
            invariant
                i <= length,
                out@ == lines.bottom_left@ + repeat(lines.horizontal@, i as nat),
            decreases length - i,
        {
            out.append(lines.horizontal.as_str());
            i += 1;
        }
        out.append(lines.bottom_right.as_str());
        out
    }

    /// Wrap the message with the box on its left and right
    fn wrap_lines(&self, lines: &Lines, message: &String, max_length: usize) -> (out: String)
        requires
            max_len(lines_of(message@)) <= max_length,
            max_length + self.format.horizontal() <= usize::MAX,
        ensures
            out@ == unlines(
                content_rows(lines@, self.format, max_length as nat, lines_of(message@)),
            ),
    {
        let chars = to_chars(message.as_str());
        let text = chars.as_slice();
        let ghost glyphs = lines@;
        let ghost width = max_length as nat;
        let ghost total = unlines(content_rows(glyphs, self.format, width, lines_of(text@)));
        let mut out = String::new();
        let mut start: usize = 0;
        proof {
            assert(text@.skip(0) =~= text@);
        }
        while start < text.len()
            invariant
                start <= text.len(),
                glyphs == lines@,
                width == max_length,
                max_length + self.format.horizontal() <= usize::MAX,
                max_len(lines_of(text@.skip(start as int))) <= max_length,
                total == out@ + unlines(
                    content_rows(glyphs, self.format, width, lines_of(text@.skip(start as int))),
                ),
            decreases text.len() - start,
        {
            let end = line_end(text, start);
            let next = if end < text.len() {
                end + 1
            } else {
                end
            };
            let ghost line = text@.subrange(start as int, end as int);
            let ghost rest = lines_of(text@.skip(next as int));
            let ghost before = out@;
            proof {
                lemma_lines_step(text@, start as int, end as int, next as int);
                assert((seq![line] + rest).skip(1) =~= rest);
                assert(content_rows(glyphs, self.format, width, seq![line] + rest) =~= seq![
                    content_row(glyphs, self.format, width, line),
                ] + content_rows(glyphs, self.format, width, rest));
                lemma_unlines_concat(
                    seq![content_row(glyphs, self.format, width, line)],
                    content_rows(glyphs, self.format, width, rest),
                );
                lemma_unlines_one(content_row(glyphs, self.format, width, line));
            }
            let left_padding = self.gen_left_padding(end - start, &max_length);
            let right_padding = self.gen_right_padding(end - start, &max_length);
            out.append(lines.vertical.as_str());
            out.append(left_padding.as_str());
            push_chars(&mut out, text, start, end);
            out.append(right_padding.as_str());
            out.append(lines.vertical.as_str());
            out.push('\n');
            assert(out@ =~= before + (content_row(glyphs, self.format, width, line) + seq!['\n']));
            assert(total =~= out@ + unlines(content_rows(glyphs, self.format, width, rest)));
            start = next;
        }
        out
    }

    /// Helper function to generate padding left of the content
    fn gen_left_padding(&self, line_length: usize, max_length: &usize) -> (out: String)
        requires
            line_length <= *max_length,
            *max_length + self.format.horizontal() <= usize::MAX,
        ensures
            out@ == spaces(left_pad(self.format, *max_length as nat, line_length as nat)),
    {
        let padding = match self.format.alignment {
            Alignment::Left => self.format.left_padding(),
            Alignment::Right => self.format.left_padding() + (*max_length - line_length),
        };
        crate::helper::gen_whitespace(padding)
    }

    /// Helper function to generate padding right of the content
    fn gen_right_padding(&self, line_length: usize, max_length: &usize) -> (out: String)
        requires
            line_length <= *max_length,
            *max_length + self.format.horizontal() <= usize::MAX,
        ensures
            out@ == spaces(right_pad(self.format, *max_length as nat, line_length as nat)),
    {
        let padding = match self.format.alignment {
            Alignment::Right => self.format.right_padding(),
            Alignment::Left => self.format.right_padding() + (*max_length - line_length),
        };
        crate::helper::gen_whitespace(padding)
    }

    /// The rows of vertical padding, `count` of them
    fn gen_padding_rows(&self, lines: &Lines, length: usize, count: usize) -> (out: String)
        ensures
            out@ == unlines(blank_rows(lines@, length as nat, count as nat)),
    {
        let mut out = String::new();
        let mut i: usize = 0;
        let ghost glyphs = lines@;
        let ghost width = length as nat;
        while i < count
            invariant
                i <= count,
                glyphs == lines@,
                width == length,
                out@ == unlines(blank_rows(glyphs, width, i as nat)),
            decreases count - i,
        {
            out.append(lines.vertical.as_str());
            push_spaces(&mut out, length);
            out.append(lines.vertical.as_str());
            out.push('\n');
            proof {
                lemma_unlines_push(blank_rows(glyphs, width, i as nat), blank_row(glyphs, width));
                assert(blank_rows(glyphs, width, (i + 1) as nat) =~= blank_rows(
                    glyphs,
                    width,
                    i as nat,
                ).push(blank_row(glyphs, width)));
            }
            i += 1;
        }
        out
    }

    /// Helper function to generate the top padding of the box
    fn gen_top_padding(&self, lines: &Lines, length: usize) -> (out: String)
        ensures
            out@ == unlines(blank_rows(lines@, length as nat, self.format.top())),
    {
        let top_padding = self.format.top_padding();
        self.gen_padding_rows(lines, length, top_padding)
    }

    /// Helper function to generate the bottom padding of the box
    fn gen_bottom_padding(&self, lines: &Lines, length: usize) -> (out: String)
        ensures
            out@ == unlines(blank_rows(lines@, length as nat, self.format.bottom())),
    {
        let bottom_padding = self.format.bottom_padding();
        self.gen_padding_rows(lines, length, bottom_padding)
    }
}

} // verus!
