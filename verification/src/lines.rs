//! The six glyphs that a border is drawn with.

pub mod color;
pub mod line_type;

use vstd::prelude::*;
use vstd::string::StringExecFns;
use crate::lines::color::{paint, paint_text, ColorSpec, LineColor};
use crate::lines::line_type::LineType;

verus! {

// The glyphs of the basic style.
pub const VERTICAL: &'static str = "│";

pub const HORIZONTAL: &'static str = "─";

pub const TOP_LEFT: &'static str = "┌";

pub const TOP_RIGHT: &'static str = "┐";

pub const BOTTOM_LEFT: &'static str = "└";

pub const BOTTOM_RIGHT: &'static str = "┘";

/// The glyphs of a border, each as the characters it is written with: one
/// character for a plain glyph, more once it is colored.
pub ghost struct Glyphs {
    pub horizontal: Seq<char>,
    pub vertical: Seq<char>,
    pub top_right: Seq<char>,
    pub top_left: Seq<char>,
    pub bottom_right: Seq<char>,
    pub bottom_left: Seq<char>,
}

/// The glyphs of a border.
pub struct Lines {
    pub horizontal: String,
    pub vertical: String,
    pub top_right: String,
    pub top_left: String,
    pub bottom_right: String,
    pub bottom_left: String,
}

impl View for Lines {
    type V = Glyphs;

    open spec fn view(&self) -> Glyphs {
        Glyphs {
            horizontal: self.horizontal@,
            vertical: self.vertical@,
            top_right: self.top_right@,
            top_left: self.top_left@,
            bottom_right: self.bottom_right@,
            bottom_left: self.bottom_left@,
        }
    }
}

/// The plain glyphs of each border style.
pub open spec fn style_glyphs(style: LineType) -> Glyphs {
    match style {
        LineType::Basic => Glyphs {
            horizontal: seq!['─'],
            vertical: seq!['│'],
            top_right: seq!['┐'],
            top_left: seq!['┌'],
            bottom_right: seq!['┘'],
            bottom_left: seq!['└'],
        },
        LineType::Dotted => Glyphs {
            horizontal: seq!['╌'],
            vertical: seq!['╎'],
            top_right: seq!['┐'],
            top_left: seq!['┌'],
            bottom_right: seq!['┘'],
            bottom_left: seq!['└'],
        },
        LineType::Bold => Glyphs {
            horizontal: seq!['━'],
            vertical: seq!['┃'],
            top_right: seq!['┓'],
            top_left: seq!['┏'],
            bottom_right: seq!['┛'],
            bottom_left: seq!['┗'],
        },
        LineType::Double => Glyphs {
            horizontal: seq!['═'],
            vertical: seq!['║'],
            top_right: seq!['╗'],
            top_left: seq!['╔'],
            bottom_right: seq!['╝'],
            bottom_left: seq!['╚'],
        },
    }
}

/// Each of the six glyphs in the color `choice`.
pub open spec fn paint_glyphs(glyphs: Glyphs, choice: ColorSpec) -> Glyphs {
    Glyphs {
        horizontal: paint(glyphs.horizontal, choice),
        vertical: paint(glyphs.vertical, choice),
        top_right: paint(glyphs.top_right, choice),
        top_left: paint(glyphs.top_left, choice),
        bottom_right: paint(glyphs.bottom_right, choice),
        bottom_left: paint(glyphs.bottom_left, choice),
    }
}

/// The six constants are the glyphs of the basic style.
pub proof fn lemma_basic_glyphs()
    ensures
        HORIZONTAL@ == seq!['─'],
        VERTICAL@ == seq!['│'],
        TOP_RIGHT@ == seq!['┐'],
        TOP_LEFT@ == seq!['┌'],
        BOTTOM_RIGHT@ == seq!['┘'],
        BOTTOM_LEFT@ == seq!['└'],
{
    reveal_strlit("─");
    reveal_strlit("│");
    reveal_strlit("┐");
    reveal_strlit("┌");
    reveal_strlit("┘");
    reveal_strlit("└");
}

/// A string of the one character `c`.
fn glyph(c: char) -> (out: String)
    ensures
        out@ == seq![c],
{
    let mut out = String::new();
    out.push(c);
    out
}

/// The plain glyphs of the border style `line_type`.
pub fn resolve_line_type(line_type: LineType) -> (out: Lines)
    ensures
        out@ == style_glyphs(line_type),
{
    proof {
        lemma_basic_glyphs();
    }
    match line_type {
        LineType::Basic => Lines::new(),
        LineType::Dotted => Lines {
            horizontal: glyph('╌'),
            vertical: glyph('╎'),
            top_right: String::from_str(TOP_RIGHT),
            top_left: String::from_str(TOP_LEFT),
            bottom_right: String::from_str(BOTTOM_RIGHT),
            bottom_left: String::from_str(BOTTOM_LEFT),
        },
        LineType::Bold => Lines {
            horizontal: glyph('━'),
            vertical: glyph('┃'),
            top_right: glyph('┓'),
            top_left: glyph('┏'),
            bottom_right: glyph('┛'),
            bottom_left: glyph('┗'),
        },
        LineType::Double => Lines {
            horizontal: glyph('═'),
            vertical: glyph('║'),
            top_right: glyph('╗'),
            top_left: glyph('╔'),
            bottom_right: glyph('╝'),
            bottom_left: glyph('╚'),
        },
    }
}

impl Lines {
    /// Construct Lines as their default values
    pub fn new() -> (out: Lines)
        ensures
            out@ == style_glyphs(LineType::Basic),
    {
        proof {
            lemma_basic_glyphs();
        }
        Lines {
            horizontal: String::from_str(HORIZONTAL),
            vertical: String::from_str(VERTICAL),
            top_right: String::from_str(TOP_RIGHT),
            top_left: String::from_str(TOP_LEFT),
            bottom_right: String::from_str(BOTTOM_RIGHT),
            bottom_left: String::from_str(BOTTOM_LEFT),
        }
    }

    /// These glyphs, each wrapped in the color that `color` resolves to.
    pub fn colored(self, color: &LineColor) -> (out: Lines)
        ensures
            out@ == paint_glyphs(self@, color.choice()),
    {
        let choice = color.resolve();
        Lines {
            horizontal: paint_text(self.horizontal, choice),
            vertical: paint_text(self.vertical, choice),
            top_right: paint_text(self.top_right, choice),
            top_left: paint_text(self.top_left, choice),
            bottom_right: paint_text(self.bottom_right, choice),
            bottom_left: paint_text(self.bottom_left, choice),
        }
    }
}

} // verus!
