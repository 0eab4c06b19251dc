//! How a box is laid out: padding, alignment, width and border style.

use vstd::prelude::*;
use vstd::string::StringExecFns;
use crate::lines::line_type::LineType;

verus! {

/// The side of the box that the content is set against.
#[derive(Clone, Copy, Debug, PartialEq, Eq)]
pub enum Alignment {
    /// Lines start at the left padding; the slack is on the right.
    Left,
    /// Lines end at the right padding; the slack is on the left.
    Right,
}

/// Why a configuration cannot be rendered.
#[derive(Clone, Copy, Debug, PartialEq, Eq)]
pub enum ConfigError {
    /// `max_width` leaves no column for content once the left and right
    /// padding and the two border columns are taken off.
    WidthTooSmall,
    /// `max_width` with the padding and the border on top of it is more
    /// than a length can be on this machine.
    WidthTooLarge,
}

/// The layout of a box.
pub struct Formatting {
    /// Padding on every side that has none of its own. At the top and the
    /// bottom it counts half, rounded down.
    pub padding: usize,
    /// The side that the content is set against.
    pub alignment: Alignment,
    /// The width from which on a line is wrapped.
    pub max_width: usize,
    /// Columns of padding left of the content, in place of `padding`.
    pub padding_left: Option<usize>,
    /// Columns of padding right of the content, in place of `padding`.
    pub padding_right: Option<usize>,
    /// Rows of padding above the content, in place of half of `padding`.
    pub padding_top: Option<usize>,
    /// Rows of padding below the content, in place of half of `padding`.
    pub padding_bottom: Option<usize>,
    /// The glyphs that the border is drawn with.
    pub border_style: LineType,
}

impl ConfigError {
    /// A sentence that says which constraint the configuration breaks.
    pub fn message(&self) -> (out: String)
        ensures
            out@ == match *self {
                ConfigError::WidthTooSmall =>
                    "max_width must exceed the left and right padding by more than 2"@,
                ConfigError::WidthTooLarge =>
                    "max_width, the left and right padding and 2 must add up to a valid length"@,
            },
    {
        match self {
            ConfigError::WidthTooSmall => String::from_str(
                "max_width must exceed the left and right padding by more than 2",
            ),
            ConfigError::WidthTooLarge => String::from_str(
                "max_width, the left and right padding and 2 must add up to a valid length",
            ),
        }
    }
}

impl Formatting {
    /// The padding left of the content.
    pub open spec fn left(&self) -> nat {
        match self.padding_left {
            Some(pad) => pad as nat,
            None => self.padding as nat,
        }
    }

    /// The padding right of the content.
    pub open spec fn right(&self) -> nat {
        match self.padding_right {
            Some(pad) => pad as nat,
            None => self.padding as nat,
        }
    }

    /// The number of blank rows above the content.
    pub open spec fn top(&self) -> nat {
        match self.padding_top {
            Some(pad) => pad as nat,
            None => (self.padding / 2) as nat,
        }
    }

    /// The number of blank rows below the content.
    pub open spec fn bottom(&self) -> nat {
        match self.padding_bottom {
            Some(pad) => pad as nat,
            None => (self.padding / 2) as nat,
        }
    }

    /// Left and right padding together.
    pub open spec fn horizontal(&self) -> nat {
        self.left() + self.right()
    }

    /// What `validate` answers: `max_width` has to be more than the
    /// horizontal padding and the two border columns, and the widest box
    /// that can come out has to be a valid length.
    pub open spec fn check(&self) -> Result<(), ConfigError> {
        if self.max_width <= self.horizontal() + 2 {
            Err(ConfigError::WidthTooSmall)
        } else if self.max_width + self.horizontal() + 2 > usize::MAX {
            Err(ConfigError::WidthTooLarge)
        } else {
            Ok(())
        }
    }

    /// The configuration can be rendered.
    pub open spec fn valid(&self) -> bool {
        self.check() is Ok
    }

    /// The default layout: padding 2, content set to the left, lines
    /// wrapped from width 80 on, a basic border.
    pub open spec fn defaults() -> Formatting {
        Formatting {
            padding: 2,
            alignment: Alignment::Left,
            max_width: 80,
            padding_left: None,
            padding_right: None,
            padding_top: None,
            padding_bottom: None,
            border_style: LineType::Basic,
        }
    }

    /// The default layout.
    pub fn new() -> (out: Formatting)
        ensures
            out == Formatting::defaults(),
            out.valid(),
    {
        Formatting {
            padding: 2,
            alignment: Alignment::Left,
            max_width: 80,
            padding_left: None,
            padding_right: None,
            padding_top: None,
            padding_bottom: None,
            border_style: LineType::Basic,
        }
    }

    /// The padding left of the content.
    pub fn left_padding(&self) -> (pad: usize)
        ensures
            pad == self.left(),
    {
        match self.padding_left {
            Some(pad) => pad,
            None => self.padding,
        }
    }

    /// The padding right of the content.
    pub fn right_padding(&self) -> (pad: usize)
        ensures
            pad == self.right(),
    {
        match self.padding_right {
            Some(pad) => pad,
            None => self.padding,
        }
    }

    /// The number of blank rows above the content.
    pub fn top_padding(&self) -> (pad: usize)
        ensures
            pad == self.top(),
    {
        match self.padding_top {
            Some(pad) => pad,
            None => self.padding / 2,
        }
    }

    /// The number of blank rows below the content.
    pub fn bottom_padding(&self) -> (pad: usize)
        ensures
            pad == self.bottom(),
    {
        match self.padding_bottom {
            Some(pad) => pad,
            None => self.padding / 2,
        }
    }

    /// Tells whether this configuration can be rendered, and if not, why.
    pub fn validate(&self) -> (out: Result<(), ConfigError>)
        ensures
            out == self.check(),
    {
        let left = self.left_padding();
        let right = self.right_padding();
        if left >= self.max_width || right >= self.max_width - left || self.max_width - left
            - right <= 2 {
            return Err(ConfigError::WidthTooSmall);
        }
        let horizontal = left + right;
        if self.max_width > usize::MAX - horizontal - 2 {
            return Err(ConfigError::WidthTooLarge);
        }
        Ok(())
    }
}

} // verus!
