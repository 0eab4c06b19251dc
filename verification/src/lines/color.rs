//! Border colors: the three ways to name one, and the escape sequences
//! that switch a terminal to it and back.

use vstd::prelude::*;
use vstd::string::StringExecFns;

verus! {

/// The sequence that ends a colored stretch.
pub const RESET_CODE: &'static str = "\x1B[0m";

/// A 24-bit color.
#[derive(Clone, Copy, Debug, PartialEq, Eq)]
pub struct RgbColor {
    pub red: u8,
    pub green: u8,
    pub blue: u8,
}

/// Simple ANSI predefined codes
#[derive(Clone, Copy, Debug, PartialEq, Eq)]
pub enum AnsiColorCode {
    Black,
    Red,
    Green,
    Yellow,
    Blue,
    Magenta,
    Cyan,
    White,
    BrightBlack,
    BrightRed,
    BrightGreen,
    BrightYellow,
    BrightBlue,
    BrightMagenta,
    BrightCyan,
    BrightWhite,
}

/// The one color that a border is drawn in, if any.
#[derive(Clone, Copy, Debug, PartialEq, Eq)]
pub enum ColorSpec {
    /// No color: glyphs are left as they are.
    Plain,
    /// One of the 256 indexed colors.
    Indexed(u8),
    /// Red, green and blue.
    Rgb(u8, u8, u8),
    /// One of the sixteen named colors.
    Named(AnsiColorCode),
}

/// Stores the line color information for the box.
/// Only one line color type should have a value at a time; where several
/// have one, `ansi` wins over `rgb`, and `rgb` over `color8`.
#[derive(Clone, Copy, Debug, PartialEq, Eq)]
pub struct LineColor {
    pub ansi: Option<AnsiColorCode>,
    pub rgb: Option<RgbColor>,
    pub color8: Option<u8>,
}

/// The SGR parameter of a named color: 30 to 37 for the standard colors,
/// 90 to 97 for the bright ones.
pub open spec fn ansi_number(code: AnsiColorCode) -> u8 {
    match code {
        AnsiColorCode::Black => 30,
        AnsiColorCode::Red => 31,
        AnsiColorCode::Green => 32,
        AnsiColorCode::Yellow => 33,
        AnsiColorCode::Blue => 34,
        AnsiColorCode::Magenta => 35,
        AnsiColorCode::Cyan => 36,
        AnsiColorCode::White => 37,
        AnsiColorCode::BrightBlack => 90,
        AnsiColorCode::BrightRed => 91,
        AnsiColorCode::BrightGreen => 92,
        AnsiColorCode::BrightYellow => 93,
        AnsiColorCode::BrightBlue => 94,
        AnsiColorCode::BrightMagenta => 95,
        AnsiColorCode::BrightCyan => 96,
        AnsiColorCode::BrightWhite => 97,
    }
}

/// The character for one decimal digit.
pub open spec fn digit(d: nat) -> char {
    if d == 0 {
        '0'
    } else if d == 1 {
        '1'
    } else if d == 2 {
        '2'
    } else if d == 3 {
        '3'
    } else if d == 4 {
        '4'
    } else if d == 5 {
        '5'
    } else if d == 6 {
        '6'
    } else if d == 7 {
        '7'
    } else if d == 8 {
        '8'
    } else {
        '9'
    }
}

/// `n` written in decimal, without leading zeros.
pub open spec fn decimal(n: nat) -> Seq<char>
    decreases n,
{
    if n < 10 {
        seq![digit(n)]
    } else {
        decimal(n / 10).push(digit(n % 10))
    }
}

/// The sequence that switches the foreground to `choice`; empty for
/// `Plain`.
pub open spec fn escape_prefix(choice: ColorSpec) -> Seq<char> {
    match choice {
        ColorSpec::Plain => Seq::empty(),
        ColorSpec::Indexed(n) => seq!['\x1B', '[', '3', '8', ';', '5', ';'] + decimal(n as nat)
            + seq!['m'],
        ColorSpec::Rgb(r, g, b) => seq!['\x1B', '[', '3', '8', ';', '2', ';'] + decimal(r as nat)
            + seq![';'] + decimal(g as nat) + seq![';'] + decimal(b as nat) + seq!['m'],
        ColorSpec::Named(code) => seq!['\x1B', '['] + decimal(ansi_number(code) as nat)
            + seq!['m'],
    }
}

/// The characters of `RESET_CODE`.
pub open spec fn reset_code() -> Seq<char> {
    seq!['\x1B', '[', '0', 'm']
}

/// `text` in the color `choice`: unchanged for `Plain`, else between the
/// color's escape sequence and the reset sequence.
pub open spec fn paint(text: Seq<char>, choice: ColorSpec) -> Seq<char> {
    match choice {
        ColorSpec::Plain => text,
        _ => escape_prefix(choice) + text + reset_code(),
    }
}

impl AnsiColorCode {
    /// The SGR parameter of this color.
    pub fn number(&self) -> (n: u8)
        ensures
            n == ansi_number(*self),
    {
        match self {
            AnsiColorCode::Black => 30,
            AnsiColorCode::Red => 31,
            AnsiColorCode::Green => 32,
            AnsiColorCode::Yellow => 33,
            AnsiColorCode::Blue => 34,
            AnsiColorCode::Magenta => 35,
            AnsiColorCode::Cyan => 36,
            AnsiColorCode::White => 37,
            AnsiColorCode::BrightBlack => 90,
            AnsiColorCode::BrightRed => 91,
            AnsiColorCode::BrightGreen => 92,
            AnsiColorCode::BrightYellow => 93,
            AnsiColorCode::BrightBlue => 94,
            AnsiColorCode::BrightMagenta => 95,
            AnsiColorCode::BrightCyan => 96,
            AnsiColorCode::BrightWhite => 97,
        }
    }
}

/// The character for the decimal digit `d`.
pub fn digit_char(d: u8) -> (c: char)
    requires
        d < 10,
    ensures
        c == digit(d as nat),
{
    if d == 0 {
        '0'
    } else if d == 1 {
        '1'
    } else if d == 2 {
        '2'
    } else if d == 3 {
        '3'
    } else if d == 4 {
        '4'
    } else if d == 5 {
        '5'
    } else if d == 6 {
        '6'
    } else if d == 7 {
        '7'
    } else if d == 8 {
        '8'
    } else {
        '9'
    }
}

/// Appends `n` in decimal to `out`.
pub fn push_decimal(out: &mut String, n: u8)
    ensures
        final(out)@ == old(out)@ + decimal(n as nat),
{
    proof {
        reveal_with_fuel(decimal, 3);
    }
    if n >= 100 {
        out.push(digit_char(n / 100));
    }
    if n >= 10 {
        out.push(digit_char((n / 10) % 10));
    }
    out.push(digit_char(n % 10));
}

/// Appends the escape sequence that switches to `choice` to `out`.
pub fn push_escape_prefix(out: &mut String, choice: ColorSpec)
    ensures
        final(out)@ == old(out)@ + escape_prefix(choice),
{
    match choice {
        ColorSpec::Plain => {},
        ColorSpec::Indexed(n) => {
            out.push('\x1B');
            out.push('[');
            out.push('3');
            out.push('8');
            out.push(';');
            out.push('5');
            out.push(';');
            push_decimal(out, n);
            out.push('m');
        },
        ColorSpec::Rgb(r, g, b) => {
            out.push('\x1B');
            out.push('[');
            out.push('3');
            out.push('8');
            out.push(';');
            out.push('2');
            out.push(';');
            push_decimal(out, r);
            out.push(';');
            push_decimal(out, g);
            out.push(';');
            push_decimal(out, b);
            out.push('m');
        },
        ColorSpec::Named(code) => {
            out.push('\x1B');
            out.push('[');
            push_decimal(out, code.number());
            out.push('m');
        },
    }
}

/// `text` in the color `choice`.
pub fn paint_text(text: String, choice: ColorSpec) -> (out: String)
    ensures
        out@ == paint(text@, choice),
{
    match choice {
        ColorSpec::Plain => text,
        _ => {
            let mut out = String::new();
            push_escape_prefix(&mut out, choice);
            out.append(text.as_str());
            proof {
                reveal_strlit("\x1B[0m");
            }
            out.append(RESET_CODE);
            out
        },
    }
}

impl LineColor {
    /// Constructs a line color struct with no values for each color.
    pub fn new() -> (out: LineColor)
        ensures
            out.ansi is None,
            out.rgb is None,
            out.color8 is None,
            out.choice() == ColorSpec::Plain,
    {
        LineColor { ansi: None, rgb: None, color8: None }
    }

    /// The color that wins: the named one if set, else the RGB one, else
    /// the indexed one, else none.
    pub open spec fn choice(&self) -> ColorSpec {
        match (self.ansi, self.rgb, self.color8) {
            (Some(code), _, _) => ColorSpec::Named(code),
            (None, Some(rgb), _) => ColorSpec::Rgb(rgb.red, rgb.green, rgb.blue),
            (None, None, Some(n)) => ColorSpec::Indexed(n),
            (None, None, None) => ColorSpec::Plain,
        }
    }

    /// The color that wins, as a value.
    pub fn resolve(&self) -> (out: ColorSpec)
        ensures
            out == self.choice(),
    {
        if let Some(code) = self.ansi {
            ColorSpec::Named(code)
        } else if let Some(rgb) = self.rgb {
            ColorSpec::Rgb(rgb.red, rgb.green, rgb.blue)
        } else if let Some(n) = self.color8 {
            ColorSpec::Indexed(n)
        } else {
            ColorSpec::Plain
        }
    }

    /// Wraps the given text in the color specified by the LineColor struct.
    pub fn wrap_color(&self, text: String) -> (out: String)
        ensures
            out@ == paint(text@, self.choice()),
    {
        if let Some(ansi) = &self.ansi {
            self.color_code(text, ansi)
        } else if let Some(rgb) = &self.rgb {
            self.color_rgb(text, rgb)
        } else if let Some(color8) = &self.color8 {
            self.color_8(text, color8)
        } else {
            text
        }
    }

    /// Sets 8 bit color code.
    /// 0-7 are standard colors
    /// 8-15 are high intensity colors
    /// 16-231 are defined by 16 + 36 x r + 6 x g + b (0 <= r, g, b <= 5)
    /// 232-255 are grayscale from black to white in 24 steps
    fn color_8(&self, text: String, color: &u8) -> (out: String)
        ensures
            out@ == paint(text@, ColorSpec::Indexed(*color)),
    {
        paint_text(text, ColorSpec::Indexed(*color))
    }

    /// Basic RGB colors.
    fn color_rgb(&self, text: String, rgb: &RgbColor) -> (out: String)
        ensures
            out@ == paint(text@, ColorSpec::Rgb(rgb.red, rgb.green, rgb.blue)),
    {
        paint_text(text, ColorSpec::Rgb(rgb.red, rgb.green, rgb.blue))
    }

    /// Simplest ANSI color codes defined by AnsiColorCode enumerated type.
    fn color_code(&self, text: String, code: &AnsiColorCode) -> (out: String)
        ensures
            out@ == paint(text@, ColorSpec::Named(*code)),
    {
        paint_text(text, ColorSpec::Named(*code))
    }
}

/// `text` in the indexed color `color`.
pub fn color_8(text: String, color: u8) -> (out: String)
    ensures
        out@ == paint(text@, ColorSpec::Indexed(color)),
{
    paint_text(text, ColorSpec::Indexed(color))
}

/// `text` in the color of the three components.
pub fn color_rgb(text: String, red: u8, green: u8, blue: u8) -> (out: String)
    ensures
        out@ == paint(text@, ColorSpec::Rgb(red, green, blue)),
{
    paint_text(text, ColorSpec::Rgb(red, green, blue))
}

/// `text` in the named color `color_code`.
pub fn color_code(text: String, code: &AnsiColorCode) -> (out: String)
    ensures
        out@ == paint(text@, ColorSpec::Named(*code)),
{
    paint_text(text, ColorSpec::Named(*code))
}

} // verus!
