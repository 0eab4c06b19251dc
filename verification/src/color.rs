//! Coloring text with one of the 256 indexed colors.

use vstd::prelude::*;
use vstd::string::StringExecFns;
use crate::lines::color::{escape_prefix, paint, push_escape_prefix, ColorSpec};

pub use crate::lines::color::{LineColor, RESET_CODE};

verus! {

/// `text` between the escape sequence of the indexed color `color` and
/// the reset sequence.
pub fn color_text(text: &String, color: u8) -> (out: String)
    ensures
        out@ == paint(text@, ColorSpec::Indexed(color)),
{
    let mut out = color_code(color);
    out.append(text.as_str());
    proof {
        reveal_strlit("\x1B[0m");
    }
    out.append(RESET_CODE);
    out
}

/// The escape sequence that switches the foreground to the indexed color
/// `color`.
pub fn color_code(color: u8) -> (out: String)
    ensures
        out@ == escape_prefix(ColorSpec::Indexed(color)),
{
    let mut out = String::new();
    push_escape_prefix(&mut out, ColorSpec::Indexed(color));
    out
}

} // verus!
