//! The border styles.

use vstd::prelude::*;

verus! {

/// Line types
#[derive(Clone, Copy, Debug, PartialEq, Eq)]
pub enum LineType {
    /// Simple lines one line wide.
    /// ```text
    /// ┌──────────────────────────────────────────────────────────┐
    /// │ Lorem ipsum dolor sit amet, consectetur adipiscing elit, │
    /// │ sed do eiusmod tempor incididunt ut labore et dolore     │
    /// └──────────────────────────────────────────────────────────┘
    /// ```
    Basic,
    /// Dotted lines
    /// ```text
    /// ┌╌╌╌╌╌╌╌╌╌╌╌╌╌╌╌╌╌╌╌╌╌╌╌╌╌╌╌╌╌╌╌╌╌╌╌╌╌╌╌╌╌╌╌╌╌╌╌╌╌╌╌╌╌╌╌╌╌╌┐
    /// ╎ Lorem ipsum dolor sit amet, consectetur adipiscing elit, ╎
    /// ╎ sed do eiusmod tempor incididunt ut labore et dolore     ╎
    /// └╌╌╌╌╌╌╌╌╌╌╌╌╌╌╌╌╌╌╌╌╌╌╌╌╌╌╌╌╌╌╌╌╌╌╌╌╌╌╌╌╌╌╌╌╌╌╌╌╌╌╌╌╌╌╌╌╌╌┘
    /// ```
    Dotted,
    /// Bolded single lines
    /// ```text
    /// ┏━━━━━━━━━━━━━━━━━━━━━━━━━━━━━━━━━━━━━━━━━━━━━━━━━━━━━━━━━━┓
    /// ┃ Lorem ipsum dolor sit amet, consectetur adipiscing elit, ┃
    /// ┃ sed do eiusmod tempor incididunt ut labore et dolore     ┃
    /// ┗━━━━━━━━━━━━━━━━━━━━━━━━━━━━━━━━━━━━━━━━━━━━━━━━━━━━━━━━━━┛
    /// ```
    Bold,
    /// Doubled lines
    /// ```text
    /// ╔══════════════════════════════════════════════════════════╗
    /// ║ Lorem ipsum dolor sit amet, consectetur adipiscing elit, ║
    /// ║ sed do eiusmod tempor incididunt ut labore et dolore     ║
    /// ╚══════════════════════════════════════════════════════════╝
    /// ```
    Double,
}

} // verus!
