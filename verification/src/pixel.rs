//! Colours and positioned colours.

use vstd::prelude::*;
use embedded_graphics::pixelcolor::Rgb565;

verus! {

/// `embedded_graphics::pixelcolor::Rgb565`, a colour in the panel's packed
/// 16-bit format. The library carries such values and never looks inside one.
#[verifier::external_type_specification]
#[verifier::external_body]
pub struct ExRgb565(Rgb565);

/// One colour at one position of the panel: the unit of a transfer.
#[derive(Clone, Copy, Debug, PartialEq, Eq)]
pub struct PixelWrite {
    /// Column, counted from the left edge.
    pub x: i32,
    /// Row, counted from the top edge.
    pub y: i32,
    /// The colour to show there.
    pub color: Rgb565,
}

} // verus!
