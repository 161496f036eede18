//! Sizes and positions.

use vstd::prelude::*;

use crate::strings;

verus! {

/// A point in display points. Each coordinate is carried as the bits of a double.
#[derive(Clone, Copy, Debug, PartialEq, Eq, Structural)]
pub struct DpPoint {
    pub x: u64,
    pub y: u64,
}

/// A size in display points. Each side is carried as the bits of a double.
#[derive(Clone, Copy, Debug, PartialEq, Eq, Structural)]
pub struct DpSize {
    pub width: u64,
    pub height: u64,
}

/// A rectangle in display points. Each edge is carried as the bits of a double.
#[derive(Clone, Copy, Debug, PartialEq, Eq, Structural)]
pub struct DpRect {
    pub x0: u64,
    pub y0: u64,
    pub x1: u64,
    pub y1: u64,
}

/// Whether a number is one of the machine's.
pub open spec fn fits(number: int) -> bool {
    i32::MIN <= number <= i32::MAX
}

/// A size in whole pixels.
#[derive(Clone, Copy, Debug, PartialEq, Eq, Structural)]
pub struct RawSize {
    pub width: i32,
    pub height: i32,
}

/// A rectangle in whole pixels.
#[derive(Clone, Copy, Debug, PartialEq, Eq, Structural)]
pub struct RawRect {
    pub x0: i32,
    pub y0: i32,
    pub x1: i32,
    pub y1: i32,
}

impl RawSize {
    /// The size without extent.
    pub fn zero() -> (size: RawSize)
        ensures
            size == (RawSize { width: 0, height: 0 }),
    {
        RawSize { width: 0, height: 0 }
    }

    /// The size on a screen with more pixels.
    pub fn scale(self, scale: i32) -> (size: RawSize)
        requires
            fits(self.width * scale),
            fits(self.height * scale),
        ensures
            size.width == self.width * scale,
            size.height == self.height * scale,
    {
        RawSize { width: self.width * scale, height: self.height * scale }
    }

    /// The rectangle of this size at the origin.
    pub fn to_rect(self) -> (rect: RawRect)
        ensures
            rect == (RawRect { x0: 0, y0: 0, x1: self.width, y1: self.height }),
    {
        RawRect { x0: 0, y0: 0, x1: self.width, y1: self.height }
    }

    /// The number of pixels.
    pub fn area(self) -> (area: i32)
        requires
            fits(self.width * self.height),
        ensures
            area == self.width * self.height,
    {
        self.width * self.height
    }

    /// Whether there are no pixels.
    pub fn is_empty(self) -> (empty: bool)
        ensures
            empty == (self.width * self.height == 0),
    {
        assert(self.width * self.height == 0 <==> (self.width == 0 || self.height == 0))
            by (nonlinear_arith);
        self.width == 0 || self.height == 0
    }

    /// The size as text, for logging.
    pub fn debug_text(self) -> (text: String)
        ensures
            text@ == strings::decimal(self.width as int).push('×') + strings::decimal(
                self.height as int,
            ),
    {
        let mut text = strings::to_decimal(self.width);
        text.push('×');
        let height = strings::to_decimal(self.height);
        text.append(height.as_str());
        text
    }
}

impl RawRect {
    /// The rectangle on a screen with more pixels.
    pub fn scale(self, scale: i32) -> (rect: RawRect)
        requires
            fits(self.x0 * scale),
            fits(self.y0 * scale),
            fits(self.x1 * scale),
            fits(self.y1 * scale),
        ensures
            rect.x0 == self.x0 * scale,
            rect.y0 == self.y0 * scale,
            rect.x1 == self.x1 * scale,
            rect.y1 == self.y1 * scale,
    {
        RawRect {
            x0: self.x0 * scale,
            y0: self.y0 * scale,
            x1: self.x1 * scale,
            y1: self.y1 * scale,
        }
    }
}

/// The number of pixels grows with the square of the scale.
pub proof fn law_area_of_scaled_size(size: RawSize, scaled: RawSize, scale: int)
    requires
        scaled.width == size.width * scale,
        scaled.height == size.height * scale,
    ensures
        scaled.width * scaled.height == (size.width * size.height) * (scale * scale),
{
    assert((size.width * scale) * (size.height * scale) == (size.width * size.height) * (scale
        * scale)) by (nonlinear_arith);
}

/// Scaling a rectangle scales its sides, whatever corner it has.
pub proof fn law_sides_of_scaled_rectangle(rect: RawRect, scaled: RawRect, scale: int)
    requires
        scaled.x0 == rect.x0 * scale,
        scaled.y0 == rect.y0 * scale,
        scaled.x1 == rect.x1 * scale,
        scaled.y1 == rect.y1 * scale,
    ensures
        scaled.x1 - scaled.x0 == (rect.x1 - rect.x0) * scale,
        scaled.y1 - scaled.y0 == (rect.y1 - rect.y0) * scale,
{
    let (x0, y0, x1, y1) = (rect.x0 as int, rect.y0 as int, rect.x1 as int, rect.y1 as int);
    assert(x1 * scale - x0 * scale == (x1 - x0) * scale) by (nonlinear_arith);
    assert(y1 * scale - y0 * scale == (y1 - y0) * scale) by (nonlinear_arith);
}

} // verus!
