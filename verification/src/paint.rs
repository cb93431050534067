use vstd::prelude::*;
use vstd::std_specs::convert::IntoSpec;
use crate::color::Color;
use crate::scalar::{Scalar, ONE_BITS, ZERO_BITS};

verus! {

/// How a path is painted. A width is stored as given: zero and negative
/// widths are legal values, and their meaning is the backend's.
#[derive(Copy, Clone, Debug, PartialEq, Eq, Structural)]
pub enum PaintStyle {
    Fill,
    Stroke(Scalar),
    FillAndStroke(Scalar),
}

impl PaintStyle {
    /// Whether the inside of a path is painted.
    pub fn is_filled(self) -> (filled: bool)
        ensures
            filled == (self is Fill || self is FillAndStroke),
    {
        match self {
            PaintStyle::Fill => true,
            PaintStyle::Stroke(_) => false,
            PaintStyle::FillAndStroke(_) => true,
        }
    }

    /// The width of the outline, where one is painted.
    pub fn stroke_width(self) -> (width: Option<Scalar>)
        ensures
            width == match self {
                PaintStyle::Fill => None,
                PaintStyle::Stroke(w) => Some(w),
                PaintStyle::FillAndStroke(w) => Some(w),
            },
    {
        match self {
            PaintStyle::Fill => None,
            PaintStyle::Stroke(w) => Some(w),
            PaintStyle::FillAndStroke(w) => Some(w),
        }
    }
}

impl Default for PaintStyle {
    #[inline]
    fn default() -> (style: Self)
        ensures
            style == PaintStyle::Fill,
    {
        PaintStyle::Fill
    }
}

/// What a drawing operation paints with.
#[derive(Copy, Clone, Debug, PartialEq, Eq, Structural)]
pub struct Paint {
    pub color: Color,
    pub style: PaintStyle,
    pub anti_alias: bool,
}

impl Paint {
    /// The paint that a fresh `Paint` holds: opaque black, filled, not
    /// anti-aliased.
    pub open spec fn initial() -> Paint {
        Paint {
            color: Color::of_bits(ZERO_BITS, ZERO_BITS, ZERO_BITS, ONE_BITS),
            style: PaintStyle::Fill,
            anti_alias: false,
        }
    }

    #[inline]
    pub fn new() -> (paint: Self)
        ensures
            paint == Self::initial(),
    {
        Self { color: Color::black(), style: PaintStyle::Fill, anti_alias: false }
    }

    /// Sets the colour from any value that converts to one. Style and
    /// anti-aliasing stay as they are.
    #[inline]
    pub fn set_color<C: Into<Color>>(&mut self, color: C)
        ensures
            C::obeys_into_spec() ==> final(self).color == color.into_spec(),
            final(self).style == old(self).style,
            final(self).anti_alias == old(self).anti_alias,
    {
        self.color = color.into();
    }

    #[inline]
    pub fn set_style(&mut self, style: PaintStyle)
        ensures
            *final(self) == (Paint { style, ..*old(self) }),
    {
        self.style = style;
    }

    #[inline]
    pub fn set_anti_alias(&mut self, anti_alias: bool)
        ensures
            *final(self) == (Paint { anti_alias, ..*old(self) }),
    {
        self.anti_alias = anti_alias;
    }

    pub fn style(&self) -> (style: PaintStyle)
        ensures
            style == self.style,
    {
        self.style
    }

    pub fn color(&self) -> (color: Color)
        ensures
            color == self.color,
    {
        self.color
    }
}

impl Default for Paint {
    #[inline]
    fn default() -> (paint: Self)
        ensures
            paint == Paint::initial(),
    {
        Self::new()
    }
}

} // verus!
