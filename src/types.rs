use vstd::prelude::*;

verus! {

/// Supported font weights.
#[derive(Debug, Clone, Copy, PartialEq, Eq, Structural)]
pub enum FontWeight {
    Light,
    Regular,
    Bold,
}

impl FontWeight {
    /// The position of the weight in the order `Light`, `Regular`, `Bold`.
    pub open spec fn index(self) -> nat {
        match self {
            FontWeight::Light => 0,
            FontWeight::Regular => 1,
            FontWeight::Bold => 2,
        }
    }

    /// Returns the numeric value of the variant.
    pub fn val(self) -> (r: usize)
        ensures
            r == self.index(),
    {
        match self {
            FontWeight::Light => 0,
            FontWeight::Regular => 1,
            FontWeight::Bold => 2,
        }
    }
}

/// The height in pixels of a pre-rasterized glyph box. The visible font size is a
/// few percent smaller, because each glyph carries vertical padding so that
/// characters such as `Ä`, `y` and `A` line up.
#[derive(Debug, Clone, Copy, PartialEq, Eq, Structural)]
pub enum RasterHeight {
    Size14,
    Size18,
    Size22,
    Size32,
}

impl RasterHeight {
    /// The height in pixels that the variant stands for.
    pub open spec fn pixels(self) -> nat {
        match self {
            RasterHeight::Size14 => 14,
            RasterHeight::Size18 => 18,
            RasterHeight::Size22 => 22,
            RasterHeight::Size32 => 32,
        }
    }

    /// Returns the height in pixels.
    pub fn val(self) -> (r: usize)
        ensures
            r == self.pixels(),
            r > 0,
    {
        match self {
            RasterHeight::Size14 => 14,
            RasterHeight::Size18 => 18,
            RasterHeight::Size22 => 22,
            RasterHeight::Size32 => 32,
        }
    }
}

} // verus!
