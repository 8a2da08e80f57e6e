use vstd::prelude::*;

use crate::glyph::{grid_view, has_shape};

verus! {

/// What a rasterized character holds: its rows of intensity bytes, its height and
/// its width.
pub struct RasterView {
    pub raster: Seq<Seq<u8>>,
    pub height: nat,
    pub width: nat,
}

/// A rendered character of the font: a view of its grid of `height` rows of
/// `width` intensity bytes, each from 0 (background) to 255 (full coverage).
#[derive(Debug, Clone, Copy)]
pub struct RasterizedChar<'a> {
    raster: &'a [&'a [u8]],
    height: usize,
    width: usize,
}

impl<'a> View for RasterizedChar<'a> {
    type V = RasterView;

    closed spec fn view(&self) -> RasterView {
        RasterView { raster: grid_view(self.raster), height: self.height as nat, width: self.width as nat }
    }
}

impl<'a> RasterizedChar<'a> {
    #[verifier::type_invariant]
    closed spec fn inv(self) -> bool {
        has_shape(grid_view(self.raster), self.height as nat, self.width as nat)
    }

    pub(crate) fn new(raster: &'a [&'a [u8]], height: usize, width: usize) -> (r: Self)
        requires
            has_shape(grid_view(raster), height as nat, width as nat),
        ensures
            r@ == (RasterView { raster: grid_view(raster), height: height as nat, width: width as nat }),
    {
        RasterizedChar { raster, height, width }
    }

    /// The glyph's rows, `height` of them, each of `width` bytes.
    pub fn raster(&self) -> (r: &'a [&'a [u8]])
        ensures
            grid_view(r) == self@.raster,
            has_shape(self@.raster, self@.height, self@.width),
    {
        proof {
            use_type_invariant(self);
        }
        self.raster
    }

    /// Height of the raster box. The visible glyph is slightly smaller.
    pub fn height(&self) -> (r: usize)
        ensures
            r == self@.height,
    {
        self.height
    }

    /// Width of the raster box, the same for every character of one font weight
    /// and raster height.
    pub fn width(&self) -> (r: usize)
        ensures
            r == self@.width,
    {
        self.width
    }
}

} // verus!
