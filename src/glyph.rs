use vstd::prelude::*;

use crate::types::RasterHeight;

verus! {

/// Number of table slots: one per Unicode scalar value from `0` through `0x17F`
/// (Basic Latin, Latin-1 Supplement and Latin Extended-A).
pub const GLYPH_SLOTS: usize = 0x180;

/// Whether a code point has a glyph: it lies in `0..=0x17F` and is not a control
/// character (`0x00..=0x1F`, `0x7F..=0x9F`).
pub open spec fn is_supported_value(v: int) -> bool {
    ||| 0x20 <= v <= 0x7E
    ||| 0xA0 <= v <= 0x17F
}

/// Whether a character has a glyph in every table.
pub open spec fn is_supported(c: char) -> bool {
    is_supported_value(c as int)
}

/// Returns whether `c` has a glyph in every table.
pub fn supports_char(c: char) -> (r: bool)
    ensures
        r == is_supported(c),
{
    let v = c as u32;
    (0x20 <= v && v <= 0x7E) || (0xA0 <= v && v <= 0x17F)
}

/// The rows of a grid, each as the sequence of its bytes.
pub open spec fn grid_view(g: &[&[u8]]) -> Seq<Seq<u8>> {
    g@.map_values(|row: &[u8]| row@)
}

/// The grids of a table, slot by slot.
pub open spec fn table_view(glyphs: &[&[&[u8]]]) -> Seq<Seq<Seq<u8>>> {
    glyphs@.map_values(|g: &[&[u8]]| grid_view(g))
}

/// A grid of `height` rows, each of `width` bytes.
pub open spec fn has_shape(grid: Seq<Seq<u8>>, height: nat, width: nat) -> bool {
    &&& grid.len() == height
    &&& forall|r: int| 0 <= r < grid.len() ==> (#[trigger] grid[r]).len() == width
}

/// What a glyph table holds: its raster height, the width shared by all of its
/// glyphs, and one grid per slot.
pub struct TableView {
    pub height: RasterHeight,
    pub width: nat,
    pub glyphs: Seq<Seq<Seq<u8>>>,
}

impl TableView {
    /// One slot per code point of the range, and every supported slot holds a grid
    /// of `height` rows of `width` bytes, with `width` at least one.
    pub open spec fn wf(self) -> bool {
        &&& self.width > 0
        &&& self.glyphs.len() == GLYPH_SLOTS
        &&& forall|i: int|
            is_supported_value(i) ==> has_shape(
                #[trigger] self.glyphs[i],
                self.height.pixels(),
                self.width,
            )
    }

    /// The grid of `c`, or `None` where `c` has no glyph.
    pub open spec fn glyph(self, c: char) -> Option<Seq<Seq<u8>>> {
        if is_supported(c) {
            Some(self.glyphs[c as int])
        } else {
            None
        }
    }
}

/// The glyphs of one font weight at one raster height, indexed directly by code
/// point. Slots of control characters are never read and may hold anything.
#[derive(Clone, Copy)]
pub struct GlyphTable<'a> {
    height: RasterHeight,
    width: usize,
    glyphs: &'a [&'a [&'a [u8]]],
}

impl<'a> View for GlyphTable<'a> {
    type V = TableView;

    closed spec fn view(&self) -> TableView {
        TableView {
            height: self.height,
            width: self.width as nat,
            glyphs: table_view(self.glyphs),
        }
    }
}

impl<'a> GlyphTable<'a> {
    #[verifier::type_invariant]
    closed spec fn inv(self) -> bool {
        self@.wf()
    }

    /// Makes a table of the given height and width from one grid per code point
    /// `0..=0x17F`. Returns `None` unless `width` is positive, there are exactly
    /// that many grids, and every supported code point's grid has `height` rows of
    /// `width` bytes.
    pub fn new(height: RasterHeight, width: usize, glyphs: &'a [&'a [&'a [u8]]]) -> (r: Option<
        Self,
    >)
        ensures
            r is Some <==> (TableView {
                height,
                width: width as nat,
                glyphs: table_view(glyphs),
            }).wf(),
            r matches Some(t) ==> t@ == (TableView {
                height,
                width: width as nat,
                glyphs: table_view(glyphs),
            }),
    {
        let ghost target = TableView {
            height,
            width: width as nat,
            glyphs: table_view(glyphs),
        };
        if width == 0 || glyphs.len() != GLYPH_SLOTS {
            return None;
        }
        let rows = height.val();
        let mut i: usize = 0;
        while i < GLYPH_SLOTS
            invariant
                0 <= i <= GLYPH_SLOTS,
                glyphs@.len() == GLYPH_SLOTS,
                rows == height.pixels(),
                target.glyphs == table_view(glyphs),
                target.height == height,
                target.width == width,
                forall|k: int|
                    0 <= k < i && is_supported_value(k) ==> has_shape(
                        #[trigger] target.glyphs[k],
                        rows as nat,
                        width as nat,
                    ),
            decreases GLYPH_SLOTS - i,
        {
            if (0x20 <= i && i <= 0x7E) || (0xA0 <= i && i <= 0x17F) {
                let grid = glyphs[i];
                assert(target.glyphs[i as int] == grid_view(grid));
                if grid.len() != rows {
                    assert(!has_shape(target.glyphs[i as int], rows as nat, width as nat));
                    return None;
                }
                let mut r: usize = 0;
                while r < rows
                    invariant
                        0 <= r <= rows,
                        grid@.len() == rows,
                        i < target.glyphs.len(),
                        is_supported_value(i as int),
                        target.glyphs == table_view(glyphs),
                        target.height == height,
                        target.width == width,
                        rows == height.pixels(),
                        target.glyphs[i as int] == grid_view(grid),
                        forall|q: int| 0 <= q < r ==> (#[trigger] grid@[q])@.len() == width,
                    decreases rows - r,
                {
                    if grid[r].len() != width {
                        assert(grid_view(grid)[r as int].len() != width);
                        assert(!has_shape(target.glyphs[i as int], rows as nat, width as nat));
                        return None;
                    }
                    r = r + 1;
                }
                assert(has_shape(grid_view(grid), rows as nat, width as nat));
            }
            i = i + 1;
        }
        Some(GlyphTable { height, width, glyphs })
    }

    /// The raster height of every glyph of the table.
    pub fn height(&self) -> (r: RasterHeight)
        ensures
            r == self@.height,
    {
        self.height
    }

    /// The width in pixels shared by every glyph of the table.
    pub fn width(&self) -> (r: usize)
        ensures
            r == self@.width,
            self@.wf(),
    {
        proof {
            use_type_invariant(self);
        }
        self.width
    }

    /// Returns the grid of `c`, or `None` where `c` has no glyph.
    pub fn get_char(&self, c: char) -> (r: Option<&'a [&'a [u8]]>)
        ensures
            self@.wf(),
            r is Some <==> is_supported(c),
            r matches Some(g) ==> self@.glyph(c) == Some(grid_view(g)),
    {
        proof {
            use_type_invariant(self);
        }
        if supports_char(c) {
            let i = c as u32 as usize;
            Some(self.glyphs[i])
        } else {
            None
        }
    }
}

} // verus!
