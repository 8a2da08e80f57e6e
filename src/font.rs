use vstd::prelude::*;

use crate::glyph::{is_supported, GlyphTable, TableView};
use crate::raster::{RasterView, RasterizedChar};
use crate::types::{FontWeight, RasterHeight};

verus! {

/// The tables of a font set, by weight and raster height. A combination that is
/// absent from the domain was not included.
pub type FontView = Map<(FontWeight, RasterHeight), TableView>;

/// Every table is well formed and has the raster height that it is filed under.
pub open spec fn font_wf(font: FontView) -> bool {
    forall|k: (FontWeight, RasterHeight)|
        #[trigger] font.contains_key(k) ==> font[k].wf() && font[k].height == k.1
}

/// The width of every glyph of the combination, or `None` where it was not included.
pub open spec fn width_of(font: FontView, weight: FontWeight, height: RasterHeight) -> Option<nat> {
    if font.contains_key((weight, height)) {
        Some(font[(weight, height)].width)
    } else {
        None
    }
}

/// The rasterized `c` of the combination: absent where the combination was not
/// included or `c` has no glyph.
pub open spec fn raster_of(
    font: FontView,
    c: char,
    weight: FontWeight,
    height: RasterHeight,
) -> Option<RasterView> {
    if font.contains_key((weight, height)) && is_supported(c) {
        Some(
            RasterView {
                raster: font[(weight, height)].glyphs[c as int],
                height: height.pixels(),
                width: font[(weight, height)].width,
            },
        )
    } else {
        None
    }
}

/// What a lookup returned, as a value.
pub open spec fn raster_view(r: Option<RasterizedChar>) -> Option<RasterView> {
    match r {
        Some(rc) => Some(rc@),
        None => None,
    }
}

/// The tables of one font weight, one optional table per raster height.
#[derive(Clone, Copy)]
struct SizeTables<'a> {
    size_14: Option<GlyphTable<'a>>,
    size_18: Option<GlyphTable<'a>>,
    size_22: Option<GlyphTable<'a>>,
    size_32: Option<GlyphTable<'a>>,
}

impl<'a> SizeTables<'a> {
    spec fn slot(self, height: RasterHeight) -> Option<GlyphTable<'a>> {
        match height {
            RasterHeight::Size14 => self.size_14,
            RasterHeight::Size18 => self.size_18,
            RasterHeight::Size22 => self.size_22,
            RasterHeight::Size32 => self.size_32,
        }
    }

    fn empty() -> (r: Self)
        ensures
            forall|h: RasterHeight| (#[trigger] r.slot(h)) is None,
    {
        SizeTables { size_14: None, size_18: None, size_22: None, size_32: None }
    }

    fn get(&self, height: RasterHeight) -> (r: Option<GlyphTable<'a>>)
        ensures
            r == self.slot(height),
    {
        match height {
            RasterHeight::Size14 => self.size_14,
            RasterHeight::Size18 => self.size_18,
            RasterHeight::Size22 => self.size_22,
            RasterHeight::Size32 => self.size_32,
        }
    }

    fn with(self, table: GlyphTable<'a>) -> (r: Self)
        ensures
            forall|h: RasterHeight|
                #[trigger] r.slot(h) == if h == table@.height {
                    Some(table)
                } else {
                    self.slot(h)
                },
    {
        let mut r = self;
        match table.height() {
            RasterHeight::Size14 => r.size_14 = Some(table),
            RasterHeight::Size18 => r.size_18 = Some(table),
            RasterHeight::Size22 => r.size_22 = Some(table),
            RasterHeight::Size32 => r.size_32 = Some(table),
        }
        r
    }
}

/// The glyph tables that are available, at most one per font weight and raster
/// height.
pub struct FontSet<'a> {
    light: SizeTables<'a>,
    regular: SizeTables<'a>,
    bold: SizeTables<'a>,
}

impl<'a> FontSet<'a> {
    closed spec fn slot(self, weight: FontWeight, height: RasterHeight) -> Option<GlyphTable<'a>> {
        match weight {
            FontWeight::Light => self.light.slot(height),
            FontWeight::Regular => self.regular.slot(height),
            FontWeight::Bold => self.bold.slot(height),
        }
    }

    #[verifier::type_invariant]
    closed spec fn inv(self) -> bool {
        forall|w: FontWeight, h: RasterHeight|
            (#[trigger] self.slot(w, h)) matches Some(t) ==> t@.wf() && t@.height == h
    }
}

impl<'a> View for FontSet<'a> {
    type V = FontView;

    closed spec fn view(&self) -> FontView {
        Map::new(
            |k: (FontWeight, RasterHeight)| self.slot(k.0, k.1) is Some,
            |k: (FontWeight, RasterHeight)| self.slot(k.0, k.1)->0@,
        )
    }
}

impl<'a> FontSet<'a> {
    /// A font set with no table.
    pub fn new() -> (r: Self)
        ensures
            r@ == FontView::empty(),
            font_wf(r@),
    {
        let r = FontSet { light: SizeTables::empty(), regular: SizeTables::empty(), bold: SizeTables::empty() };
        assert(r@ =~= FontView::empty());
        r
    }

    /// The same set, with `table` filed under `weight` and the table's raster
    /// height, in place of any table that stood there.
    pub fn with_table(self, weight: FontWeight, table: GlyphTable<'a>) -> (r: Self)
        ensures
            r@ == self@.insert((weight, table@.height), table@),
            font_wf(r@),
    {
        proof {
            use_type_invariant(&self);
        }
        // The table's width getter also states that the table is well formed.
        let _ = table.width();
        let light = if weight == FontWeight::Light { self.light.with(table) } else { self.light };
        let regular = if weight == FontWeight::Regular { self.regular.with(table) } else { self.regular };
        let bold = if weight == FontWeight::Bold { self.bold.with(table) } else { self.bold };
        let ghost g = FontSet { light, regular, bold };
        assert forall|w: FontWeight, h: RasterHeight|
            (#[trigger] g.slot(w, h)) matches Some(t) ==> t@.wf() && t@.height == h by {
            if w == weight {
                assert(g.slot(w, h) == if h == table@.height { Some(table) } else { self.slot(w, h) });
            } else {
                assert(g.slot(w, h) == self.slot(w, h));
            }
        }
        let r = FontSet { light, regular, bold };
        assert(r@ =~= self@.insert((weight, table@.height), table@));
        r
    }

    /// The table filed under the combination, if any.
    fn table(&self, weight: FontWeight, height: RasterHeight) -> (r: Option<GlyphTable<'a>>)
        ensures
            r == self.slot(weight, height),
            font_wf(self@),
            r matches Some(t) ==> self@.contains_key((weight, height)) && self@[(weight, height)] == t@,
            r is None ==> !self@.contains_key((weight, height)),
    {
        proof {
            use_type_invariant(self);
        }
        match weight {
            FontWeight::Light => self.light.get(height),
            FontWeight::Regular => self.regular.get(height),
            FontWeight::Bold => self.bold.get(height),
        }
    }
}

/// Returns the rasterized `c` of the given weight and raster height, or `None`
/// where the set holds no table for the combination or `c` has no glyph. In the
/// latter case a caller may fall back to the glyph of `' '`.
pub fn get_raster<'a>(
    font: &FontSet<'a>,
    c: char,
    style: FontWeight,
    size: RasterHeight,
) -> (r: Option<RasterizedChar<'a>>)
    ensures
        raster_view(r) == raster_of(font@, c, style, size),
        font_wf(font@),
{
    match font.table(style, size) {
        None => None,
        Some(table) => match table.get_char(c) {
            None => None,
            Some(raster) => Some(RasterizedChar::new(raster, size.val(), table.width())),
        },
    }
}

/// Returns the width in pixels of every character of the given weight and raster
/// height, or `None` where the set holds no table for the combination. The width
/// is a few percent smaller than the height.
pub fn get_raster_width(font: &FontSet, style: FontWeight, size: RasterHeight) -> (r: Option<usize>)
    ensures
        r matches Some(w) ==> width_of(font@, style, size) == Some(w as nat) && w > 0,
        r is None ==> width_of(font@, style, size) is None,
        font_wf(font@),
{
    match font.table(style, size) {
        None => None,
        Some(table) => Some(table.width()),
    }
}

} // verus!
