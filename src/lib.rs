//! Lookup of pre-rasterized, anti-aliased glyph bitmaps of a mono-spaced font.
//!
//! Each glyph is a grid of intensity bytes (0 = background, 255 = full coverage).
//! Glyph tables are produced ahead of time, one per font weight and raster height,
//! and the library selects the right table and hands out a view of a glyph's grid.
//! No lookup allocates, computes with floats or mutates anything.

mod font;
mod glyph;
mod laws;
mod raster;
mod types;

pub use font::{font_wf, get_raster, get_raster_width, raster_of, raster_view, width_of, FontSet, FontView};
pub use glyph::{
    grid_view, has_shape, is_supported, is_supported_value, supports_char, table_view, GlyphTable,
    TableView, GLYPH_SLOTS,
};
pub use laws::{
    lemma_lookup_repeatable, lemma_mono_spacing, lemma_supported_found, lemma_unsupported_absent,
    lemma_width_positive,
};
pub use raster::{RasterView, RasterizedChar};
pub use types::{FontWeight, RasterHeight};
