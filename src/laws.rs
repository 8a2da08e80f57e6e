use vstd::prelude::*;

use crate::font::{font_wf, raster_of, raster_view, width_of, FontView};
use crate::glyph::{has_shape, is_supported};
use crate::raster::RasterizedChar;
use crate::types::{FontWeight, RasterHeight};

verus! {

/// Every combination that a font set includes has a positive width, which
/// depends on the weight and the raster height alone.
pub proof fn lemma_width_positive(font: FontView, weight: FontWeight, height: RasterHeight)
    requires
        font_wf(font),
        font.contains_key((weight, height)),
    ensures
        width_of(font, weight, height) matches Some(w) && w > 0,
{
}

/// A supported character is found in every included combination, as a grid of
/// `height` rows, each as wide as the combination's width.
pub proof fn lemma_supported_found(font: FontView, c: char, weight: FontWeight, height: RasterHeight)
    requires
        font_wf(font),
        font.contains_key((weight, height)),
        is_supported(c),
    ensures
        raster_of(font, c, weight, height) matches Some(v) && v.height == height.pixels()
            && width_of(font, weight, height) == Some(v.width) && has_shape(
            v.raster,
            height.pixels(),
            v.width,
        ),
{
}

/// A character outside the supported range is absent from every combination.
pub proof fn lemma_unsupported_absent(font: FontView, c: char, weight: FontWeight, height: RasterHeight)
    requires
        !is_supported(c),
    ensures
        raster_of(font, c, weight, height) is None,
{
}

/// Mono spacing: any two supported characters of one combination have grids of
/// the same width.
pub proof fn lemma_mono_spacing(
    font: FontView,
    a: char,
    b: char,
    weight: FontWeight,
    height: RasterHeight,
)
    requires
        font_wf(font),
        font.contains_key((weight, height)),
        is_supported(a),
        is_supported(b),
    ensures
        raster_of(font, a, weight, height) matches Some(va) && raster_of(font, b, weight, height) matches Some(vb)
            && va.width == vb.width && has_shape(va.raster, va.height, vb.width) && has_shape(
            vb.raster,
            vb.height,
            va.width,
        ),
{
    lemma_supported_found(font, a, weight, height);
    lemma_supported_found(font, b, weight, height);
}

/// Two lookups with the same inputs give the same result, grid contents included.
pub proof fn lemma_lookup_repeatable(
    font: FontView,
    c: char,
    weight: FontWeight,
    height: RasterHeight,
    first: Option<RasterizedChar>,
    second: Option<RasterizedChar>,
)
    requires
        raster_view(first) == raster_of(font, c, weight, height),
        raster_view(second) == raster_of(font, c, weight, height),
    ensures
        raster_view(first) == raster_view(second),
{
}

} // verus!
