use bitmap_font::{
    get_raster, get_raster_width, supports_char, FontSet, FontWeight, GlyphTable, RasterHeight,
    GLYPH_SLOTS,
};

const WEIGHTS: [FontWeight; 3] = [FontWeight::Light, FontWeight::Regular, FontWeight::Bold];
const HEIGHTS: [RasterHeight; 4] = [
    RasterHeight::Size14,
    RasterHeight::Size18,
    RasterHeight::Size22,
    RasterHeight::Size32,
];

fn is_control(v: u32) -> bool {
    v < 0x20 || (0x7F..=0x9F).contains(&v)
}

/// The byte that the test tables hold at a pixel: different for each code point,
/// row, column and weight, so that a lookup of the wrong slot shows.
fn pixel(weight: usize, v: u32, row: usize, col: usize) -> u8 {
    ((v as usize * 7 + row * 13 + col * 3 + weight * 101) % 256) as u8
}

fn width_for(weight: FontWeight, height: RasterHeight) -> usize {
    height.val() * 6 / 10 + weight.val()
}

/// Grids for every slot with the given shape; control slots are left empty.
fn leak_slots(weight: usize, rows: usize, cols: usize) -> &'static [&'static [&'static [u8]]] {
    let mut slots: Vec<&'static [&'static [u8]]> = Vec::new();
    for v in 0..GLYPH_SLOTS as u32 {
        if is_control(v) {
            slots.push(&[]);
            continue;
        }
        let mut grid: Vec<&'static [u8]> = Vec::new();
        for row in 0..rows {
            let bytes: Vec<u8> = (0..cols).map(|col| pixel(weight, v, row, col)).collect();
            grid.push(Vec::leak(bytes));
        }
        slots.push(Vec::leak(grid));
    }
    Vec::leak(slots)
}

fn table(weight: FontWeight, height: RasterHeight) -> GlyphTable<'static> {
    let width = width_for(weight, height);
    GlyphTable::new(height, width, leak_slots(weight.val(), height.val(), width))
        .expect("well-formed table")
}

fn full_set() -> FontSet<'static> {
    let mut set = FontSet::new();
    for weight in WEIGHTS {
        for height in HEIGHTS {
            set = set.with_table(weight, table(weight, height));
        }
    }
    set
}

#[test]
fn weight_values() {
    assert_eq!(FontWeight::Light.val(), 0);
    assert_eq!(FontWeight::Regular.val(), 1);
    assert_eq!(FontWeight::Bold.val(), 2);
}

#[test]
fn height_values() {
    assert_eq!(RasterHeight::Size14.val(), 14);
    assert_eq!(RasterHeight::Size18.val(), 18);
    assert_eq!(RasterHeight::Size22.val(), 22);
    assert_eq!(RasterHeight::Size32.val(), 32);
}

#[test]
fn supported_range_bounds() {
    for (v, expected) in [
        (0x00, false),
        (0x01, false),
        (0x1F, false),
        (0x20, true),
        (0x41, true),
        (0x7E, true),
        (0x7F, false),
        (0x9F, false),
        (0xA0, true),
        (0x17F, true),
        (0x180, false),
        (0x1F600, false),
    ] {
        let c = char::from_u32(v).unwrap();
        assert_eq!(supports_char(c), expected, "code point {:#x}", v);
    }
}

#[test]
fn width_is_positive_and_stable() {
    let set = full_set();
    for weight in WEIGHTS {
        for height in HEIGHTS {
            let w = get_raster_width(&set, weight, height).expect("included combination");
            assert!(w > 0);
            assert_eq!(w, width_for(weight, height));
            assert_eq!(get_raster_width(&set, weight, height), Some(w));
        }
    }
}

#[test]
fn supported_code_points_have_full_grids() {
    let set = full_set();
    for weight in WEIGHTS {
        for height in HEIGHTS {
            let width = get_raster_width(&set, weight, height).unwrap();
            for v in 0..GLYPH_SLOTS as u32 {
                let c = char::from_u32(v).unwrap();
                let r = get_raster(&set, c, weight, height);
                if is_control(v) {
                    assert!(r.is_none(), "control {:#x}", v);
                    continue;
                }
                let rc = r.expect("supported code point");
                assert_eq!(rc.height(), height.val());
                assert_eq!(rc.width(), width);
                assert_eq!(rc.raster().len(), height.val());
                for row in rc.raster() {
                    assert_eq!(row.len(), width);
                }
            }
        }
    }
}

#[test]
fn grid_is_the_code_points_own() {
    let set = full_set();
    let rc = get_raster(&set, 'é', FontWeight::Bold, RasterHeight::Size22).unwrap();
    for (row_i, row) in rc.raster().iter().enumerate() {
        for (col_i, p) in row.iter().enumerate() {
            assert_eq!(*p, pixel(2, 0xE9, row_i, col_i));
        }
    }
}

#[test]
fn unsupported_code_points_are_absent() {
    let set = full_set();
    for weight in WEIGHTS {
        for height in HEIGHTS {
            for c in ['\u{1F600}', '\u{180}', '\u{2603}', '\u{0}', '\u{7F}', '\u{85}'] {
                assert!(get_raster(&set, c, weight, height).is_none());
            }
        }
    }
}

#[test]
fn mono_spacing_of_a_and_i() {
    let set = full_set();
    for weight in WEIGHTS {
        for height in HEIGHTS {
            let a = get_raster(&set, 'A', weight, height).unwrap();
            let i = get_raster(&set, 'i', weight, height).unwrap();
            assert_eq!(a.width(), i.width());
            assert_eq!(a.raster()[0].len(), i.raster()[0].len());
        }
    }
}

#[test]
fn lookup_is_repeatable() {
    let set = full_set();
    let first = get_raster(&set, 'Z', FontWeight::Light, RasterHeight::Size32).unwrap();
    let second = get_raster(&set, 'Z', FontWeight::Light, RasterHeight::Size32).unwrap();
    assert_eq!(first.raster(), second.raster());
    assert_eq!(first.height(), second.height());
    assert_eq!(first.width(), second.width());
}

#[test]
fn regular_a_and_control_char() {
    let set = full_set();
    let w = get_raster_width(&set, FontWeight::Regular, RasterHeight::Size14).unwrap();
    let rc = get_raster(&set, 'A', FontWeight::Regular, RasterHeight::Size14).unwrap();
    assert_eq!(rc.height(), 14);
    assert_eq!(rc.width(), w);
    assert_eq!(rc.raster().len(), 14);
    assert!(rc.raster().iter().all(|row| row.len() == w));
    assert!(get_raster(&set, '\u{1}', FontWeight::Regular, RasterHeight::Size14).is_none());
}

#[test]
fn missing_combination_is_absent() {
    let set = FontSet::new().with_table(
        FontWeight::Regular,
        table(FontWeight::Regular, RasterHeight::Size18),
    );
    assert_eq!(get_raster_width(&set, FontWeight::Regular, RasterHeight::Size18), Some(11));
    assert_eq!(get_raster_width(&set, FontWeight::Regular, RasterHeight::Size14), None);
    assert_eq!(get_raster_width(&set, FontWeight::Bold, RasterHeight::Size18), None);
    assert!(get_raster(&set, 'A', FontWeight::Regular, RasterHeight::Size18).is_some());
    assert!(get_raster(&set, 'A', FontWeight::Regular, RasterHeight::Size32).is_none());
    assert!(get_raster(&set, 'A', FontWeight::Light, RasterHeight::Size18).is_none());
    let empty = FontSet::new();
    assert!(get_raster(&empty, ' ', FontWeight::Regular, RasterHeight::Size14).is_none());
    assert_eq!(get_raster_width(&empty, FontWeight::Regular, RasterHeight::Size14), None);
}

#[test]
fn later_table_replaces_earlier() {
    let narrow = GlyphTable::new(RasterHeight::Size14, 5, leak_slots(0, 14, 5)).unwrap();
    let wide = GlyphTable::new(RasterHeight::Size14, 9, leak_slots(1, 14, 9)).unwrap();
    let set = FontSet::new()
        .with_table(FontWeight::Bold, narrow)
        .with_table(FontWeight::Bold, wide);
    assert_eq!(get_raster_width(&set, FontWeight::Bold, RasterHeight::Size14), Some(9));
    let rc = get_raster(&set, 'x', FontWeight::Bold, RasterHeight::Size14).unwrap();
    assert_eq!(rc.raster()[3][4], pixel(1, 'x' as u32, 3, 4));
}

#[test]
fn table_accessors() {
    let t = table(FontWeight::Light, RasterHeight::Size22);
    assert_eq!(t.height(), RasterHeight::Size22);
    assert_eq!(t.width(), 13);
    assert_eq!(t.get_char('q').unwrap().len(), 22);
    assert!(t.get_char('\u{9F}').is_none());
}

#[test]
fn table_rejects_zero_width() {
    assert!(GlyphTable::new(RasterHeight::Size14, 0, leak_slots(0, 14, 0)).is_none());
}

#[test]
fn table_rejects_wrong_slot_count() {
    let slots = leak_slots(0, 14, 8);
    assert!(GlyphTable::new(RasterHeight::Size14, 8, &slots[..GLYPH_SLOTS - 1]).is_none());
    assert!(GlyphTable::new(RasterHeight::Size14, 8, &[]).is_none());
}

#[test]
fn table_rejects_wrong_row_count() {
    let slots = leak_slots(0, 14, 8);
    assert!(GlyphTable::new(RasterHeight::Size18, 8, slots).is_none());
    let mut short: Vec<&'static [&'static [u8]]> = slots.to_vec();
    short[0x41] = &slots[0x41][..13];
    assert!(GlyphTable::new(RasterHeight::Size14, 8, Vec::leak(short)).is_none());
}

#[test]
fn table_rejects_wrong_row_width() {
    let slots = leak_slots(0, 14, 8);
    assert!(GlyphTable::new(RasterHeight::Size14, 9, slots).is_none());
    let mut grid: Vec<&'static [u8]> = slots[0x17F].to_vec();
    grid[13] = &grid[13][..7];
    let mut changed: Vec<&'static [&'static [u8]]> = slots.to_vec();
    changed[0x17F] = Vec::leak(grid);
    assert!(GlyphTable::new(RasterHeight::Size14, 8, Vec::leak(changed)).is_none());
}

#[test]
fn control_slots_are_not_checked() {
    let mut slots: Vec<&'static [&'static [u8]]> = leak_slots(0, 14, 8).to_vec();
    slots[0x01] = Vec::leak(vec![&[1u8, 2, 3][..]]);
    assert!(GlyphTable::new(RasterHeight::Size14, 8, Vec::leak(slots)).is_some());
}
