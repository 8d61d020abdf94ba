use skribo::hb_layout::{FontId, HbThreadData, GLYPH_FLAG_UNSAFE_TO_BREAK};
use skribo::session::{Position, Vector};
use skribo::tables::{SCRIPT_DEVANAGARI, SCRIPT_LATIN};
use skribo::{build_fragment, FontRef, GlyphInfo, LayoutFragment, LayoutSession, ShapedGlyph, TextStyle};
use std::sync::Arc;

const FONT_PATH: &str = "/usr/share/fonts/truetype/dejavu/DejaVuSans.ttf";

fn font_ref() -> FontRef {
    let font = font_kit::font::Font::from_path(FONT_PATH, 0).expect("test font");
    FontRef::new(font)
}

fn glyph(cluster: u32, glyph_id: u32, x_advance: i32, x_offset: i32, flags: u32) -> ShapedGlyph {
    ShapedGlyph {
        cluster,
        glyph_id,
        x_advance,
        y_advance: 0,
        x_offset,
        y_offset: 0,
        flags,
    }
}

fn fragment(glyphs: &[ShapedGlyph], substr_len: usize, script: u32) -> LayoutFragment {
    // 12 pt in 1/64 point, for an em of 2048 units.
    build_fragment(&glyphs.to_vec(), 768, 2048, substr_len, script, font_ref()).expect("fits")
}

fn all_glyphs(it: &mut skribo::LayoutRangeIter) -> Vec<GlyphInfo> {
    let mut out = Vec::new();
    while let Some(run) = it.next() {
        out.extend(run.glyphs());
    }
    out
}

#[test]
fn fragment_scales_and_accumulates() {
    let f = fragment(
        &[glyph(0, 10, 1000, 0, 0), glyph(1, 11, 2048, -1000, GLYPH_FLAG_UNSAFE_TO_BREAK)],
        2,
        SCRIPT_LATIN,
    );
    assert_eq!(f.substr_len, 2);
    assert_eq!(f.script, SCRIPT_LATIN);
    assert_eq!(f.glyphs.len(), 2);
    assert_eq!(f.glyphs[0].advance, Vector { x: 375, y: 0 });
    assert_eq!(f.glyphs[0].offset, Vector { x: 0, y: 0 });
    assert!(!f.glyphs[0].unsafe_to_break);
    assert_eq!(f.glyphs[1].advance, Vector { x: 768, y: 0 });
    assert_eq!(f.glyphs[1].offset, Vector { x: 0, y: 0 });
    assert!(f.glyphs[1].unsafe_to_break);
    assert_eq!(f.glyphs[1].cluster, 1);
    assert_eq!(f.glyphs[1].glyph_id, 11);
    assert_eq!(f.advance, Vector { x: 1143, y: 0 });
}

#[test]
fn negative_positions_round_toward_zero() {
    let f = fragment(&[glyph(0, 1, -1, -3, 0)], 1, SCRIPT_LATIN);
    assert_eq!(f.glyphs[0].advance, Vector { x: 0, y: 0 });
    assert_eq!(f.glyphs[0].offset, Vector { x: -1, y: 0 });
}

#[test]
fn fragment_that_overflows_is_refused() {
    let big = glyph(0, 1, i32::MAX, 0, 0);
    let r = build_fragment(&vec![big, big], u32::MAX, 1, 1, SCRIPT_LATIN, font_ref());
    assert!(r.is_none());
    let r = build_fragment(&vec![big], u32::MAX, 1, 1, SCRIPT_LATIN, font_ref());
    assert!(r.is_some());
}

fn collection() -> skribo::FontCollection {
    let mut collection = skribo::FontCollection::new();
    collection.add_family(skribo::FontFamily::new_from_font(
        font_kit::font::Font::from_path(FONT_PATH, 0).expect("test font"),
    ));
    collection
}

fn session() -> LayoutSession {
    let text = "Hello हि".to_string();
    let shaped = vec![
        vec![glyph(0, 1, 1000, 0, 0), glyph(1, 2, 1000, 0, 0)],
        vec![glyph(0, 3, 2048, 0, 0)],
    ];
    LayoutSession::create(text, &TextStyle::from_size(768), &collection(), shaped).expect("one list per piece")
}

#[test]
fn create_needs_one_glyph_list_per_piece() {
    let style = TextStyle::from_size(768);
    let c = collection();
    let one = vec![vec![glyph(0, 1, 1000, 0, 0)]];
    assert!(LayoutSession::create("Hello हि".to_string(), &style, &c, one.clone()).is_none());
    assert!(LayoutSession::create("Hello!".to_string(), &style, &c, one.clone()).is_some());
    assert!(LayoutSession::create(String::new(), &style, &c, Vec::new()).is_some());
    let empty = skribo::FontCollection::new();
    assert!(LayoutSession::create("Hello!".to_string(), &style, &empty, one).is_none());
    assert!(LayoutSession::create(String::new(), &style, &empty, Vec::new()).is_some());
}

#[test]
fn create_splits_by_script_run() {
    let s = session();
    let mut it = s.iter_all();
    let first = it.next().expect("first run");
    assert_eq!(first.fragment.substr_len, 6);
    assert_eq!(first.fragment.script, SCRIPT_LATIN);
    let second = it.next().expect("second run");
    assert_eq!(second.fragment.substr_len, 6);
    assert_eq!(second.fragment.script, SCRIPT_DEVANAGARI);
}

#[test]
fn iter_all_offsets_are_running_sums() {
    let s = session();
    let mut it = s.iter_all();
    let first = it.next().expect("first run");
    assert_eq!(first.offset, Position { x: 0, y: 0 });
    let second = it.next().expect("second run");
    assert_eq!(second.offset, Position { x: 750, y: 0 });
    assert!(it.next().is_none());
    assert_eq!(it.offset, Position { x: 750 + 768, y: 0 });
}

#[test]
fn glyphs_are_positioned_from_origin() {
    let s = session();
    let mut it = s.iter_all();
    let glyphs = all_glyphs(&mut it);
    let ids: Vec<u32> = glyphs.iter().map(|g| g.glyph_id).collect();
    let xs: Vec<i128> = glyphs.iter().map(|g| g.offset.x).collect();
    assert_eq!(ids, vec![1, 2, 3]);
    assert_eq!(xs, vec![0, 375, 750]);
}

#[test]
fn full_range_query_matches_whole_layout() {
    let mut s = session();
    let whole = all_glyphs(&mut s.iter_all());
    let len = s.text().len();
    let replacement = vec![vec![glyph(0, 99, 10, 0, 0)]];
    let queried = all_glyphs(&mut s.iter_substr(0..len, replacement).expect("whole layout"));
    assert_eq!(queried, whole);
}

#[test]
fn substring_plan_clips_fragments() {
    let s = session();
    let plan = s.substr_plan(&(3..9));
    assert_eq!(plan.len(), 2);
    assert_eq!(plan[0].0, 3..6);
    assert_eq!(plan[0].1, SCRIPT_LATIN);
    assert_eq!(plan[1].0, 6..9);
    assert_eq!(plan[1].1, SCRIPT_DEVANAGARI);
    assert!(s.substr_plan(&(0..12)).is_empty());
    let empty = s.substr_plan(&(2..2));
    assert_eq!(empty.len(), 1);
    assert_eq!(empty[0].0, 2..2);
    let plan = s.substr_plan(&(7..12));
    assert_eq!(plan.len(), 1);
    assert_eq!(plan[0].0, 7..12);
}

#[test]
fn substring_query_uses_shaped_pieces() {
    let mut s = session();
    assert!(s.iter_substr(3..9, vec![vec![glyph(0, 7, 2048, 0, 0)]]).is_none());
    let pieces = vec![vec![glyph(0, 7, 2048, 0, 0)], vec![glyph(0, 8, 2048, 0, 0)]];
    let mut it = s.iter_substr(3..9, pieces).expect("one list per piece");
    let lens: Vec<(usize, u32)> = it.fragments.iter().map(|f| (f.substr_len, f.script)).collect();
    assert_eq!(lens, vec![(3, SCRIPT_LATIN), (3, SCRIPT_DEVANAGARI)]);
    let glyphs = all_glyphs(&mut it);
    let ids: Vec<u32> = glyphs.iter().map(|g| g.glyph_id).collect();
    let xs: Vec<i128> = glyphs.iter().map(|g| g.offset.x).collect();
    assert_eq!(ids, vec![7, 8]);
    assert_eq!(xs, vec![0, 768]);
}

#[test]
fn axis_locations_need_four_byte_tags() {
    let mut f = font_ref();
    assert!(f.set_axis_location("wght", 700.0f32.to_bits()));
    assert!(f.set_axis_location("wdth", 100.0f32.to_bits()));
    assert!(f.set_axis_location("wght", 400.0f32.to_bits()));
    assert!(!f.set_axis_location("wdt", 1));
    assert!(!f.set_axis_location("weight", 1));
    assert_eq!(
        skribo::hb_layout::get_variation_data(&f),
        vec![(0x7767_6874, 400.0f32.to_bits()), (0x7764_7468, 100.0f32.to_bits())]
    );
}

#[test]
fn face_cache_keeps_first_face_per_font() {
    let f = font_ref();
    let mut cache: HbThreadData<u32> = HbThreadData::new();
    assert!(cache.face(&FontId::from_name(f.font.postscript_name())).is_none());
    assert!(cache.insert(FontId::from_name(f.font.postscript_name()), Arc::new(1)));
    assert!(!cache.insert(FontId::from_name(f.font.postscript_name()), Arc::new(2)));
    assert_eq!(cache.face(&FontId::from_name(f.font.postscript_name())).map(|a| **a), Some(1));
}

#[test]
fn font_reports_its_metrics() {
    let f = font_ref();
    assert_eq!(f.units_per_em(), 2048);
    assert!(f.copy_font_data().map(|d| d.len() > 0).unwrap_or(false));
}

#[test]
fn itemize_with_real_font() {
    let mut collection = skribo::FontCollection::new();
    collection.add_family(skribo::FontFamily::new_from_font(
        font_kit::font::Font::from_path(FONT_PATH, 0).expect("test font"),
    ));
    let text = "Hello हि";
    let runs = collection.itemize(text);
    assert_eq!(runs.len(), 1);
    assert_eq!(runs[0].0, 0..text.len());
    let plan = LayoutSession::plan(text, &collection);
    let ranges: Vec<_> = plan.iter().map(|p| (p.0.clone(), p.1)).collect();
    assert_eq!(ranges, vec![(0..6, SCRIPT_LATIN), (6..12, SCRIPT_DEVANAGARI)]);
}

#[test]
fn session_from_plan_covers_text() {
    let mut collection = skribo::FontCollection::new();
    collection.add_family(skribo::FontFamily::new_from_font(
        font_kit::font::Font::from_path(FONT_PATH, 0).expect("test font"),
    ));
    let text = "Hello हिन्दी 42";
    let shaped: Vec<Vec<ShapedGlyph>> = LayoutSession::plan(text, &collection)
        .into_iter()
        .map(|(range, _, _)| {
            text[range]
                .char_indices()
                .map(|(i, _)| glyph(i as u32, 1, 1024, 0, 0))
                .collect()
        })
        .collect();
    let session = LayoutSession::create(text.to_string(), &TextStyle::from_size(768), &collection, shaped)
        .expect("one list per piece");
    let mut it = session.iter_all();
    let mut pieces = Vec::new();
    while let Some(run) = it.next() {
        pieces.push((run.fragment.substr_len, run.fragment.script));
    }
    assert_eq!(pieces, vec![(6, SCRIPT_LATIN), (21, SCRIPT_DEVANAGARI)]);
    let total: usize = pieces.iter().map(|p| p.0).sum();
    assert_eq!(total, text.len());
}

#[test]
fn layout_fragment_scales_by_font_em() {
    let font = font_ref();
    let style = TextStyle::from_size(768);
    let shaped = vec![glyph(0, 5, 2048, 0, 0), glyph(1, 6, 1024, 512, 0)];
    let f = skribo::layout_fragment(&style, &font, SCRIPT_LATIN, "ab", &shaped).expect("fits");
    assert_eq!(f.substr_len, 2);
    assert_eq!(f.glyphs[0].advance, Vector { x: 768, y: 0 });
    assert_eq!(f.glyphs[1].offset, Vector { x: 768 + 192, y: 0 });
    assert_eq!(f.advance, Vector { x: 768 + 384, y: 0 });
}
