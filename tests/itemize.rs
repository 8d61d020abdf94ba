use skribo::collection::{choose_family, covers, font_runs, tag_to_int};
use skribo::hb_layout::FontId;
use skribo::FontCollection;

fn latin_support(c: char) -> bool {
    c.is_ascii()
}

fn devanagari_support(c: char) -> bool {
    ('\u{900}'..='\u{97F}').contains(&c)
}

fn families_for(text: &str) -> Vec<usize> {
    text.chars()
        .map(|c| choose_family(&vec![latin_support(c), devanagari_support(c)]))
        .collect()
}

#[test]
fn latin_and_devanagari_runs() {
    let text = "Hello हिन्दी";
    let runs = font_runs(text, &families_for(text));
    assert_eq!(runs, vec![(0..6, 0), (6..text.len(), 1)]);
}

#[test]
fn runs_partition_the_text() {
    let text = "ab cd हि x";
    let runs = font_runs(text, &families_for(text));
    assert_eq!(runs[0].0.start, 0);
    assert_eq!(runs[runs.len() - 1].0.end, text.len());
    for k in 0..runs.len() {
        assert!(runs[k].0.start < runs[k].0.end);
        if k + 1 < runs.len() {
            assert_eq!(runs[k].0.end, runs[k + 1].0.start);
            assert_ne!(runs[k].1, runs[k + 1].1);
        }
    }
}

#[test]
fn empty_text_has_no_runs() {
    assert!(font_runs("", &Vec::new()).is_empty());
}

#[test]
fn uncovered_falls_back_to_first_family() {
    assert_eq!(choose_family(&vec![false, false]), 0);
    assert_eq!(choose_family(&vec![false, true, true]), 1);
    assert_eq!(choose_family(&vec![true, true]), 0);
    assert_eq!(choose_family(&Vec::new()), 0);
}

#[test]
fn collection_without_families_yields_nothing() {
    let collection = FontCollection::new();
    assert!(collection.itemize("abc").is_empty());
    assert!(collection.itemize("").is_empty());
}

#[test]
fn tags_pack_big_endian() {
    assert_eq!(tag_to_int(*b"wght"), 0x7767_6874);
    assert_eq!(tag_to_int([0, 0, 0, 1]), 1);
}

#[test]
fn glyph_zero_is_not_coverage() {
    assert!(covers(Some(5)));
    assert!(!covers(Some(0)));
    assert!(!covers(None));
}

#[test]
fn font_id_is_postscript_name_or_empty() {
    assert_eq!(FontId::from_name(Some("DejaVuSans".to_string())).postscript_name, "DejaVuSans");
    assert_eq!(FontId::from_name(None).postscript_name, "");
}
