use skribo::tables::{
    SCRIPT_COMMON, SCRIPT_DEVANAGARI, SCRIPT_HAN, SCRIPT_HANGUL, SCRIPT_INHERITED, SCRIPT_LATIN,
    SCRIPT_UNKNOWN,
};
use skribo::unicode_funcs::{
    lookup_script, unicode_combining_class, unicode_compose, unicode_decompose, unicode_mirror,
    unicode_script,
};

#[test]
fn decompose_hangul_without_trailing_consonant() {
    assert_eq!(unicode_decompose(0xAC00), Some((0x1100, 0x1161)));
}

#[test]
fn decompose_hangul_with_trailing_consonant() {
    assert_eq!(unicode_decompose(0xAC01), Some((0xAC00, 0x11A8)));
}

#[test]
fn decompose_last_hangul_syllable() {
    // U+D7A3: L index 18, V index 20, T index 27.
    assert_eq!(unicode_decompose(0xD7A3), Some((0xD7A3 - 27, 0x11A7 + 27)));
    assert_eq!(unicode_decompose(0xD7A4), None);
}

#[test]
fn decompose_from_table() {
    assert_eq!(unicode_decompose(0x00C0), Some((0x0041, 0x0300)));
    assert_eq!(unicode_decompose(0x0929), Some((0x0928, 0x093C)));
}

#[test]
fn decompose_absent_is_none() {
    assert_eq!(unicode_decompose('A' as u32), None);
    assert_eq!(unicode_decompose(0x10FFFF), None);
}

#[test]
fn script_of_letters_digits_and_marks() {
    assert_eq!(lookup_script('A' as u32), SCRIPT_LATIN);
    assert_eq!(lookup_script('5' as u32), SCRIPT_COMMON);
    assert_eq!(lookup_script(0x092C), SCRIPT_DEVANAGARI);
    assert_eq!(lookup_script(0x0301), SCRIPT_INHERITED);
    assert_eq!(lookup_script(0x4E2D), SCRIPT_HAN);
    assert_eq!(unicode_script('가'), SCRIPT_HANGUL);
}

#[test]
fn script_is_unknown_off_the_table() {
    assert_eq!(lookup_script(0x0378), SCRIPT_UNKNOWN);
    assert_eq!(lookup_script(0xD800), SCRIPT_UNKNOWN);
    assert_eq!(lookup_script(0x10FFFF), SCRIPT_UNKNOWN);
    assert_eq!(lookup_script(0x110000), SCRIPT_UNKNOWN);
    assert_eq!(lookup_script(u32::MAX), SCRIPT_UNKNOWN);
}

#[test]
fn script_total_over_all_scalars() {
    let mut cp: u32 = 0;
    while cp <= 0x10FFFF {
        let s = lookup_script(cp);
        assert_eq!(s.to_be_bytes().len(), 4);
        cp += 1;
    }
}

#[test]
fn script_tags_spell_their_names() {
    assert_eq!(&SCRIPT_LATIN.to_be_bytes(), b"Latn");
    assert_eq!(&SCRIPT_COMMON.to_be_bytes(), b"Zyyy");
    assert_eq!(&SCRIPT_INHERITED.to_be_bytes(), b"Zinh");
    assert_eq!(&SCRIPT_UNKNOWN.to_be_bytes(), b"Zzzz");
    assert_eq!(&SCRIPT_DEVANAGARI.to_be_bytes(), b"Deva");
}

#[test]
fn mirror_pairs() {
    assert_eq!(unicode_mirror('(' as u32), Some(')' as u32));
    assert_eq!(unicode_mirror(')' as u32), Some('(' as u32));
    assert_eq!(unicode_mirror(0x2264), Some(0x2265));
    assert_eq!(unicode_mirror('a' as u32), None);
}

#[test]
fn compose_pairs() {
    assert_eq!(unicode_compose('A', '\u{300}'), Some('À'));
    assert_eq!(unicode_compose('\u{1100}', '\u{1161}'), Some('가'));
    assert_eq!(unicode_compose('a', 'b'), None);
}

#[test]
fn combining_classes() {
    assert_eq!(unicode_combining_class('\u{301}'), 230);
    assert_eq!(unicode_combining_class('\u{93C}'), 7);
    assert_eq!(unicode_combining_class('a'), 0);
}
