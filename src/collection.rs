//! Fonts, font families and collections, and itemization of text by font coverage.

use std::ops::Range;
use std::sync::Arc;

use vstd::prelude::*;

use crate::text::{byte_len, char_width, lemma_byte_len_prefix, lemma_byte_len_take, text_chars};

verus! {

/// font_kit's loaded font, held opaquely.
#[verifier::external_type_specification]
#[verifier::external_body]
pub struct ExFont(font_kit::font::Font);

/// Relies on font_kit's `Font::glyph_for_char`: the glyph that the font maps a
/// character to, if any.
#[verifier::external_body]
fn glyph_for_char(font: &font_kit::font::Font, c: char) -> (r: Option<u32>) {
    font.glyph_for_char(c)
}

/// Relies on `Arc::clone`, which makes another pointer to the same value.
#[verifier::external_body]
fn share_font(font: &Arc<font_kit::font::Font>) -> (r: Arc<font_kit::font::Font>)
    ensures
        r == *font,
{
    font.clone()
}

/// Relies on font_kit's `Font::metrics`: the size of the em square in font
/// units, which the FreeType loader reads from a 16-bit field.
#[verifier::external_body]
fn units_per_em(font: &font_kit::font::Font) -> (r: u32)
    ensures
        r <= 0xFFFF,
{
    font.metrics().units_per_em
}

/// Relies on font_kit's `Font::copy_font_data`: the bytes of the font file, if
/// the loader can supply them.
#[verifier::external_body]
fn copy_font_data(font: &font_kit::font::Font) -> (r: Option<Arc<Vec<u8>>>) {
    font.copy_font_data()
}

/// A shared handle to one loaded font, with its variation axis locations.
#[derive(Clone, Debug)]
pub struct FontRef {
    pub font: Arc<font_kit::font::Font>,
    /// Axis locations: the axis tag as a big-endian integer and the IEEE-754
    /// bit pattern of the coordinate, at most one entry per tag.
    pub location: Vec<(u32, u32)>,
}

/// Whether no tag occurs twice in `loc`.
pub open spec fn tags_unique(loc: Seq<(u32, u32)>) -> bool {
    forall|i: int, j: int| 0 <= i < j < loc.len() ==> (#[trigger] loc[i]).0 != (#[trigger] loc[j]).0
}

/// The axis locations of `loc` as a map from tag to coordinate bits.
pub open spec fn location_map(loc: Seq<(u32, u32)>) -> Map<u32, u32> {
    Map::new(
        |t: u32| exists|i: int| 0 <= i < loc.len() && (#[trigger] loc[i]).0 == t,
        |t: u32| loc[choose|i: int| 0 <= i < loc.len() && (#[trigger] loc[i]).0 == t].1,
    )
}

/// The big-endian integer of a four-byte tag.
pub open spec fn tag_value(tag: Seq<u8>) -> u32 {
    (tag[0] as int * 0x1000000 + tag[1] as int * 0x10000 + tag[2] as int * 0x100
        + tag[3] as int) as u32
}

/// Packs a four-byte tag into a big-endian integer.
pub fn tag_to_int(tag: [u8; 4]) -> (r: u32)
    ensures
        r == tag_value(tag@),
{
    let a = tag[0];
    let b = tag[1];
    let c = tag[2];
    let d = tag[3];
    let r = (a as u32) << 24 | (b as u32) << 16 | (c as u32) << 8 | (d as u32);
    assert(r == a as u32 * 0x1000000 + b as u32 * 0x10000 + c as u32 * 0x100 + d as u32)
        by (bit_vector)
        requires
            r == (a as u32) << 24 | (b as u32) << 16 | (c as u32) << 8 | (d as u32),
    ;
    r
}

impl FontRef {
    /// Well formed: no axis tag occurs twice.
    pub open spec fn wf(&self) -> bool {
        tags_unique(self.location@)
    }

    /// A handle to `font` with no axis locations.
    pub fn new(font: font_kit::font::Font) -> (r: FontRef)
        ensures
            r.wf(),
            *r.font == font,
            r.location@.len() == 0,
    {
        FontRef { font: Arc::new(font), location: Vec::new() }
    }

    /// Sets the location on the variation axis named by `tag`, which must be
    /// exactly four bytes long; returns whether it was. `location` is the
    /// IEEE-754 bit pattern of the coordinate.
    #[verifier::spinoff_prover]
    pub fn set_axis_location(&mut self, tag: &str, location: u32) -> (r: bool)
        requires
            old(self).wf(),
        ensures
            final(self).wf(),
            r == (byte_len(tag@) == 4),
            final(self).font == old(self).font,
            r ==> location_map(final(self).location@) == location_map(old(self).location@).insert(
                tag_value(vstd::utf8::encode_utf8(tag@)),
                location,
            ),
            !r ==> final(self).location@ == old(self).location@,
    {
        let bytes = tag.as_bytes();
        proof {
            crate::text::lemma_byte_len_utf8(tag@);
        }
        if bytes.len() != 4 {
            return false;
        }
        let t = tag_to_int([bytes[0], bytes[1], bytes[2], bytes[3]]);
        assert([bytes[0], bytes[1], bytes[2], bytes[3]]@ =~= bytes@);
        assert(t == tag_value(vstd::utf8::encode_utf8(tag@)));
        let ghost old_loc = self.location@;
        let mut i: usize = 0;
        while i < self.location.len()
            invariant
                self.location@ == old_loc,
                old_loc == old(self).location@,
                self.font == old(self).font,
                byte_len(tag@) == 4,
                t == tag_value(vstd::utf8::encode_utf8(tag@)),
                tags_unique(old_loc),
                0 <= i <= old_loc.len(),
                forall|j: int| 0 <= j < i ==> (#[trigger] old_loc[j]).0 != t,
            decreases old_loc.len() - i,
        {
            if self.location[i].0 == t {
                self.location.set(i, (t, location));
                proof {
                    let new_loc = self.location@;
                    assert forall|a: int, b: int| 0 <= a < b < new_loc.len() implies (
                    #[trigger] new_loc[a]).0 != (#[trigger] new_loc[b]).0 by {
                        assert(old_loc[a].0 != old_loc[b].0);
                    }
                    assert(location_map(new_loc) =~= location_map(old_loc).insert(t, location))
                        by {
                        assert forall|u: u32| #[trigger]
                            location_map(new_loc).contains_key(u) implies location_map(
                            new_loc,
                        )[u] == location_map(old_loc).insert(t, location)[u] by {
                            let k = choose|k: int| 0 <= k < new_loc.len() && (#[trigger] new_loc[k]).0 == u;
                            if u == t {
                                assert(k == i);
                            } else {
                                let k2 = choose|k: int| 0 <= k < old_loc.len() && (#[trigger] old_loc[k]).0 == u;
                                assert(old_loc[k].0 == u);
                                assert(k2 == k);
                            }
                        }
                        assert forall|u: u32| #[trigger]
                            location_map(old_loc).insert(t, location).contains_key(u) implies
                            location_map(new_loc).contains_key(u) by {
                            if u != t {
                                let k = choose|k: int| 0 <= k < old_loc.len() && (#[trigger] old_loc[k]).0 == u;
                                assert(new_loc[k].0 == u);
                            } else {
                                assert(new_loc[i as int].0 == u);
                            }
                        }
                    }
                }
                return true;
            }
            i = i + 1;
        }
        self.location.push((t, location));
        proof {
            let new_loc = self.location@;
            assert(new_loc == old_loc.push((t, location)));
            assert(location_map(new_loc) =~= location_map(old_loc).insert(t, location)) by {
                assert forall|u: u32| #[trigger]
                    location_map(new_loc).contains_key(u) implies location_map(new_loc)[u]
                    == location_map(old_loc).insert(t, location)[u] by {
                    let k = choose|k: int| 0 <= k < new_loc.len() && (#[trigger] new_loc[k]).0 == u;
                    if u == t {
                        assert(k == old_loc.len());
                    } else {
                        let k2 = choose|k: int| 0 <= k < old_loc.len() && (#[trigger] old_loc[k]).0 == u;
                        assert(new_loc[k2].0 == u);
                        assert(old_loc[k].0 == u);
                    }
                }
                assert forall|u: u32| #[trigger]
                    location_map(old_loc).insert(t, location).contains_key(u) implies
                    location_map(new_loc).contains_key(u) by {
                    if u != t {
                        let k = choose|k: int| 0 <= k < old_loc.len() && (#[trigger] old_loc[k]).0 == u;
                        assert(new_loc[k].0 == u);
                    } else {
                        assert(new_loc[old_loc.len() as int].0 == u);
                    }
                }
            }
        }
        true
    }

    /// Whether `other` is a handle to the same font with the same axis locations.
    pub open spec fn same_as(&self, other: FontRef) -> bool {
        self.font == other.font && self.location@ == other.location@
    }

    /// Another handle to the same font, with the same axis locations.
    pub fn share(&self) -> (r: FontRef)
        ensures
            r.same_as(*self),
    {
        let font = share_font(&self.font);
        let mut location: Vec<(u32, u32)> = Vec::new();
        let mut i: usize = 0;
        while i < self.location.len()
            invariant
                0 <= i <= self.location@.len(),
                location@ == self.location@.take(i as int),
            decreases self.location@.len() - i,
        {
            location.push(self.location[i]);
            i = i + 1;
            assert(location@ =~= self.location@.take(i as int));
        }
        assert(location@ =~= self.location@);
        FontRef { font, location }
    }

    /// The size of the font's em square in font units.
    pub fn units_per_em(&self) -> (r: u32)
        ensures
            r <= 0xFFFF,
    {
        units_per_em(&self.font)
    }

    /// The bytes of the font file, if the loader can supply them.
    pub fn copy_font_data(&self) -> Option<Arc<Vec<u8>>> {
        copy_font_data(&self.font)
    }
}

/// An ordered list of fonts assumed to share one coverage; coverage is
/// tested on the first.
pub struct FontFamily {
    pub fonts: Vec<FontRef>,
}

impl FontFamily {
    /// An empty family.
    pub fn new() -> (r: FontFamily)
        ensures
            r.fonts@.len() == 0,
    {
        FontFamily { fonts: Vec::new() }
    }

    /// Appends `font` to the family.
    pub fn add_font(&mut self, font: FontRef)
        ensures
            final(self).fonts@ == old(self).fonts@.push(font),
    {
        self.fonts.push(font);
    }

    /// A family of the single font `font`.
    pub fn new_from_font(font: font_kit::font::Font) -> (r: FontFamily)
        ensures
            r.fonts@.len() == 1,
            *r.fonts@[0].font == font,
            r.fonts@[0].wf(),
            r.fonts@[0].location@.len() == 0,
    {
        let mut result = FontFamily::new();
        result.add_font(FontRef::new(font));
        result
    }

    /// Whether the family's first font maps `c` to a glyph other than glyph
    /// zero. An empty family supports nothing; other fonts are not consulted.
    pub fn supports_codepoint(&self, c: char) -> (r: bool)
        ensures
            r ==> self.fonts@.len() > 0,
            self.fonts@.len() == 0 ==> !r,
    {
        if self.fonts.len() > 0 {
            covers(glyph_for_char(&self.fonts[0].font, c))
        } else {
            false
        }
    }
}

/// Whether a glyph lookup found a glyph: glyph zero is the missing glyph.
pub fn covers(glyph: Option<u32>) -> (r: bool)
    ensures
        r == (glyph matches Some(g) && g != 0),
{
    match glyph {
        Some(g) => g != 0,
        None => false,
    }
}

/// The index of the first `true` of `support`, or zero when there is none.
pub open spec fn first_supporting(support: Seq<bool>) -> int {
    if exists|i: int| 0 <= i < support.len() && support[i] {
        choose|i: int|
            0 <= i < support.len() && support[i] && forall|j: int| 0 <= j < i ==> !support[j]
    } else {
        0
    }
}

/// The family to use given which families support a character: the first
/// that does, or the first family when none does.
pub fn choose_family(support: &Vec<bool>) -> (r: usize)
    ensures
        r == first_supporting(support@),
        support@.len() > 0 ==> r < support@.len(),
        support@.len() > 0 ==> support@[r as int] || forall|j: int|
            0 <= j < support@.len() ==> !#[trigger] support@[j],
        forall|j: int| 0 <= j < r ==> !#[trigger] support@[j],
{
    let mut i: usize = 0;
    while i < support.len()
        invariant
            0 <= i <= support@.len(),
            forall|j: int| 0 <= j < i ==> !support@[j],
        decreases support@.len() - i,
    {
        if support[i] {
            let ghost k = choose|k: int|
                0 <= k < support@.len() && support@[k] && forall|j: int| 0 <= j < k ==> !support@[j];
            assert(k == i) by {
                if k < i {
                    assert(!support@[k]);
                } else if k > i {
                    assert(!support@[i as int]);
                }
            }
            return i;
        }
        i = i + 1;
    }
    0
}

/// Whether `v` is the family chosen for a character when the families answer
/// `sup` on whether they cover it: the first that does, or the first family.
/// Only a family with a font can cover anything.
pub open spec fn is_family_choice(c: &FontCollection, v: usize) -> bool {
    exists|sup: Seq<bool>|
        #![trigger first_supporting(sup)]
        sup.len() == c.families@.len() && v == first_supporting(sup) && forall|j: int|
            0 <= j < sup.len() ==> #[trigger] sup[j] ==> c.families@[j].fonts@.len() > 0
}

/// A list of font families in order of preference.
pub struct FontCollection {
    pub families: Vec<FontFamily>,
}

/// End (exclusive) of the stretch of `f` from index `i` whose entries equal `v`.
pub open spec fn same_until(f: Seq<usize>, i: int, v: usize) -> int
    decreases f.len() - i,
{
    if i < 0 || i >= f.len() {
        f.len() as int
    } else if f[i] != v {
        i
    } else {
        same_until(f, i + 1, v)
    }
}

/// The maximal runs of equal entries of `f` from index `i` on, each as its
/// byte range in the text `s` (one entry of `f` per character) and its entry.
pub open spec fn runs_from(s: Seq<char>, f: Seq<usize>, i: int) -> Seq<(int, int, usize)>
    decreases f.len() - i,
{
    if i < 0 || i >= f.len() {
        Seq::empty()
    } else {
        let e = same_until(f, i + 1, f[i]);
        if e <= i || e > f.len() {
            Seq::empty()
        } else {
            seq![(byte_len(s.take(i)) as int, byte_len(s.take(e)) as int, f[i])] + runs_from(
                s,
                f,
                e,
            )
        }
    }
}

/// Ranges that are non-empty, follow each other without gap or overlap in
/// ascending order, and together cover exactly `[0, n)`.
pub open spec fn is_partition(r: Seq<(int, int)>, n: int) -> bool {
    &&& (r.len() == 0 <==> n == 0)
    &&& r.len() > 0 ==> r[0].0 == 0 && r[r.len() - 1].1 == n
    &&& forall|k: int| 0 <= k < r.len() ==> (#[trigger] r[k]).0 < r[k].1
    &&& forall|k: int| 0 <= k < r.len() - 1 ==> (#[trigger] r[k]).1 == r[k + 1].0
}

/// A stretch of equal entries ends within `f`, at an entry that differs.
proof fn lemma_same_until_bounds(f: Seq<usize>, i: int, v: usize)
    requires
        0 <= i <= f.len(),
    ensures
        i <= same_until(f, i, v) <= f.len(),
        forall|j: int| i <= j < same_until(f, i, v) ==> f[j] == v,
        same_until(f, i, v) < f.len() ==> f[same_until(f, i, v)] != v,
    decreases f.len() - i,
{
    if i < f.len() && f[i] == v {
        lemma_same_until_bounds(f, i + 1, v);
    }
}

/// The runs from index `i` follow each other and cover the bytes from `i` to the end.
pub(crate) proof fn lemma_runs_from_partition(s: Seq<char>, f: Seq<usize>, i: int)
    requires
        f.len() == s.len(),
        0 <= i <= f.len(),
    ensures
        runs_from(s, f, i).len() == 0 <==> i == f.len(),
        runs_from(s, f, i).len() > 0 ==> runs_from(s, f, i)[0].0 == byte_len(s.take(i))
            && runs_from(s, f, i)[runs_from(s, f, i).len() - 1].1 == byte_len(s),
        forall|k: int|
            0 <= k < runs_from(s, f, i).len() ==> (#[trigger] runs_from(s, f, i)[k]).0 < runs_from(
                s,
                f,
                i,
            )[k].1,
        forall|k: int|
            0 <= k < runs_from(s, f, i).len() - 1 ==> (#[trigger] runs_from(s, f, i)[k]).1
                == runs_from(s, f, i)[k + 1].0,
    decreases f.len() - i,
{
    if i < f.len() {
        lemma_same_until_bounds(f, i + 1, f[i]);
        let e = same_until(f, i + 1, f[i]);
        lemma_runs_from_partition(s, f, e);
        let r = runs_from(s, f, i);
        let t = runs_from(s, f, e);
        assert(r == seq![(byte_len(s.take(i)) as int, byte_len(s.take(e)) as int, f[i])] + t);
        lemma_byte_len_take(s, i);
        lemma_byte_len_prefix(s.take(e), i + 1);
        assert(s.take(e).take(i + 1) =~= s.take(i + 1));
        if e == f.len() {
            assert(s.take(e) =~= s);
        }
        assert forall|k: int| 0 <= k < r.len() implies (#[trigger] r[k]).0 < r[k].1 by {
            if k > 0 {
                assert(r[k] == t[k - 1]);
            }
        }
        assert forall|k: int| 0 <= k < r.len() - 1 implies (#[trigger] r[k]).1 == r[k + 1].0 by {
            if k > 0 {
                assert(r[k] == t[k - 1]);
                assert(r[k + 1] == t[k]);
            }
        }
    }
}

/// The byte ranges of `runs`.
pub open spec fn run_ranges(runs: Seq<(int, int, usize)>) -> Seq<(int, int)> {
    runs.map_values(|x: (int, int, usize)| (x.0, x.1))
}

/// Itemization partitions the text: its runs are non-empty, ordered by start,
/// do not overlap, and together cover exactly the text's bytes.
pub proof fn lemma_itemization_partitions(s: Seq<char>, f: Seq<usize>)
    requires
        f.len() == s.len(),
    ensures
        is_partition(run_ranges(runs_from(s, f, 0)), byte_len(s) as int),
{
    lemma_runs_from_partition(s, f, 0);
    let r = runs_from(s, f, 0);
    let p = run_ranges(r);
    assert forall|k: int| 0 <= k < p.len() implies (#[trigger] p[k]).0 < p[k].1 by {
        assert(r[k].0 < r[k].1);
    }
    assert forall|k: int| 0 <= k < p.len() - 1 implies (#[trigger] p[k]).1 == p[k + 1].0 by {
        assert(r[k].1 == r[k + 1].0);
    }
    assert(s.take(0) =~= Seq::<char>::empty());
    if s.len() > 0 {
        lemma_byte_len_take(s, 0);
        lemma_byte_len_prefix(s, 1);
    }
}

/// The maximal runs of equal entries of `fams` over the characters
/// `from..to` of `chars`, each as its byte range in the whole text and its entry.
#[verifier::spinoff_prover]
pub(crate) fn family_runs(
    chars: &Vec<char>,
    fams: &Vec<usize>,
    from: usize,
    to: usize,
    from_byte: usize,
) -> (r: Vec<(Range<usize>, usize)>)
    requires
        fams@.len() == chars@.len(),
        from <= to <= chars@.len(),
        byte_len(chars@) <= usize::MAX,
        from_byte == byte_len(chars@.take(from as int)),
    ensures
        r@.map_values(|x: (Range<usize>, usize)| (x.0.start as int, x.0.end as int, x.1))
            == runs_from(chars@.take(to as int), fams@.take(to as int), from as int),
{
    let ghost s = chars@.take(to as int);
    let ghost f = fams@.take(to as int);
    let mut out: Vec<(Range<usize>, usize)> = Vec::new();
    let mut i: usize = from;
    let mut start: usize = from_byte;
    proof {
        lemma_byte_len_prefix(chars@, to as int);
        assert(s.take(from as int) =~= chars@.take(from as int));
        assert(out@.map_values(|x: (Range<usize>, usize)| (x.0.start as int, x.0.end as int, x.1))
            =~= Seq::<(int, int, usize)>::empty());
    }
    while i < to
        invariant
            s == chars@.take(to as int),
            f == fams@.take(to as int),
            fams@.len() == chars@.len(),
            to <= chars@.len(),
            byte_len(s) <= usize::MAX,
            from <= i <= to,
            start == byte_len(s.take(i as int)),
            runs_from(s, f, from as int) == out@.map_values(
                |x: (Range<usize>, usize)| (x.0.start as int, x.0.end as int, x.1),
            ) + runs_from(s, f, i as int),
        decreases to - i,
    {
        let v = fams[i];
        proof {
            lemma_byte_len_take(s, i as int);
            lemma_byte_len_prefix(s, i + 1);
        }
        let mut end = start + char_width(chars[i]);
        let mut j: usize = i + 1;
        while j < to && fams[j] == v
            invariant
                s == chars@.take(to as int),
                f == fams@.take(to as int),
                fams@.len() == chars@.len(),
                to <= chars@.len(),
                byte_len(s) <= usize::MAX,
                i < j <= to,
                end == byte_len(s.take(j as int)),
                v == f[i as int],
                same_until(f, i + 1, v) == same_until(f, j as int, v),
            decreases to - j,
        {
            proof {
                lemma_byte_len_take(s, j as int);
                lemma_byte_len_prefix(s, j + 1);
            }
            end = end + char_width(chars[j]);
            j = j + 1;
        }
        let ghost before = out@;
        out.push((start..end, v));
        proof {
            let g = |x: (Range<usize>, usize)| (x.0.start as int, x.0.end as int, x.1);
            assert(out@.map_values(g) =~= before.map_values(g).push(
                (start as int, end as int, v),
            ));
            assert(same_until(f, i + 1, v) == j);
            assert(runs_from(s, f, i as int) == seq![(start as int, end as int, v)] + runs_from(
                s,
                f,
                j as int,
            ));
            assert(runs_from(s, f, from as int) =~= out@.map_values(g) + runs_from(s, f, j as int));
        }
        i = j;
        start = end;
    }
    proof {
        let g = |x: (Range<usize>, usize)| (x.0.start as int, x.0.end as int, x.1);
        assert(runs_from(s, f, from as int) =~= out@.map_values(g));
    }
    out
}

/// The maximal runs of `text` whose characters have equal entries in
/// `families` (one entry per character), each as its byte range and entry.
pub fn font_runs(text: &str, families: &Vec<usize>) -> (r: Vec<(Range<usize>, usize)>)
    requires
        families@.len() == text@.len(),
    ensures
        r@.len() == runs_from(text@, families@, 0).len(),
        forall|k: int|
            0 <= k < r@.len() ==> (#[trigger] r@[k]).0.start == runs_from(text@, families@, 0)[k].0
                && r@[k].0.end == runs_from(text@, families@, 0)[k].1 && r@[k].1 == runs_from(
                text@,
                families@,
                0,
            )[k].2,
{
    let chars = text_chars(text);
    proof {
        assert(chars@.take(0) =~= Seq::<char>::empty());
        assert(chars@.take(chars@.len() as int) =~= chars@);
        assert(families@.take(chars@.len() as int) =~= families@);
    }
    let r = family_runs(&chars, families, 0, chars.len(), 0);
    proof {
        let g = |x: (Range<usize>, usize)| (x.0.start as int, x.0.end as int, x.1);
        assert forall|k: int| 0 <= k < r@.len() implies (#[trigger] r@[k]).0.start == runs_from(
            text@,
            families@,
            0,
        )[k].0 by {
            assert(r@.map_values(g)[k] == g(r@[k]));
        }
    }
    r
}

/// Every run carries some entry of `f`.
pub(crate) proof fn lemma_runs_from_values(s: Seq<char>, f: Seq<usize>, i: int)
    requires
        f.len() == s.len(),
        0 <= i <= f.len(),
    ensures
        forall|k: int|
            0 <= k < runs_from(s, f, i).len() ==> exists|j: int|
                0 <= j < f.len() && (#[trigger] runs_from(s, f, i)[k]).2 == f[j],
    decreases f.len() - i,
{
    if i < f.len() {
        lemma_same_until_bounds(f, i + 1, f[i]);
        let e = same_until(f, i + 1, f[i]);
        lemma_runs_from_values(s, f, e);
        let r = runs_from(s, f, i);
        let t = runs_from(s, f, e);
        assert forall|k: int| 0 <= k < r.len() implies exists|j: int|
            0 <= j < f.len() && (#[trigger] r[k]).2 == f[j] by {
            if k > 0 {
                assert(r[k] == t[k - 1]);
            } else {
                assert(r[0].2 == f[i]);
            }
        }
    }
}

impl FontCollection {
    /// An empty collection.
    pub fn new() -> (r: FontCollection)
        ensures
            r.families@.len() == 0,
    {
        FontCollection { families: Vec::new() }
    }

    /// Appends `family` as the least preferred family.
    pub fn add_family(&mut self, family: FontFamily)
        ensures
            final(self).families@ == old(self).families@.push(family),
    {
        self.families.push(family);
    }

    /// Whether the fallback family, the first, has a font to fall back on.
    pub open spec fn has_fallback(&self) -> bool {
        self.families@.len() > 0 ==> self.families@[0].fonts@.len() > 0
    }

    /// The family for `c`: the first whose first font has a glyph for it, or
    /// the first family when none has.
    fn choose_font(&self, c: char) -> (r: usize)
        requires
            self.has_fallback(),
        ensures
            self.families@.len() == 0 ==> r == 0,
            self.families@.len() > 0 ==> r < self.families@.len()
                && self.families@[r as int].fonts@.len() > 0,
            is_family_choice(self, r),
    {
        let mut support: Vec<bool> = Vec::new();
        let mut i: usize = 0;
        while i < self.families.len()
            invariant
                0 <= i <= self.families@.len(),
                support@.len() == i,
                forall|j: int| 0 <= j < i ==> #[trigger] support@[j] ==> self.families@[j].fonts@.len() > 0,
            decreases self.families@.len() - i,
        {
            let s = self.families[i].supports_codepoint(c);
            support.push(s);
            i = i + 1;
        }
        choose_family(&support)
    }

    /// The family for each character of `chars`.
    pub(crate) fn families_of(&self, chars: &Vec<char>) -> (r: Vec<usize>)
        requires
            self.has_fallback(),
            self.families@.len() > 0,
        ensures
            r@.len() == chars@.len(),
            forall|j: int| 0 <= j < r@.len() ==> (#[trigger] r@[j]) < self.families@.len()
                && self.families@[r@[j] as int].fonts@.len() > 0 && is_family_choice(self, r@[j]),
    {
        let mut fams: Vec<usize> = Vec::new();
        let mut i: usize = 0;
        while i < chars.len()
            invariant
                self.has_fallback(),
                self.families@.len() > 0,
                0 <= i <= chars@.len(),
                fams@.len() == i,
                forall|j: int| 0 <= j < i ==> (#[trigger] fams@[j]) < self.families@.len()
                    && self.families@[fams@[j] as int].fonts@.len() > 0 && is_family_choice(self, fams@[j]),
            decreases chars@.len() - i,
        {
            let fi = self.choose_font(chars[i]);
            fams.push(fi);
            i = i + 1;
        }
        fams
    }

    /// Splits `text` into runs of characters that the same family renders,
    /// each with its byte range and the first font of that family. A
    /// character that no family covers goes to the first family. A collection
    /// without families yields no runs.
    #[verifier::spinoff_prover]
    pub fn itemize<'a>(&'a self, text: &str) -> (r: Vec<(Range<usize>, &'a FontRef)>)
        requires
            self.has_fallback(),
        ensures
            self.families@.len() == 0 ==> r@.len() == 0,
            self.families@.len() > 0 ==> is_partition(
                r@.map_values(|x: (Range<usize>, &FontRef)| (x.0.start as int, x.0.end as int)),
                text.len() as int,
            ),
            self.families@.len() > 0 ==> exists|f: Seq<usize>|
                #![trigger runs_from(text@, f, 0)]
                {
                    &&& f.len() == text@.len()
                    &&& forall|i: int| 0 <= i < f.len() ==> (#[trigger] f[i]) < self.families@.len()
                        && is_family_choice(self, f[i])
                    &&& r@.len() == runs_from(text@, f, 0).len()
                    &&& forall|k: int|
                        0 <= k < r@.len() ==> {
                            &&& (#[trigger] r@[k]).0.start == runs_from(text@, f, 0)[k].0
                            &&& r@[k].0.end == runs_from(text@, f, 0)[k].1
                            &&& *r@[k].1 == self.families@[runs_from(text@, f, 0)[k].2 as int].fonts@[0]
                        }
                },
    {
        let chars = text_chars(text);
        let mut out: Vec<(Range<usize>, &'a FontRef)> = Vec::new();
        if self.families.len() == 0 {
            return out;
        }
        let fams = self.families_of(&chars);
        let runs = font_runs(text, &fams);
        let ghost f = fams@;
        let ghost spec_runs = runs_from(text@, f, 0);
        proof {
            lemma_runs_from_values(text@, f, 0);
            lemma_itemization_partitions(text@, f);
        }
        let mut k: usize = 0;
        while k < runs.len()
            invariant
                f == fams@,
                f.len() == text@.len(),
                spec_runs == runs_from(text@, f, 0),
                runs@.len() == spec_runs.len(),
                forall|m: int|
                    0 <= m < runs@.len() ==> (#[trigger] runs@[m]).0.start == spec_runs[m].0
                        && runs@[m].0.end == spec_runs[m].1 && runs@[m].1 == spec_runs[m].2,
                forall|m: int|
                    0 <= m < spec_runs.len() ==> exists|j: int|
                        0 <= j < f.len() && (#[trigger] spec_runs[m]).2 == f[j],
                forall|j: int| 0 <= j < f.len() ==> (#[trigger] f[j]) < self.families@.len()
                    && self.families@[f[j] as int].fonts@.len() > 0,
                0 <= k <= runs@.len(),
                out@.len() == k,
                forall|m: int|
                    0 <= m < k ==> {
                        &&& (#[trigger] out@[m]).0.start == spec_runs[m].0
                        &&& out@[m].0.end == spec_runs[m].1
                        &&& *out@[m].1 == self.families@[spec_runs[m].2 as int].fonts@[0]
                    },
            decreases runs@.len() - k,
        {
            let start = runs[k].0.start;
            let end = runs[k].0.end;
            let fi = runs[k].1;
            assert(spec_runs[k as int].2 == fi);
            out.push((start..end, &self.families[fi].fonts[0]));
            k = k + 1;
        }
        proof {
            let p = out@.map_values(|x: (Range<usize>, &FontRef)| (x.0.start as int, x.0.end as int));
            assert(p =~= run_ranges(spec_runs));
        }
        out
    }
}

} // verus!
