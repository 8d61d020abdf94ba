//! Retained layout that answers queries on the whole text or on a substring.

use std::ops::Range;

use vstd::prelude::*;

use crate::collection::{
    family_runs, is_family_choice, is_partition, lemma_runs_from_partition, lemma_runs_from_values, runs_from,
    FontCollection, FontRef,
};
use crate::segment::{lemma_script_run_bounds, script_run, script_run_at};
use crate::text::{byte_len, lemma_byte_len_concat, text_chars};
use crate::hb_layout::{is_fragment_of, position_glyphs, ShapedGlyph};
use crate::TextStyle;

verus! {

/// A vector within one fragment, in 1/64 of a point.
#[derive(Clone, Copy, PartialEq, Eq, Structural, Debug)]
pub struct Vector {
    pub x: i64,
    pub y: i64,
}

/// A position from the origin of a layout, in 1/64 of a point.
#[derive(Clone, Copy, PartialEq, Eq, Structural, Debug)]
pub struct Position {
    pub x: i128,
    pub y: i128,
}

/// One positioned glyph of a fragment.
pub struct FragmentGlyph {
    /// Index of the first byte of the cluster that the glyph stands for.
    pub cluster: u32,
    pub glyph_id: u32,
    /// Position from the start of the fragment.
    pub offset: Vector,
    pub advance: Vector,
    /// Breaking the text at this glyph's cluster may change the shaping.
    pub unsafe_to_break: bool,
}

/// The shaping of one contiguous piece of text with one font and one script.
pub struct LayoutFragment {
    /// Length in bytes of the text that the fragment covers.
    pub substr_len: usize,
    pub script: u32,
    /// Sum of the advances of the glyphs.
    pub advance: Vector,
    pub glyphs: Vec<FragmentGlyph>,
    pub font: FontRef,
}

/// A glyph as a query hands it out: its id and its position from the
/// origin of the queried text.
#[derive(Clone, Copy, PartialEq, Eq, Structural, Debug)]
pub struct GlyphInfo {
    pub glyph_id: u32,
    pub offset: Position,
}

/// Sum of the byte lengths of `frags`.
pub open spec fn lens_total(frags: Seq<LayoutFragment>) -> int
    decreases frags.len(),
{
    if frags.len() == 0 {
        0
    } else {
        lens_total(frags.drop_last()) + frags.last().substr_len
    }
}

/// Sum of the advances of the first `n` fragments of `frags`.
pub open spec fn advance_total(frags: Seq<LayoutFragment>, n: int) -> (int, int)
    decreases n,
{
    if n <= 0 || n > frags.len() {
        (0, 0)
    } else {
        let p = advance_total(frags, n - 1);
        (p.0 + frags[n - 1].advance.x, p.1 + frags[n - 1].advance.y)
    }
}

/// Largest magnitude of the position of a fragment that can be followed by another.
pub open spec fn run_offset_bound() -> int {
    0x7fff_ffff_ffff_ffff_ffff_ffff_ffff_ffff - 0xffff_ffff_ffff_ffff
}

/// Each fragment advance is an `i64`, so `n` of them add up to at most `n` times its range.
proof fn lemma_advance_total_bound(frags: Seq<LayoutFragment>, n: int)
    requires
        0 <= n <= frags.len(),
    ensures
        -n * 0x8000_0000_0000_0000 <= advance_total(frags, n).0 <= n * 0x8000_0000_0000_0000,
        -n * 0x8000_0000_0000_0000 <= advance_total(frags, n).1 <= n * 0x8000_0000_0000_0000,
    decreases n,
{
    if n > 0 {
        lemma_advance_total_bound(frags, n - 1);
    }
}

/// The position of any but the last possible fragment leaves room for one more `i64`.
proof fn lemma_run_offset_in_bound(frags: Seq<LayoutFragment>, n: int)
    requires
        0 <= n < frags.len() <= usize::MAX,
    ensures
        -run_offset_bound() <= advance_total(frags, n).0 <= run_offset_bound(),
        -run_offset_bound() <= advance_total(frags, n).1 <= run_offset_bound(),
{
    lemma_advance_total_bound(frags, n);
    assert(n * 0x8000_0000_0000_0000 <= run_offset_bound()) by (nonlinear_arith)
        requires
            0 <= n <= 0xffff_ffff_ffff_fffe,
    ;
}

/// The position of a fragment that follows fragments with total advance `p`.
pub open spec fn position_of(p: (int, int)) -> Position {
    Position { x: p.0 as i128, y: p.1 as i128 }
}

/// Iterates over fragments, each with its position from the origin.
pub struct LayoutRangeIter<'a> {
    pub fragments: &'a Vec<LayoutFragment>,
    pub offset: Position,
    pub fragment_ix: usize,
}

/// One fragment of a layout with its position from the origin.
pub struct LayoutRun<'a> {
    pub offset: Position,
    pub fragment: &'a LayoutFragment,
}

impl<'a> LayoutRangeIter<'a> {
    /// The position is the sum of the advances of the fragments passed.
    pub open spec fn wf(&self) -> bool {
        &&& self.fragment_ix <= self.fragments@.len() <= usize::MAX
        &&& self.offset == position_of(advance_total(self.fragments@, self.fragment_ix as int))
    }

    /// The iterator over `fragments` from the first.
    pub fn new(fragments: &'a Vec<LayoutFragment>) -> (r: LayoutRangeIter<'a>)
        ensures
            r.wf(),
            r.fragments == fragments,
            r.fragment_ix == 0,
            r.offset == (Position { x: 0, y: 0 }),
    {
        let _ = fragments.len();
        LayoutRangeIter { fragments, offset: Position { x: 0, y: 0 }, fragment_ix: 0 }
    }

    /// The next fragment with its position; the position moves on by the
    /// fragment's advance.
    pub fn next(&mut self) -> (r: Option<LayoutRun<'a>>)
        requires
            old(self).wf(),
        ensures
            final(self).wf(),
            final(self).fragments == old(self).fragments,
            old(self).fragment_ix < old(self).fragments@.len() ==> {
                &&& final(self).fragment_ix == old(self).fragment_ix + 1
                &&& r matches Some(run) && run.offset == old(self).offset && run.fragment
                    == &old(self).fragments@[old(self).fragment_ix as int] && run.wf()
            },
            old(self).fragment_ix == old(self).fragments@.len() ==> r is None && *final(self)
                == *old(self),
    {
        if self.fragment_ix == self.fragments.len() {
            None
        } else {
            let fragment = &self.fragments[self.fragment_ix];
            proof {
                lemma_run_offset_in_bound(self.fragments@, self.fragment_ix as int);
                if self.fragment_ix + 1 < self.fragments@.len() {
                    lemma_run_offset_in_bound(self.fragments@, self.fragment_ix + 1);
                } else {
                    lemma_advance_total_bound(self.fragments@, self.fragment_ix + 1);
                    assert((self.fragment_ix + 1) * 0x8000_0000_0000_0000 <= 0xffff_ffff_ffff_ffff
                        * 0x8000_0000_0000_0000) by (nonlinear_arith)
                        requires
                            self.fragment_ix + 1 <= 0xffff_ffff_ffff_ffff,
                    ;
                }
            }
            let offset = self.offset;
            self.fragment_ix = self.fragment_ix + 1;
            self.offset = Position {
                x: offset.x + fragment.advance.x as i128,
                y: offset.y + fragment.advance.y as i128,
            };
            Some(LayoutRun { offset, fragment })
        }
    }
}

/// Once an iterator has passed every fragment, its position is the sum of
/// all their advances, in order.
pub proof fn lemma_final_offset_is_total_advance(it: LayoutRangeIter)
    requires
        it.wf(),
        it.fragment_ix == it.fragments@.len(),
    ensures
        it.offset.x == advance_total(it.fragments@, it.fragments@.len() as int).0,
        it.offset.y == advance_total(it.fragments@, it.fragments@.len() as int).1,
{
    lemma_advance_total_bound(it.fragments@, it.fragments@.len() as int);
    assert(it.fragments@.len() * 0x8000_0000_0000_0000 <= 0xffff_ffff_ffff_ffff
        * 0x8000_0000_0000_0000) by (nonlinear_arith)
        requires
            it.fragments@.len() <= 0xffff_ffff_ffff_ffff,
    ;
}

/// The glyph `g` of a run at position `offset`, as a query hands it out.
pub open spec fn glyph_info_of(offset: Position, g: FragmentGlyph) -> GlyphInfo {
    GlyphInfo {
        glyph_id: g.glyph_id,
        offset: Position { x: (offset.x + g.offset.x) as i128, y: (offset.y + g.offset.y) as i128 },
    }
}

impl<'a> LayoutRun<'a> {
    /// The position leaves room for any glyph offset.
    pub open spec fn wf(&self) -> bool {
        &&& -run_offset_bound() <= self.offset.x <= run_offset_bound()
        &&& -run_offset_bound() <= self.offset.y <= run_offset_bound()
    }

    /// The font of the run.
    pub fn font(&self) -> (r: &FontRef)
        ensures
            r == &self.fragment.font,
    {
        &self.fragment.font
    }

    /// The glyphs of the run in logical order, positioned from the origin.
    pub fn glyphs(&self) -> (r: Vec<GlyphInfo>)
        requires
            self.wf(),
        ensures
            r@ == self.fragment.glyphs@.map_values(|g: FragmentGlyph| glyph_info_of(self.offset, g)),
    {
        let mut out: Vec<GlyphInfo> = Vec::new();
        let mut glyph_ix: usize = 0;
        while glyph_ix < self.fragment.glyphs.len()
            invariant
                self.wf(),
                0 <= glyph_ix <= self.fragment.glyphs@.len(),
                out@ == self.fragment.glyphs@.take(glyph_ix as int).map_values(
                    |g: FragmentGlyph| glyph_info_of(self.offset, g),
                ),
            decreases self.fragment.glyphs@.len() - glyph_ix,
        {
            let glyph = &self.fragment.glyphs[glyph_ix];
            out.push(
                GlyphInfo {
                    glyph_id: glyph.glyph_id,
                    offset: Position {
                        x: self.offset.x + glyph.offset.x as i128,
                        y: self.offset.y + glyph.offset.y as i128,
                    },
                },
            );
            glyph_ix = glyph_ix + 1;
            assert(out@ =~= self.fragment.glyphs@.take(glyph_ix as int).map_values(
                |g: FragmentGlyph| glyph_info_of(self.offset, g),
            ));
        }
        assert(self.fragment.glyphs@.take(glyph_ix as int) =~= self.fragment.glyphs@);
        out
    }
}

/// The glyphs of fragments `k..` of `frags`, each positioned from the
/// origin of the first fragment.
pub open spec fn glyphs_from(frags: Seq<LayoutFragment>, k: int) -> Seq<GlyphInfo>
    decreases frags.len() - k,
{
    if k < 0 || k >= frags.len() {
        Seq::empty()
    } else {
        frags[k].glyphs@.map_values(
            |g: FragmentGlyph| glyph_info_of(position_of(advance_total(frags, k)), g),
        ) + glyphs_from(frags, k + 1)
    }
}

/// The pieces of a substring query: for each fragment from index `k` (which
/// starts at byte `fs`) that overlaps `[start, end)`, the overlap, the
/// fragment's script and its font.
pub open spec fn clip_from(
    frags: Seq<LayoutFragment>,
    k: int,
    fs: int,
    start: int,
    end: int,
) -> Seq<(int, int, u32, FontRef)>
    decreases frags.len() - k,
{
    if k < 0 || k >= frags.len() || fs >= end {
        Seq::empty()
    } else {
        let fe = fs + frags[k].substr_len;
        if fe <= start {
            clip_from(frags, k + 1, fe, start, end)
        } else {
            seq![
                (
                    if start > fs { start } else { fs },
                    if end < fe { end } else { fe },
                    frags[k].script,
                    frags[k].font,
                ),
            ] + clip_from(frags, k + 1, fe, start, end)
        }
    }
}

/// One more fragment adds its length.
proof fn lemma_lens_total_take(frags: Seq<LayoutFragment>, i: int)
    requires
        0 <= i < frags.len(),
    ensures
        lens_total(frags.take(i + 1)) == lens_total(frags.take(i)) + frags[i].substr_len,
{
    assert(frags.take(i + 1).drop_last() =~= frags.take(i));
}

/// Longer prefixes cover at least as many bytes.
proof fn lemma_lens_total_monotone(frags: Seq<LayoutFragment>, i: int, j: int)
    requires
        0 <= i <= j <= frags.len(),
    ensures
        lens_total(frags.take(i)) <= lens_total(frags.take(j)),
    decreases j - i,
{
    if i < j {
        lemma_lens_total_monotone(frags, i, j - 1);
        lemma_lens_total_take(frags, j - 1);
    }
}

/// The pieces of `s` from character `i` on that are shaped separately: each
/// script run split where the family in `f` changes, as its byte range, its
/// family and the run's script.
pub open spec fn pieces_from(s: Seq<char>, f: Seq<usize>, i: int) -> Seq<(int, int, usize, u32)>
    decreases s.len() - i,
{
    if i < 0 || i >= s.len() {
        Seq::empty()
    } else {
        let r = script_run(s.skip(i));
        let e = i + r.1;
        if e <= i || e > s.len() {
            Seq::empty()
        } else {
            runs_from(s.take(e), f.take(e), i).map_values(
                |x: (int, int, usize)| (x.0, x.1, x.2, r.0),
            ) + pieces_from(s, f, e)
        }
    }
}

/// The byte ranges of `pieces`.
pub open spec fn piece_ranges(pieces: Seq<(int, int, usize, u32)>) -> Seq<(int, int)> {
    pieces.map_values(|x: (int, int, usize, u32)| (x.0, x.1))
}

/// Each range is non-empty and ends where the next begins.
pub open spec fn chained(r: Seq<(int, int)>) -> bool {
    &&& forall|k: int| 0 <= k < r.len() ==> (#[trigger] r[k]).0 < r[k].1
    &&& forall|k: int| 0 <= k < r.len() - 1 ==> (#[trigger] r[k]).1 == r[k + 1].0
}

/// Two chains that meet form one chain.
proof fn lemma_chained_concat(a: Seq<(int, int)>, b: Seq<(int, int)>)
    requires
        a.len() > 0,
        chained(a),
        chained(b),
        b.len() > 0 ==> b[0].0 == a[a.len() - 1].1,
    ensures
        chained(a + b),
{
    let c = a + b;
    assert forall|k: int| 0 <= k < c.len() implies (#[trigger] c[k]).0 < c[k].1 by {
        if k >= a.len() {
            assert(c[k] == b[k - a.len()]);
        }
    }
    assert forall|k: int| 0 <= k < c.len() - 1 implies (#[trigger] c[k]).1 == c[k + 1].0 by {
        if k >= a.len() {
            assert(c[k] == b[k - a.len()]);
            assert(c[k + 1] == b[k + 1 - a.len()]);
        } else if k == a.len() - 1 {
            assert(c[k + 1] == b[0]);
        }
    }
}

/// The pieces from character `i` on chain from its byte offset to the end of the text.
proof fn lemma_pieces_from_cover(s: Seq<char>, f: Seq<usize>, i: int)
    requires
        f.len() == s.len(),
        0 <= i <= s.len(),
    ensures
        pieces_from(s, f, i).len() == 0 <==> i == s.len(),
        chained(piece_ranges(pieces_from(s, f, i))),
        pieces_from(s, f, i).len() > 0 ==> {
            &&& pieces_from(s, f, i)[0].0 == byte_len(s.take(i))
            &&& pieces_from(s, f, i)[pieces_from(s, f, i).len() - 1].1 == byte_len(s)
        },
    decreases s.len() - i,
{
    if i < s.len() {
        let rest = s.skip(i);
        lemma_script_run_bounds(rest);
        let r = script_run(rest);
        let e = i + r.1;
        let st = s.take(e);
        let ft = f.take(e);
        lemma_runs_from_partition(st, ft, i);
        lemma_pieces_from_cover(s, f, e);
        let a = runs_from(st, ft, i).map_values(|x: (int, int, usize)| (x.0, x.1, x.2, r.0));
        let b = pieces_from(s, f, e);
        assert(pieces_from(s, f, i) == a + b);
        assert(st.take(i) =~= s.take(i));
        if e == s.len() {
            assert(st =~= s);
        } else {
            assert(st =~= s.take(e));
        }
        let ra = piece_ranges(a);
        let rb = piece_ranges(b);
        let rs = runs_from(st, ft, i);
        assert forall|k: int| 0 <= k < ra.len() implies (#[trigger] ra[k]).0 < ra[k].1 by {
            assert(rs[k].0 < rs[k].1);
        }
        assert forall|k: int| 0 <= k < ra.len() - 1 implies (#[trigger] ra[k]).1 == ra[k + 1].0 by {
            assert(rs[k].1 == rs[k + 1].0);
        }
        lemma_chained_concat(ra, rb);
        assert(piece_ranges(a + b) =~= ra + rb);
        if b.len() > 0 {
            assert((a + b)[(a + b).len() - 1] == b[b.len() - 1]);
        }
    }
}

/// The pieces of a plan partition the text: they are non-empty, follow each
/// other in order without gap or overlap, and together cover exactly its bytes.
pub proof fn lemma_plan_partitions(s: Seq<char>, f: Seq<usize>)
    requires
        f.len() == s.len(),
    ensures
        is_partition(piece_ranges(pieces_from(s, f, 0)), byte_len(s) as int),
{
    lemma_pieces_from_cover(s, f, 0);
    assert(s.take(0) =~= Seq::<char>::empty());
    if s.len() > 0 {
        crate::text::lemma_byte_len_take(s, 0);
        crate::text::lemma_byte_len_prefix(s, 1);
    }
}

/// An entry of a plan as a tuple of spec values.
pub open spec fn plan_entry(x: (Range<usize>, u32, &FontRef)) -> (int, int, u32, FontRef) {
    (x.0.start as int, x.0.end as int, x.1, *x.2)
}

/// A piece with its family replaced by the family's first font.
pub open spec fn piece_entry(c: &FontCollection, x: (int, int, usize, u32)) -> (int, int, u32, FontRef) {
    (x.0, x.1, x.3, c.families@[x.2 as int].fonts@[0])
}

/// A run of one script run's pieces with the run's script attached.
pub open spec fn with_script(x: (int, int, usize), script: u32) -> (int, int, usize, u32) {
    (x.0, x.1, x.2, script)
}

/// `it` iterates over the whole layout of `session` from its origin.
pub open spec fn whole_query(session: LayoutSession, it: LayoutRangeIter) -> bool {
    &&& it.wf()
    &&& it.fragments@ == session.fragments_view()
    &&& it.fragment_ix == 0
    &&& it.offset == (Position { x: 0, y: 0 })
}

/// Sum of the lengths of the ranges of `ps`.
pub open spec fn clip_total(ps: Seq<(int, int, u32, FontRef)>) -> int
    decreases ps.len(),
{
    if ps.len() == 0 {
        0
    } else {
        (ps[0].1 - ps[0].0) + clip_total(ps.drop_first())
    }
}

/// `frag` is the overlap `p` of a substring query, shaped into `gs`: it covers
/// the overlap's bytes, has the fragment's script and font, and positions `gs`.
pub open spec fn clip_fragment(
    frag: LayoutFragment,
    p: (int, int, u32, FontRef),
    style: TextStyle,
    gs: Seq<ShapedGlyph>,
) -> bool {
    &&& frag.substr_len == p.1 - p.0
    &&& frag.script == p.2
    &&& frag.font.same_as(p.3)
    &&& exists|upem: u32| upem > 0 && #[trigger] is_fragment_of(frag, gs, style.size, upem)
}

/// A query on `range` of `before`, with the overlaps of
/// [`LayoutSession::substr_plan`] shaped into `shaped`, left the session as
/// `after` and returned `r`. On the whole text it yields the whole layout;
/// otherwise, when it succeeds, the overlaps in order, reshaped, which replace
/// those of the last query and cover exactly the bytes of the range.
pub open spec fn substr_query(
    before: LayoutSession,
    range: Range<usize>,
    shaped: Seq<Vec<ShapedGlyph>>,
    after: LayoutSession,
    r: Option<LayoutRangeIter>,
) -> bool {
    &&& after.wf()
    &&& after.text_view() == before.text_view()
    &&& after.style_view() == before.style_view()
    &&& after.fragments_view() == before.fragments_view()
    &&& range.start == 0 && range.end == byte_len(before.text_view()) ==> {
        &&& r matches Some(it) && whole_query(before, it)
        &&& after.substr_view() == before.substr_view()
    }
    &&& !(range.start == 0 && range.end == byte_len(before.text_view())) ==> {
        let clip = clip_from(before.fragments_view(), 0, 0, range.start as int, range.end as int);
        &&& r is None ==> after.substr_view() == before.substr_view()
        &&& r matches Some(it) ==> {
            &&& it.wf()
            &&& it.fragment_ix == 0
            &&& it.offset == (Position { x: 0, y: 0 })
            &&& it.fragments@ == after.substr_view()
            &&& after.substr_view().len() == clip.len()
            &&& shaped.len() == clip.len()
            &&& forall|k: int|
                0 <= k < clip.len() ==> #[trigger] clip_fragment(
                    after.substr_view()[k],
                    clip[k],
                    before.style_view(),
                    shaped[k]@,
                )
            &&& lens_total(after.substr_view()) == range.end - range.start
        }
    }
}

/// The overlaps of a substring query are ordered ranges whose lengths add up
/// to the part of `[start, end)` that lies after byte `fs`.
proof fn lemma_clip_total(frags: Seq<LayoutFragment>, k: int, fs: int, start: int, end: int)
    requires
        0 <= k <= frags.len(),
        fs == lens_total(frags.take(k)),
        0 <= start <= end,
    ensures
        forall|m: int|
            0 <= m < clip_from(frags, k, fs, start, end).len() ==> (#[trigger] clip_from(
                frags,
                k,
                fs,
                start,
                end,
            )[m]).0 <= clip_from(frags, k, fs, start, end)[m].1,
        clip_total(clip_from(frags, k, fs, start, end)) == {
            let hi = if end < lens_total(frags) { end } else { lens_total(frags) };
            let lo = if start > fs { start } else { fs };
            if hi > lo { hi - lo } else { 0 }
        },
    decreases frags.len() - k,
{
    let t = lens_total(frags);
    assert(frags.take(frags.len() as int) =~= frags);
    lemma_lens_total_monotone(frags, k, frags.len() as int);
    if k < frags.len() && fs < end {
        let fe = fs + frags[k].substr_len;
        lemma_lens_total_take(frags, k);
        lemma_lens_total_monotone(frags, k + 1, frags.len() as int);
        lemma_clip_total(frags, k + 1, fe, start, end);
        let c = clip_from(frags, k, fs, start, end);
        let rest = clip_from(frags, k + 1, fe, start, end);
        if fe > start {
            assert(c.drop_first() =~= rest);
            assert forall|m: int| 0 <= m < c.len() implies (#[trigger] c[m]).0 <= c[m].1 by {
                if m > 0 {
                    assert(c[m] == rest[m - 1]);
                }
            }
        }
    }
}

/// `r` is the plan of `text` over `c` when the families chosen for its
/// characters are `f`: one entry per piece, with its byte range, its script
/// and its family's first font.
pub open spec fn plan_matches(
    text: Seq<char>,
    c: &FontCollection,
    r: Seq<(Range<usize>, u32, &FontRef)>,
    f: Seq<usize>,
) -> bool {
    &&& f.len() == text.len()
    &&& forall|i: int|
        0 <= i < f.len() ==> (#[trigger] f[i]) < c.families@.len() && is_family_choice(c, f[i])
    &&& r.len() == pieces_from(text, f, 0).len()
    &&& forall|k: int|
        0 <= k < r.len() ==> {
            &&& (#[trigger] r[k]).0.start == pieces_from(text, f, 0)[k].0
            &&& r[k].0.end == pieces_from(text, f, 0)[k].1
            &&& r[k].1 == pieces_from(text, f, 0)[k].3
            &&& *r[k].2 == c.families@[pieces_from(text, f, 0)[k].2 as int].fonts@[0]
        }
}

/// `frag` is the piece `p` of a plan over `c`, shaped into `gs`: it covers the
/// piece's bytes, has its script and its family's first font, and positions `gs`.
pub open spec fn piece_fragment(
    frag: LayoutFragment,
    p: (int, int, usize, u32),
    c: &FontCollection,
    style: TextStyle,
    gs: Seq<ShapedGlyph>,
) -> bool {
    &&& frag.substr_len == p.1 - p.0
    &&& frag.script == p.3
    &&& frag.font.same_as(c.families@[p.2 as int].fonts@[0])
    &&& exists|upem: u32| upem > 0 && #[trigger] is_fragment_of(frag, gs, style.size, upem)
}

/// `frags` are the pieces of the plan of `text` over `c` for the family
/// choice `f`, in order, each shaped into the matching entry of `shaped`.
pub open spec fn fragments_of_plan(
    frags: Seq<LayoutFragment>,
    text: Seq<char>,
    f: Seq<usize>,
    c: &FontCollection,
    style: TextStyle,
    shaped: Seq<Vec<ShapedGlyph>>,
) -> bool {
    &&& f.len() == text.len()
    &&& forall|i: int|
        0 <= i < f.len() ==> (#[trigger] f[i]) < c.families@.len() && is_family_choice(c, f[i])
    &&& frags.len() == pieces_from(text, f, 0).len()
    &&& shaped.len() == frags.len()
    &&& forall|k: int|
        0 <= k < frags.len() ==> #[trigger] piece_fragment(
            frags[k],
            pieces_from(text, f, 0)[k],
            c,
            style,
            shaped[k]@,
        )
}

/// A text laid out as fragments, with room for the fragments of one
/// substring query.
pub struct LayoutSession {
    text: String,
    style: TextStyle,
    fragments: Vec<LayoutFragment>,
    substr_fragments: Vec<LayoutFragment>,
}

impl LayoutSession {
    /// The text laid out.
    pub closed spec fn text_view(&self) -> Seq<char> {
        self.text@
    }

    /// The style of the layout.
    pub closed spec fn style_view(&self) -> TextStyle {
        self.style
    }

    /// The fragments of the whole text, in text order.
    pub closed spec fn fragments_view(&self) -> Seq<LayoutFragment> {
        self.fragments@
    }

    /// The fragments of the last substring query.
    pub closed spec fn substr_view(&self) -> Seq<LayoutFragment> {
        self.substr_fragments@
    }

    /// The fragments cover the text exactly.
    pub open spec fn wf(&self) -> bool {
        lens_total(self.fragments_view()) == byte_len(self.text_view())
    }

    /// A session over `text` laid out with the fonts of `collection`: the
    /// pieces of [`LayoutSession::plan`] in order, piece `k` as the shaping
    /// engine shaped it into `shaped[k]`, positioned by [`position_glyphs`].
    /// `None` when `shaped` does not hold one glyph list per piece, when a
    /// piece cannot be positioned, or when no family is there for a non-empty text.
    pub fn create(
        text: String,
        style: &TextStyle,
        collection: &FontCollection,
        shaped: Vec<Vec<ShapedGlyph>>,
    ) -> (r: Option<LayoutSession>)
        requires
            collection.has_fallback(),
        ensures
            collection.families@.len() == 0 ==> (r is Some <==> text@.len() == 0 && shaped@.len() == 0),
            r matches Some(s) ==> {
                &&& s.wf()
                &&& s.text_view() == text@
                &&& s.style_view() == *style
                &&& s.substr_view().len() == 0
                &&& forall|k: int|
                    0 <= k < s.fragments_view().len() ==> (#[trigger] s.fragments_view()[k]).substr_len > 0
                &&& exists|f: Seq<usize>|
                    #![trigger pieces_from(text@, f, 0)]
                    fragments_of_plan(s.fragments_view(), text@, f, collection, *style, shaped@)
            },
    {
        let total = text.as_str().as_bytes().len();
        proof {
            crate::text::lemma_byte_len_utf8(text@);
        }
        if collection.families.len() == 0 {
            if total != 0 || shaped.len() != 0 {
                return None;
            }
            let ghost f = Seq::<usize>::empty();
            proof {
                assert(text@.len() == 0) by {
                    if text@.len() > 0 {
                        crate::text::lemma_byte_len_take(text@, 0);
                        crate::text::lemma_byte_len_prefix(text@, 1);
                    }
                }
                assert(fragments_of_plan(Seq::empty(), text@, f, collection, *style, shaped@));
            }
            return Some(
                LayoutSession { text, style: *style, fragments: Vec::new(), substr_fragments: Vec::new() },
            );
        }
        let pieces = Self::plan(text.as_str(), collection);
        if pieces.len() != shaped.len() {
            return None;
        }
        let ghost f = choose|f: Seq<usize>| plan_matches(text@, collection, pieces@, f);
        let ghost ps = pieces_from(text@, f, 0);
        let ghost ranges = pieces@.map_values(
            |x: (Range<usize>, u32, &FontRef)| (x.0.start as int, x.0.end as int),
        );
        let mut fragments: Vec<LayoutFragment> = Vec::new();
        let mut k: usize = 0;
        while k < pieces.len()
            invariant
                collection.families@.len() > 0,
                pieces@.len() == shaped@.len(),
                plan_matches(text@, collection, pieces@, f),
                ps == pieces_from(text@, f, 0),
                ranges == pieces@.map_values(
                    |x: (Range<usize>, u32, &FontRef)| (x.0.start as int, x.0.end as int),
                ),
                is_partition(ranges, total as int),
                0 <= k <= pieces@.len(),
                fragments@.len() == k,
                forall|m: int| 0 <= m < k ==> (#[trigger] fragments@[m]).substr_len > 0,
                forall|m: int|
                    0 <= m < k ==> #[trigger] piece_fragment(
                        fragments@[m],
                        ps[m],
                        collection,
                        *style,
                        shaped@[m]@,
                    ),
                lens_total(fragments@) == if k == 0 { 0 } else { ranges[k - 1].1 },
            decreases pieces@.len() - k,
        {
            let start = pieces[k].0.start;
            let end = pieces[k].0.end;
            assert(ranges[k as int] == (start as int, end as int));
            let fragment = position_glyphs(style, pieces[k].2, pieces[k].1, end - start, &shaped[k]);
            match fragment {
                None => {
                    return None;
                },
                Some(frag) => {
                    let ghost before = fragments@;
                    fragments.push(frag);
                    proof {
                        assert(fragments@.drop_last() =~= before);
                        if k > 0 {
                            assert(ranges[k - 1].1 == ranges[k as int].0);
                        } else {
                            assert(ranges[0].0 == 0);
                        }
                        assert(piece_fragment(fragments@[k as int], ps[k as int], collection, *style, shaped@[k as int]@));
                    }
                },
            }
            k = k + 1;
        }
        proof {
            assert(fragments_of_plan(fragments@, text@, f, collection, *style, shaped@));
        }
        Some(LayoutSession { text, style: *style, fragments, substr_fragments: Vec::new() })
    }

    /// The pieces of `text` to shape separately, in text order: each script
    /// run split where the family that covers the characters changes, each
    /// with its byte range, the run's script and the family's first font.
    #[verifier::rlimit(60)]
    #[verifier::spinoff_prover]
    pub fn plan<'a>(text: &str, collection: &'a FontCollection) -> (r: Vec<
        (Range<usize>, u32, &'a FontRef),
    >)
        requires
            collection.has_fallback(),
        ensures
            collection.families@.len() == 0 ==> r@.len() == 0,
            collection.families@.len() > 0 ==> is_partition(
                r@.map_values(|x: (Range<usize>, u32, &FontRef)| (x.0.start as int, x.0.end as int)),
                text.len() as int,
            ),
            collection.families@.len() > 0 ==> exists|f: Seq<usize>|
                #![trigger pieces_from(text@, f, 0)]
                plan_matches(text@, collection, r@, f),
    {
        let chars = text_chars(text);
        let mut out: Vec<(Range<usize>, u32, &'a FontRef)> = Vec::new();
        if collection.families.len() == 0 {
            return out;
        }
        let fams = collection.families_of(&chars);
        let ghost s = chars@;
        let ghost f = fams@;
        let ghost whole = pieces_from(s, f, 0);
        let mut i: usize = 0;
        let mut byte: usize = 0;
        proof {
            assert(s.take(0) =~= Seq::<char>::empty());
            assert(out@.map_values(|x: (Range<usize>, u32, &FontRef)| plan_entry(x)) =~= Seq::<
                (int, int, u32, FontRef),
            >::empty());
        }
        while i < chars.len()
            invariant
                s == chars@,
                s == text@,
                f == fams@,
                f.len() == s.len(),
                byte_len(s) <= usize::MAX,
                forall|j: int| 0 <= j < f.len() ==> (#[trigger] f[j]) < collection.families@.len()
                    && collection.families@[f[j] as int].fonts@.len() > 0 && is_family_choice(collection, f[j]),
                0 <= i <= s.len(),
                byte == byte_len(s.take(i as int)),
                whole == pieces_from(s, f, 0),
                whole.map_values(|x: (int, int, usize, u32)| piece_entry(collection, x)) == out@.map_values(
                    |x: (Range<usize>, u32, &FontRef)| plan_entry(x),
                ) + pieces_from(s, f, i as int).map_values(
                    |x: (int, int, usize, u32)| piece_entry(collection, x),
                ),
            decreases s.len() - i,
        {
            let ghost rest = s.skip(i as int);
            let (script, e, len) = script_run_at(&chars, i);
            proof {
                lemma_script_run_bounds(rest);
                assert(s.take(e as int) =~= s.take(i as int) + rest.take(e - i));
                lemma_byte_len_concat(s.take(i as int), rest.take(e - i));
                crate::text::lemma_byte_len_prefix(s, e as int);
            }
            let runs = family_runs(&chars, &fams, i, e, byte);
            let ghost rs = runs_from(s.take(e as int), f.take(e as int), i as int);
            proof {
                lemma_runs_from_values(s.take(e as int), f.take(e as int), i as int);
            }
            let ghost before = out@;
            let mut k: usize = 0;
            while k < runs.len()
                invariant
                    f == fams@,
                    forall|j: int| 0 <= j < f.len() ==> (#[trigger] f[j]) < collection.families@.len()
                        && collection.families@[f[j] as int].fonts@.len() > 0,
                    i < e <= f.len(),
                    rs == runs_from(s.take(e as int), f.take(e as int), i as int),
                    runs@.map_values(|x: (Range<usize>, usize)| (x.0.start as int, x.0.end as int, x.1))
                        == rs,
                    forall|m: int|
                        0 <= m < rs.len() ==> exists|j: int|
                            0 <= j < f.take(e as int).len() && (#[trigger] rs[m]).2 == f.take(e as int)[j],
                    0 <= k <= runs@.len(),
                    out@.len() == before.len() + k,
                    out@.map_values(|x: (Range<usize>, u32, &FontRef)| plan_entry(x)) == before.map_values(
                        |x: (Range<usize>, u32, &FontRef)| plan_entry(x),
                    ) + rs.take(k as int).map_values(|x: (int, int, usize)| with_script(x, script)).map_values(
                        |x: (int, int, usize, u32)| piece_entry(collection, x),
                    ),
                decreases runs@.len() - k,
            {
                let start = runs[k].0.start;
                let end = runs[k].0.end;
                let v = runs[k].1;
                proof {
                    let q = |x: (Range<usize>, usize)| (x.0.start as int, x.0.end as int, x.1);
                    assert(runs@.map_values(q)[k as int] == q(runs@[k as int]));
                    let j = choose|j: int|
                        0 <= j < f.take(e as int).len() && rs[k as int].2 == f.take(e as int)[j];
                    assert(f.take(e as int)[j] == f[j]);
                }
                let ghost out_before = out@;
                out.push((start..end, script, &collection.families[v].fonts[0]));
                proof {
                    assert(out@[k + before.len()] == (
                        start..end,
                        script,
                        &collection.families@[v as int].fonts@[0],
                    ));
                    assert(plan_entry(out@[k + before.len()]) == piece_entry(
                        collection,
                        with_script(rs[k as int], script),
                    ));
                    assert(out@.map_values(|x: (Range<usize>, u32, &FontRef)| plan_entry(x))
                        =~= out_before.map_values(|x: (Range<usize>, u32, &FontRef)| plan_entry(x)).push(
                        plan_entry(out@[k + before.len()]),
                    ));
                    assert(rs.take(k + 1).map_values(|x: (int, int, usize)| with_script(x, script)).map_values(
                        |x: (int, int, usize, u32)| piece_entry(collection, x),
                    ) =~= rs.take(k as int).map_values(|x: (int, int, usize)| with_script(x, script)).map_values(
                        |x: (int, int, usize, u32)| piece_entry(collection, x),
                    ).push(piece_entry(collection, with_script(rs[k as int], script))));
                }
                k = k + 1;
            }
            proof {
                assert(rs.take(k as int) =~= rs);
                assert(rest.skip(e - i) =~= s.skip(e as int));
                assert(pieces_from(s, f, i as int) == rs.map_values(
                    |x: (int, int, usize)| with_script(x, script),
                ) + pieces_from(s, f, e as int));
                assert((rs.map_values(|x: (int, int, usize)| with_script(x, script)) + pieces_from(
                    s,
                    f,
                    e as int,
                )).map_values(|x: (int, int, usize, u32)| piece_entry(collection, x)) =~= rs.map_values(
                    |x: (int, int, usize)| with_script(x, script),
                ).map_values(|x: (int, int, usize, u32)| piece_entry(collection, x)) + pieces_from(
                    s,
                    f,
                    e as int,
                ).map_values(|x: (int, int, usize, u32)| piece_entry(collection, x)));
            }
            i = e;
            byte = byte + len;
        }
        proof {
            let g = |x: (Range<usize>, u32, &FontRef)| plan_entry(x);
            let h = |x: (int, int, usize, u32)| piece_entry(collection, x);
            assert(whole.map_values(h) =~= out@.map_values(g));
            assert forall|k: int| 0 <= k < out@.len() implies {
                &&& (#[trigger] out@[k]).0.start == whole[k].0
                &&& out@[k].0.end == whole[k].1
                &&& out@[k].1 == whole[k].3
                &&& *out@[k].2 == collection.families@[whole[k].2 as int].fonts@[0]
            } by {
                assert(whole.map_values(h)[k] == out@.map_values(g)[k]);
            }
            lemma_plan_partitions(s, f);
            let ranges = out@.map_values(
                |x: (Range<usize>, u32, &FontRef)| (x.0.start as int, x.0.end as int),
            );
            assert forall|k: int| 0 <= k < ranges.len() implies #[trigger] ranges[k] == piece_ranges(
                whole,
            )[k] by {
                assert(whole.map_values(h)[k] == out@.map_values(g)[k]);
            }
            assert(ranges =~= piece_ranges(whole));
            assert(plan_matches(text@, collection, out@, f));
        }
        out
    }

    /// The text laid out.
    pub fn text(&self) -> (r: &str)
        ensures
            r@ == self.text_view(),
    {
        self.text.as_str()
    }

    /// The style of the layout.
    pub fn style(&self) -> (r: &TextStyle)
        ensures
            *r == self.style_view(),
    {
        &self.style
    }

    /// Iterates over the fragments of the whole text, from the origin.
    pub fn iter_all(&self) -> (r: LayoutRangeIter<'_>)
        ensures
            whole_query(*self, r),
    {
        LayoutRangeIter::new(&self.fragments)
    }

    /// What a query on the substring `range` has to shape: for each fragment
    /// that overlaps the range, the overlap, the fragment's script and its
    /// font. Nothing when the range is the whole text, whose layout is at hand.
    #[verifier::spinoff_prover]
    pub fn substr_plan(&self, range: &Range<usize>) -> (r: Vec<(Range<usize>, u32, &FontRef)>)
        requires
            self.wf(),
            range.start <= range.end <= byte_len(self.text_view()),
        ensures
            range.start == 0 && range.end == byte_len(self.text_view()) ==> r@.len() == 0,
            !(range.start == 0 && range.end == byte_len(self.text_view())) ==> {
                let p = clip_from(self.fragments_view(), 0, 0, range.start as int, range.end as int);
                &&& r@.len() == p.len()
                &&& forall|k: int|
                    0 <= k < p.len() ==> {
                        &&& (#[trigger] r@[k]).0.start == p[k].0
                        &&& r@[k].0.end == p[k].1
                        &&& r@[k].1 == p[k].2
                        &&& *r@[k].2 == p[k].3
                    }
            },
    {
        let total = self.text.as_str().as_bytes().len();
        proof {
            crate::text::lemma_byte_len_utf8(self.text@);
        }
        let mut out: Vec<(Range<usize>, u32, &FontRef)> = Vec::new();
        if range.start == 0 && range.end == total {
            return out;
        }
        let ghost frags = self.fragments@;
        let ghost start = range.start as int;
        let ghost end = range.end as int;
        let ghost whole = clip_from(frags, 0, 0, start, end);
        let mut fragment_ix: usize = 0;
        let mut str_offset: usize = 0;
        proof {
            assert(frags.take(0) =~= Seq::<LayoutFragment>::empty());
            assert(frags.take(frags.len() as int) =~= frags);
            if frags.len() > 0 {
                lemma_lens_total_take(frags, 0);
                lemma_lens_total_monotone(frags, 1, frags.len() as int);
            }
        }
        let n = self.fragments.len();
        while fragment_ix < n && str_offset + self.fragments[fragment_ix].substr_len <= range.start
            invariant
                n == frags.len(),
                frags == self.fragments@,
                lens_total(frags) == total,
                frags.take(frags.len() as int) == frags,
                start == range.start,
                end == range.end,
                start <= end <= total,
                0 <= fragment_ix <= frags.len(),
                str_offset == lens_total(frags.take(fragment_ix as int)),
                str_offset <= start,
                fragment_ix < frags.len() ==> str_offset + frags[fragment_ix as int].substr_len
                    <= total,
                whole == clip_from(frags, fragment_ix as int, str_offset as int, start, end),
            decreases frags.len() - fragment_ix,
        {
            proof {
                lemma_lens_total_take(frags, fragment_ix as int);
                if fragment_ix + 1 < frags.len() {
                    lemma_lens_total_take(frags, fragment_ix + 1);
                    lemma_lens_total_monotone(frags, fragment_ix + 2, frags.len() as int);
                }
            }
            str_offset = str_offset + self.fragments[fragment_ix].substr_len;
            fragment_ix = fragment_ix + 1;
        }
        proof {
            if fragment_ix < frags.len() {
                lemma_lens_total_take(frags, fragment_ix as int);
                lemma_lens_total_monotone(frags, fragment_ix + 1, frags.len() as int);
            }
        }
        while str_offset < range.end
            invariant
                n == frags.len(),
                frags == self.fragments@,
                lens_total(frags) == total,
                frags.take(frags.len() as int) == frags,
                start == range.start,
                end == range.end,
                start <= end <= total,
                0 <= fragment_ix <= frags.len(),
                str_offset == lens_total(frags.take(fragment_ix as int)),
                fragment_ix < frags.len() ==> str_offset + frags[fragment_ix as int].substr_len > start,
                whole == out@.map_values(
                    |x: (Range<usize>, u32, &FontRef)| (x.0.start as int, x.0.end as int, x.1, *x.2),
                ) + clip_from(frags, fragment_ix as int, str_offset as int, start, end),
            decreases frags.len() - fragment_ix,
        {
            assert(fragment_ix < frags.len()) by {
                if fragment_ix == frags.len() {
                    assert(frags.take(fragment_ix as int) == frags);
                }
            }
            proof {
                lemma_lens_total_take(frags, fragment_ix as int);
                lemma_lens_total_monotone(frags, fragment_ix + 1, frags.len() as int);
            }
            let fragment = &self.fragments[fragment_ix];
            let fragment_len = fragment.substr_len;
            let substr_start = if range.start > str_offset { range.start } else { str_offset };
            let substr_end = if range.end < str_offset + fragment_len {
                range.end
            } else {
                str_offset + fragment_len
            };
            let ghost before = out@;
            out.push((substr_start..substr_end, fragment.script, &fragment.font));
            proof {
                let g = |x: (Range<usize>, u32, &FontRef)| (x.0.start as int, x.0.end as int, x.1, *x.2);
                assert(out@.map_values(g) =~= before.map_values(g).push(
                    (substr_start as int, substr_end as int, frags[fragment_ix as int].script, frags[fragment_ix as int].font),
                ));
                if fragment_ix + 1 < frags.len() {
                    lemma_lens_total_take(frags, fragment_ix + 1);
                }
            }
            str_offset = str_offset + fragment_len;
            fragment_ix = fragment_ix + 1;
        }
        proof {
            let g = |x: (Range<usize>, u32, &FontRef)| (x.0.start as int, x.0.end as int, x.1, *x.2);
            assert(whole =~= out@.map_values(g));
            assert forall|k: int| 0 <= k < whole.len() implies (#[trigger] out@[k]).0.start == whole[k].0 by {
                assert(whole[k] == out@.map_values(g)[k]);
            }
        }
        out
    }

    /// Iterates over the layout of the substring `range`: the layout of the
    /// whole text when the range is all of it; else the overlaps of
    /// [`LayoutSession::substr_plan`], overlap `k` as the shaping engine
    /// shaped it into `shaped[k]`, positioned by [`position_glyphs`]. These
    /// replace the fragments of the previous query. `None`, leaving them, when
    /// `shaped` does not hold one glyph list per overlap or an overlap cannot
    /// be positioned.
    pub fn iter_substr(&mut self, range: Range<usize>, shaped: Vec<Vec<ShapedGlyph>>) -> (r:
        Option<LayoutRangeIter<'_>>)
        requires
            old(self).wf(),
            range.start <= range.end <= byte_len(old(self).text_view()),
        ensures
            substr_query(*old(self), range, shaped@, *final(self), r),
    {
        let total = self.text.as_str().as_bytes().len();
        proof {
            crate::text::lemma_byte_len_utf8(self.text@);
        }
        if range.start == 0 && range.end == total {
            return Some(self.iter_all());
        }
        let pieces = self.substr_plan(&range);
        if pieces.len() != shaped.len() {
            return None;
        }
        let ghost clip = clip_from(self.fragments@, 0, 0, range.start as int, range.end as int);
        proof {
            assert(self.fragments@.take(0) =~= Seq::<LayoutFragment>::empty());
            lemma_clip_total(self.fragments@, 0, 0, range.start as int, range.end as int);
            assert(clip.skip(0) =~= clip);
        }
        let mut fragments: Vec<LayoutFragment> = Vec::new();
        let mut k: usize = 0;
        while k < pieces.len()
            invariant
                *self == *old(self),
                old(self).wf(),
                !(range.start == 0 && range.end == byte_len(old(self).text_view())),
                pieces@.len() == shaped@.len(),
                pieces@.len() == clip.len(),
                forall|m: int|
                    0 <= m < clip.len() ==> {
                        &&& (#[trigger] pieces@[m]).0.start == clip[m].0
                        &&& pieces@[m].0.end == clip[m].1
                        &&& pieces@[m].1 == clip[m].2
                        &&& *pieces@[m].2 == clip[m].3
                    },
                forall|m: int| 0 <= m < clip.len() ==> (#[trigger] clip[m]).0 <= clip[m].1,
                clip_total(clip) == range.end - range.start,
                0 <= k <= pieces@.len(),
                fragments@.len() == k,
                forall|m: int|
                    0 <= m < k ==> #[trigger] clip_fragment(
                        fragments@[m],
                        clip[m],
                        self.style,
                        shaped@[m]@,
                    ),
                lens_total(fragments@) + clip_total(clip.skip(k as int)) == clip_total(clip),
            decreases pieces@.len() - k,
        {
            let start = pieces[k].0.start;
            let end = pieces[k].0.end;
            assert(clip[k as int].0 <= clip[k as int].1);
            let fragment = position_glyphs(&self.style, pieces[k].2, pieces[k].1, end - start, &shaped[k]);
            match fragment {
                None => {
                    return None;
                },
                Some(frag) => {
                    let ghost before = fragments@;
                    fragments.push(frag);
                    proof {
                        assert(fragments@.drop_last() =~= before);
                        assert(clip.skip(k as int).drop_first() =~= clip.skip(k + 1));
                        assert(clip_fragment(fragments@[k as int], clip[k as int], self.style, shaped@[k as int]@));
                    }
                },
            }
            k = k + 1;
        }
        proof {
            assert(clip.skip(k as int) =~= Seq::<(int, int, u32, FontRef)>::empty());
        }
        self.substr_fragments = fragments;
        Some(LayoutRangeIter::new(&self.substr_fragments))
    }
}

/// A query on the whole text yields the same glyphs, with the same
/// positions, as iterating over the whole layout.
pub proof fn lemma_full_range_query_is_whole_layout(
    session: LayoutSession,
    all: LayoutRangeIter,
    range: Range<usize>,
    shaped: Seq<Vec<ShapedGlyph>>,
    after: LayoutSession,
    query: Option<LayoutRangeIter>,
)
    requires
        whole_query(session, all),
        range.start == 0,
        range.end == byte_len(session.text_view()),
        substr_query(session, range, shaped, after, query),
    ensures
        query matches Some(it) && glyphs_from(it.fragments@, 0) == glyphs_from(all.fragments@, 0)
            && it.offset == all.offset,
{
}

} // verus!
