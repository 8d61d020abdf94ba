//! Turning a shaping engine's output into positioned fragments, and the
//! per-worker cache of compiled faces.

use std::sync::Arc;

use vstd::prelude::*;

use crate::collection::FontRef;
use crate::session::{FragmentGlyph, LayoutFragment, Vector};
use crate::TextStyle;

verus! {

/// The shaping engine's flag for "unsafe to break at this glyph's cluster".
pub const GLYPH_FLAG_UNSAFE_TO_BREAK: u32 = 1;

/// One glyph as the shaping engine reports it, positions in font units.
#[derive(Clone, Copy, PartialEq, Eq, Structural, Debug)]
pub struct ShapedGlyph {
    pub cluster: u32,
    pub glyph_id: u32,
    pub x_advance: i32,
    pub y_advance: i32,
    pub x_offset: i32,
    pub y_offset: i32,
    pub flags: u32,
}

/// `v` font units at `size` (1/64 point) for an em of `upem` units, rounded
/// toward zero.
pub open spec fn scale(v: int, size: int, upem: int) -> int {
    if v < 0 {
        -((-v) * size / upem)
    } else {
        v * size / upem
    }
}

/// The scaled advance of `g`.
pub open spec fn scaled_advance(g: ShapedGlyph, size: u32, upem: u32) -> (int, int) {
    (scale(g.x_advance as int, size as int, upem as int), scale(g.y_advance as int, size as int, upem as int))
}

/// The scaled offset of `g` from its pen position.
pub open spec fn scaled_offset(g: ShapedGlyph, size: u32, upem: u32) -> (int, int) {
    (scale(g.x_offset as int, size as int, upem as int), scale(g.y_offset as int, size as int, upem as int))
}

/// The pen position after the first `n` glyphs: the sum of their scaled advances.
pub open spec fn pen(gs: Seq<ShapedGlyph>, n: int, size: u32, upem: u32) -> (int, int)
    decreases n,
{
    if n <= 0 || n > gs.len() {
        (0, 0)
    } else {
        let p = pen(gs, n - 1, size, upem);
        let a = scaled_advance(gs[n - 1], size, upem);
        (p.0 + a.0, p.1 + a.1)
    }
}

/// Whether both coordinates of `v` fit in an `i64`.
pub open spec fn fits(v: (int, int)) -> bool {
    i64::MIN <= v.0 <= i64::MAX && i64::MIN <= v.1 <= i64::MAX
}

/// Whether every pen position and glyph position of `gs` fits in an `i64`.
pub open spec fn glyphs_fit(gs: Seq<ShapedGlyph>, size: u32, upem: u32) -> bool {
    &&& forall|i: int| 0 <= i <= gs.len() ==> fits(#[trigger] pen(gs, i, size, upem))
    &&& forall|i: int|
        0 <= i < gs.len() ==> fits(
            (
                pen(gs, i, size, upem).0 + scaled_offset(gs[i], size, upem).0,
                pen(gs, i, size, upem).1 + scaled_offset(gs[i], size, upem).1,
            ),
        )
}

/// The fragment glyph for glyph `i` of `gs`: its position is the pen
/// position plus its own offset.
pub open spec fn fragment_glyph(gs: Seq<ShapedGlyph>, i: int, size: u32, upem: u32) -> FragmentGlyph {
    FragmentGlyph {
        cluster: gs[i].cluster,
        glyph_id: gs[i].glyph_id,
        offset: Vector {
            x: (pen(gs, i, size, upem).0 + scaled_offset(gs[i], size, upem).0) as i64,
            y: (pen(gs, i, size, upem).1 + scaled_offset(gs[i], size, upem).1) as i64,
        },
        advance: Vector {
            x: scaled_advance(gs[i], size, upem).0 as i64,
            y: scaled_advance(gs[i], size, upem).1 as i64,
        },
        unsafe_to_break: gs[i].flags & GLYPH_FLAG_UNSAFE_TO_BREAK != 0,
    }
}

/// Whether `f` is the fragment of the glyphs `gs` at `size` for an em of `upem`.
pub open spec fn is_fragment_of(f: LayoutFragment, gs: Seq<ShapedGlyph>, size: u32, upem: u32) -> bool {
    &&& f.glyphs@.len() == gs.len()
    &&& forall|i: int| 0 <= i < gs.len() ==> f.glyphs@[i] == #[trigger] fragment_glyph(gs, i, size, upem)
    &&& f.advance == (Vector {
        x: pen(gs, gs.len() as int, size, upem).0 as i64,
        y: pen(gs, gs.len() as int, size, upem).1 as i64,
    })
}

/// Scales `v` font units to `size` (1/64 point) for an em of `upem` units.
fn scale_position(v: i32, size: u32, upem: u32) -> (r: i64)
    requires
        upem > 0,
    ensures
        r == scale(v as int, size as int, upem as int),
{
    let mag: u64 = if v < 0 { (0i64 - v as i64) as u64 } else { v as u64 };
    assert(mag * (size as u64) <= 0x8000_0000 * 0xffff_ffff) by (nonlinear_arith)
        requires
            mag <= 0x8000_0000,
            size <= 0xffff_ffff,
    ;
    let product = mag * (size as u64);
    let q = product / (upem as u64);
    assert(q <= product) by (nonlinear_arith)
        requires
            q == product / (upem as u64),
            upem > 0,
    ;
    if v < 0 {
        0i64 - q as i64
    } else {
        q as i64
    }
}

/// Positions the glyphs `shaped` that a shaping engine produced for `substr_len`
/// bytes of text in `script` with `font`: scales them to `size` (1/64 point)
/// for an em of `units_per_em` font units and places each glyph at the sum of
/// the advances before it plus its own offset. `None` when a position does not
/// fit in an `i64`.
#[verifier::spinoff_prover]
pub fn build_fragment(
    shaped: &Vec<ShapedGlyph>,
    size: u32,
    units_per_em: u32,
    substr_len: usize,
    script: u32,
    font: FontRef,
) -> (r: Option<LayoutFragment>)
    requires
        units_per_em > 0,
    ensures
        r is Some <==> glyphs_fit(shaped@, size, units_per_em),
        r matches Some(f) ==> {
            &&& is_fragment_of(f, shaped@, size, units_per_em)
            &&& f.substr_len == substr_len
            &&& f.script == script
            &&& f.font == font
        },
{
    let ghost gs = shaped@;
    let mut total_x: i64 = 0;
    let mut total_y: i64 = 0;
    let mut glyphs: Vec<FragmentGlyph> = Vec::new();
    let mut i: usize = 0;
    while i < shaped.len()
        invariant
            gs == shaped@,
            units_per_em > 0,
            0 <= i <= gs.len(),
            (total_x as int, total_y as int) == pen(gs, i as int, size, units_per_em),
            glyphs@.len() == i,
            forall|j: int| 0 <= j < i ==> glyphs@[j] == #[trigger] fragment_glyph(gs, j, size, units_per_em),
            forall|j: int| 0 <= j <= i ==> fits(#[trigger] pen(gs, j, size, units_per_em)),
            forall|j: int|
                0 <= j < i ==> fits(
                    (
                        pen(gs, j, size, units_per_em).0 + scaled_offset(gs[j], size, units_per_em).0,
                        pen(gs, j, size, units_per_em).1 + scaled_offset(gs[j], size, units_per_em).1,
                    ),
                ),
        decreases gs.len() - i,
    {
        let g = shaped[i];
        let adv_x = scale_position(g.x_advance, size, units_per_em);
        let adv_y = scale_position(g.y_advance, size, units_per_em);
        let off_x = scale_position(g.x_offset, size, units_per_em);
        let off_y = scale_position(g.y_offset, size, units_per_em);
        let pos_x = total_x as i128 + off_x as i128;
        let pos_y = total_y as i128 + off_y as i128;
        let next_x = total_x as i128 + adv_x as i128;
        let next_y = total_y as i128 + adv_y as i128;
        if pos_x < i64::MIN as i128 || pos_x > i64::MAX as i128 || pos_y < i64::MIN as i128 || pos_y
            > i64::MAX as i128 {
            return None;
        }
        if next_x < i64::MIN as i128 || next_x > i64::MAX as i128 || next_y < i64::MIN as i128
            || next_y > i64::MAX as i128 {
            assert(!fits(pen(gs, i + 1, size, units_per_em)));
            return None;
        }
        glyphs.push(
            FragmentGlyph {
                cluster: g.cluster,
                glyph_id: g.glyph_id,
                offset: Vector { x: pos_x as i64, y: pos_y as i64 },
                advance: Vector { x: adv_x, y: adv_y },
                unsafe_to_break: g.flags & GLYPH_FLAG_UNSAFE_TO_BREAK != 0,
            },
        );
        total_x = next_x as i64;
        total_y = next_y as i64;
        i = i + 1;
    }
    Some(
        LayoutFragment {
            substr_len,
            script,
            advance: Vector { x: total_x, y: total_y },
            glyphs,
            font,
        },
    )
}

/// Positions the glyphs `shaped` that a shaping engine produced for
/// `substr_len` bytes of text in `script` with `font`, at the size of `style`
/// (see [`build_fragment`]). `None` when the font reports an em of zero units
/// or a position does not fit in an `i64`.
pub fn position_glyphs(
    style: &TextStyle,
    font: &FontRef,
    script: u32,
    substr_len: usize,
    shaped: &Vec<ShapedGlyph>,
) -> (r: Option<LayoutFragment>)
    ensures
        r matches Some(f) ==> {
            &&& exists|upem: u32| upem > 0 && #[trigger] is_fragment_of(f, shaped@, style.size, upem)
            &&& f.substr_len == substr_len
            &&& f.script == script
            &&& f.font.same_as(*font)
        },
{
    let units_per_em = font.units_per_em();
    if units_per_em == 0 {
        return None;
    }
    build_fragment(shaped, style.size, units_per_em, substr_len, script, font.share())
}

/// Positions the glyphs `shaped` that a shaping engine produced for `text` in
/// `script` with `font`, at the size of `style` (see [`position_glyphs`]).
pub fn layout_fragment(
    style: &TextStyle,
    font: &FontRef,
    script: u32,
    text: &str,
    shaped: &Vec<ShapedGlyph>,
) -> (r: Option<LayoutFragment>)
    ensures
        r matches Some(f) ==> {
            &&& exists|upem: u32| upem > 0 && #[trigger] is_fragment_of(f, shaped@, style.size, upem)
            &&& f.substr_len == text.len()
            &&& f.script == script
            &&& f.font.same_as(*font)
        },
{
    position_glyphs(style, font, script, text.len(), shaped)
}

/// The variation axis settings of `font` for the shaping engine: each axis
/// tag as a big-endian integer with the bit pattern of its coordinate.
pub fn get_variation_data(font: &FontRef) -> (r: Vec<(u32, u32)>)
    ensures
        r@ == font.location@,
{
    let mut res: Vec<(u32, u32)> = Vec::new();
    let mut i: usize = 0;
    while i < font.location.len()
        invariant
            0 <= i <= font.location@.len(),
            res@ == font.location@.take(i as int),
        decreases font.location@.len() - i,
    {
        res.push(font.location[i]);
        i = i + 1;
        assert(res@ =~= font.location@.take(i as int));
    }
    assert(font.location@.take(i as int) =~= font.location@);
    res
}

/// harfbuzz's blob of bytes, held opaquely.
#[verifier::external_type_specification]
#[verifier::external_body]
pub struct ExBlob<'a>(harfbuzz::Blob<'a>);

/// Relies on harfbuzz's `Blob::new_from_arc_vec`: a read-only blob over the
/// bytes that keeps them alive; it panics beyond `u32::MAX` bytes.
#[verifier::external_body]
fn blob_from_arc_vec(data: Arc<Vec<u8>>) -> harfbuzz::Blob<'static>
    requires
        data@.len() <= u32::MAX,
{
    harfbuzz::Blob::new_from_arc_vec(data)
}

/// Font bytes shared with the shaping engine, which keeps them alive for as
/// long as it uses them.
pub struct ArcVecBlob {
    blob: harfbuzz::Blob<'static>,
    len: usize,
}

impl ArcVecBlob {
    /// A blob over `data`, whose length the engine takes as a 32-bit count.
    pub fn new(data: Arc<Vec<u8>>) -> (r: ArcVecBlob)
        requires
            data@.len() <= u32::MAX,
        ensures
            r.len() == data@.len(),
    {
        let len = data.len();
        ArcVecBlob { blob: blob_from_arc_vec(data), len }
    }

    /// Number of bytes in the blob.
    pub closed spec fn len(&self) -> nat {
        self.len as nat
    }

    /// Number of bytes in the blob.
    pub fn byte_len(&self) -> (r: usize)
        ensures
            r == self.len(),
    {
        self.len
    }

    /// Hands the engine's blob over to the caller, who becomes responsible
    /// for it.
    pub fn into_raw(self) -> harfbuzz::Blob<'static> {
        self.blob
    }
}

/// The key of the face cache: the font's PostScript name.
#[derive(Debug)]
pub struct FontId {
    pub postscript_name: String,
}

impl View for FontId {
    type V = Seq<char>;

    open spec fn view(&self) -> Seq<char> {
        self.postscript_name@
    }
}

impl FontId {
    /// The key for a font whose PostScript name is `name`: the name, or the
    /// empty name when it has none.
    pub fn from_name(name: Option<String>) -> (r: FontId)
        ensures
            r@ == match name {
                Some(s) => s@,
                None => Seq::<char>::empty(),
            },
    {
        match name {
            Some(name) => FontId { postscript_name: name },
            None => FontId { postscript_name: String::new() },
        }
    }

    /// Whether two keys are equal.
    pub fn same(&self, other: &FontId) -> (r: bool)
        ensures
            r == (self@ == other@),
    {
        self.postscript_name == other.postscript_name
    }
}

/// The first face that `cache` holds under `name`.
pub open spec fn cached_face<F>(cache: Seq<(Seq<char>, Arc<F>)>, name: Seq<char>) -> Option<Arc<F>>
    decreases cache.len(),
{
    if cache.len() == 0 {
        None
    } else if cache[0].0 == name {
        Some(cache[0].1)
    } else {
        cached_face(cache.drop_first(), name)
    }
}

/// Appending an entry only adds a face for a name that had none.
proof fn lemma_cached_face_push<F>(cache: Seq<(Seq<char>, Arc<F>)>, entry: (Seq<char>, Arc<F>), name: Seq<char>)
    ensures
        cached_face(cache.push(entry), name) == if cached_face(cache, name) is Some {
            cached_face(cache, name)
        } else if entry.0 == name {
            Some(entry.1)
        } else {
            None
        },
    decreases cache.len(),
{
    if cache.len() > 0 {
        assert(cache.push(entry).drop_first() =~= cache.drop_first().push(entry));
        assert(cache.push(entry)[0] == cache[0]);
        lemma_cached_face_push(cache.drop_first(), entry, name);
    } else {
        assert(cache.push(entry).drop_first() =~= Seq::<(Seq<char>, Arc<F>)>::empty());
        assert(cache.push(entry)[0] == entry);
        assert(cached_face(Seq::<(Seq<char>, Arc<F>)>::empty(), name) is None);
    }
}

/// A cache of compiled faces for one worker, keyed by font name; a worker
/// compiles a font's face once and shares it afterwards.
pub struct HbThreadData<F> {
    hb_face_cache: Vec<(FontId, Arc<F>)>,
}

impl<F> HbThreadData<F> {
    /// The cache's entries: each font name with its face, in insertion order.
    pub closed spec fn entries(&self) -> Seq<(Seq<char>, Arc<F>)> {
        self.hb_face_cache@.map_values(|e: (FontId, Arc<F>)| (e.0@, e.1))
    }

    /// An empty cache.
    pub fn new() -> (r: HbThreadData<F>)
        ensures
            r.entries().len() == 0,
    {
        let r = HbThreadData { hb_face_cache: Vec::new() };
        assert(r.entries() =~= Seq::<(Seq<char>, Arc<F>)>::empty());
        r
    }

    /// The face cached for `id`, if any.
    pub fn face(&self, id: &FontId) -> (r: Option<&Arc<F>>)
        ensures
            r == match cached_face(self.entries(), id@) {
                Some(f) => Some(&f),
                None => None::<&Arc<F>>,
            },
    {
        let ghost e = self.entries();
        let mut i: usize = 0;
        assert(e.skip(0) =~= e);
        while i < self.hb_face_cache.len()
            invariant
                e == self.entries(),
                0 <= i <= e.len(),
                cached_face(e, id@) == cached_face(e.skip(i as int), id@),
            decreases e.len() - i,
        {
            assert(e.skip(i as int).drop_first() =~= e.skip(i + 1));
            if self.hb_face_cache[i].0.same(id) {
                return Some(&self.hb_face_cache[i].1);
            }
            i = i + 1;
        }
        None
    }

    /// Caches `face` for `id` unless a face is cached for it already; returns
    /// whether it was added.
    pub fn insert(&mut self, id: FontId, face: Arc<F>) -> (r: bool)
        ensures
            r == (cached_face(old(self).entries(), id@) is None),
            r ==> final(self).entries() == old(self).entries().push((id@, face)),
            !r ==> final(self).entries() == old(self).entries(),
            cached_face(final(self).entries(), id@) == if r {
                Some(face)
            } else {
                cached_face(old(self).entries(), id@)
            },
    {
        if self.face(&id).is_some() {
            return false;
        }
        let ghost name = id@;
        let ghost before = self.hb_face_cache@;
        self.hb_face_cache.push((id, face));
        proof {
            let g = |e: (FontId, Arc<F>)| (e.0@, e.1);
            assert(self.hb_face_cache@.map_values(g) =~= before.map_values(g).push((name, face)));
            lemma_cached_face_push(before.map_values(g), (name, face), name);
        }
        true
    }
}

} // verus!
