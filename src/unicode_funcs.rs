//! Unicode character properties needed by a shaping engine: script, canonical
//! decomposition and composition, combining class and mirroring.

use vstd::prelude::*;

use crate::tables::{
    keys_sorted, lemma_decomp_sorted, lemma_mirror_sorted, lemma_script_ranges_sorted,
    pair_keys_sorted, ranges_sorted, CANONICAL_DECOMP, MIRROR_PAIRS, SCRIPT_RANGES,
    SCRIPT_UNKNOWN,
};

verus! {

/// First precomposed Hangul syllable.
pub const HANGUL_SYL_BASE: u32 = 0xAC00;

/// Number of precomposed Hangul syllables.
pub const HANGUL_SYL_COUNT: u32 = 11172;

/// First leading consonant jamo.
pub const HANGUL_L_BASE: u32 = 0x1100;

/// First vowel jamo.
pub const HANGUL_V_BASE: u32 = 0x1161;

/// One before the first trailing consonant jamo.
pub const HANGUL_T_BASE: u32 = 0x11A7;

/// Number of vowel jamo.
pub const HANGUL_V_COUNT: u32 = 21;

/// Number of trailing consonant jamo, plus one for "no trailing consonant".
pub const HANGUL_T_COUNT: u32 = 28;

/// Number of syllables that share one leading consonant.
pub const HANGUL_N_COUNT: u32 = 588;

/// Whether the table range `r` holds `cp`.
pub open spec fn range_holds(r: (u32, u32, u32), cp: u32) -> bool {
    r.0 <= cp <= r.1
}

/// The third field of the range of `t` that holds `cp`, or `default` when none does.
pub open spec fn range_value(t: Seq<(u32, u32, u32)>, cp: u32, default: u32) -> u32 {
    if exists|i: int| 0 <= i < t.len() && #[trigger] range_holds(t[i], cp) {
        t[choose|i: int| 0 <= i < t.len() && #[trigger] range_holds(t[i], cp)].2
    } else {
        default
    }
}

/// The script of `cp`: that of the table range holding it, or Unknown when none does.
pub open spec fn script_of(cp: u32) -> u32 {
    range_value(SCRIPT_RANGES@, cp, SCRIPT_UNKNOWN)
}

/// Binary search of sorted disjoint ranges for the one holding `query`.
fn find_range(t: &[(u32, u32, u32)], query: u32, default: u32) -> (r: u32)
    requires
        ranges_sorted(t@),
    ensures
        r == range_value(t@, query, default),
{
    let mut lo: usize = 0;
    let mut hi: usize = t.len();
    while lo < hi
        invariant
            ranges_sorted(t@),
            0 <= lo <= hi <= t@.len(),
            forall|i: int| 0 <= i < lo ==> (#[trigger] t@[i]).1 < query,
            forall|i: int| hi <= i < t@.len() ==> query < (#[trigger] t@[i]).0,
        decreases hi - lo,
    {
        let mid = lo + (hi - lo) / 2;
        let (start, end, value) = t[mid];
        if query < start {
            assert forall|i: int| mid <= i < t@.len() implies query < (#[trigger] t@[i]).0 by {
                if i > mid {
                    assert(t@[mid as int].1 < t@[i].0);
                }
            }
            hi = mid;
        } else if end < query {
            assert forall|i: int| 0 <= i <= mid implies (#[trigger] t@[i]).1 < query by {
                if i < mid {
                    assert(t@[i].1 < t@[mid as int].0);
                }
            }
            lo = mid + 1;
        } else {
            assert(range_holds(t@[mid as int], query));
            let ghost k = choose|i: int| 0 <= i < t@.len() && #[trigger] range_holds(t@[i], query);
            assert(k == mid) by {
                if k < mid {
                    assert(t@[k].1 < t@[mid as int].0);
                } else if k > mid {
                    assert(t@[mid as int].1 < t@[k].0);
                }
            }
            return value;
        }
    }
    assert forall|i: int| 0 <= i < t@.len() implies !#[trigger] range_holds(t@[i], query) by {
        if i < lo {
            assert(t@[i].1 < query);
        } else {
            assert(query < t@[i].0);
        }
    }
    default
}

/// Looks up the script property of a code point, as a big-endian four-letter tag.
///
/// Defined for every `u32`: values that no table range holds (unassigned code
/// points, surrogates, values past the last scalar) give the Unknown script.
pub fn lookup_script(query: u32) -> (r: u32)
    ensures
        r == script_of(query),
{
    proof {
        lemma_script_ranges_sorted();
    }
    find_range(&SCRIPT_RANGES, query, SCRIPT_UNKNOWN)
}

/// The script of a character.
pub fn unicode_script(c: char) -> (r: u32)
    ensures
        r == script_of(c as u32),
{
    lookup_script(c as u32)
}

/// The pair that the table `t` gives for the key `cp`, if it holds that key.
pub open spec fn keyed_pair(t: Seq<(u32, u32, u32)>, cp: u32) -> Option<(u32, u32)> {
    if exists|i: int| 0 <= i < t.len() && (#[trigger] t[i]).0 == cp {
        let i = choose|i: int| 0 <= i < t.len() && (#[trigger] t[i]).0 == cp;
        Some((t[i].1, t[i].2))
    } else {
        None
    }
}

/// The value that the table `t` gives for the key `cp`, if it holds that key.
pub open spec fn keyed_value(t: Seq<(u32, u32)>, cp: u32) -> Option<u32> {
    if exists|i: int| 0 <= i < t.len() && (#[trigger] t[i]).0 == cp {
        Some(t[choose|i: int| 0 <= i < t.len() && (#[trigger] t[i]).0 == cp].1)
    } else {
        None
    }
}

/// Binary search of a table with strictly ascending keys.
fn find_pair(t: &[(u32, u32, u32)], key: u32) -> (r: Option<(u32, u32)>)
    requires
        keys_sorted(t@),
    ensures
        r == keyed_pair(t@, key),
{
    let mut lo: usize = 0;
    let mut hi: usize = t.len();
    while lo < hi
        invariant
            keys_sorted(t@),
            0 <= lo <= hi <= t@.len(),
            forall|i: int| 0 <= i < lo ==> (#[trigger] t@[i]).0 < key,
            forall|i: int| hi <= i < t@.len() ==> key < (#[trigger] t@[i]).0,
        decreases hi - lo,
    {
        let mid = lo + (hi - lo) / 2;
        let (k, a, b) = t[mid];
        if key < k {
            assert forall|i: int| mid <= i < t@.len() implies key < (#[trigger] t@[i]).0 by {
                if i > mid {
                    assert(t@[mid as int].0 < t@[i].0);
                }
            }
            hi = mid;
        } else if k < key {
            assert forall|i: int| 0 <= i <= mid implies (#[trigger] t@[i]).0 < key by {
                if i < mid {
                    assert(t@[i].0 < t@[mid as int].0);
                }
            }
            lo = mid + 1;
        } else {
            let ghost j = choose|i: int| 0 <= i < t@.len() && (#[trigger] t@[i]).0 == key;
            assert(t@[mid as int].0 == key);
            assert(j == mid) by {
                if j < mid {
                    assert(t@[j].0 < t@[mid as int].0);
                } else if j > mid {
                    assert(t@[mid as int].0 < t@[j].0);
                }
            }
            return Some((a, b));
        }
    }
    assert forall|i: int| 0 <= i < t@.len() implies (#[trigger] t@[i]).0 != key by {
        if i < lo {
            assert(t@[i].0 < key);
        } else {
            assert(key < t@[i].0);
        }
    }
    None
}

/// Binary search of a table of pairs with strictly ascending keys.
fn find_value(t: &[(u32, u32)], key: u32) -> (r: Option<u32>)
    requires
        pair_keys_sorted(t@),
    ensures
        r == keyed_value(t@, key),
{
    let mut lo: usize = 0;
    let mut hi: usize = t.len();
    while lo < hi
        invariant
            pair_keys_sorted(t@),
            0 <= lo <= hi <= t@.len(),
            forall|i: int| 0 <= i < lo ==> (#[trigger] t@[i]).0 < key,
            forall|i: int| hi <= i < t@.len() ==> key < (#[trigger] t@[i]).0,
        decreases hi - lo,
    {
        let mid = lo + (hi - lo) / 2;
        let (k, v) = t[mid];
        if key < k {
            assert forall|i: int| mid <= i < t@.len() implies key < (#[trigger] t@[i]).0 by {
                if i > mid {
                    assert(t@[mid as int].0 < t@[i].0);
                }
            }
            hi = mid;
        } else if k < key {
            assert forall|i: int| 0 <= i <= mid implies (#[trigger] t@[i]).0 < key by {
                if i < mid {
                    assert(t@[i].0 < t@[mid as int].0);
                }
            }
            lo = mid + 1;
        } else {
            let ghost j = choose|i: int| 0 <= i < t@.len() && (#[trigger] t@[i]).0 == key;
            assert(t@[mid as int].0 == key);
            assert(j == mid) by {
                if j < mid {
                    assert(t@[j].0 < t@[mid as int].0);
                } else if j > mid {
                    assert(t@[mid as int].0 < t@[j].0);
                }
            }
            return Some(v);
        }
    }
    assert forall|i: int| 0 <= i < t@.len() implies (#[trigger] t@[i]).0 != key by {
        if i < lo {
            assert(t@[i].0 < key);
        } else {
            assert(key < t@[i].0);
        }
    }
    None
}

/// Whether `cp` is a precomposed Hangul syllable.
pub open spec fn is_hangul_syllable(cp: u32) -> bool {
    HANGUL_SYL_BASE <= cp < HANGUL_SYL_BASE + HANGUL_SYL_COUNT
}

/// The algorithmic decomposition of a precomposed Hangul syllable: a syllable
/// without a trailing consonant splits into its leading consonant and vowel,
/// any other into the syllable without its trailing consonant and that consonant.
pub open spec fn hangul_decomposition(cp: u32) -> (u32, u32) {
    let syl = cp - HANGUL_SYL_BASE;
    let t = syl % (HANGUL_T_COUNT as int);
    if t == 0 {
        (
            (HANGUL_L_BASE + syl / (HANGUL_N_COUNT as int)) as u32,
            (HANGUL_V_BASE + (syl % (HANGUL_N_COUNT as int)) / (HANGUL_T_COUNT as int)) as u32,
        )
    } else {
        ((cp - t) as u32, (HANGUL_T_BASE + t) as u32)
    }
}

/// The canonical decomposition of `cp` into two code points, if it has one.
pub open spec fn decomposition(cp: u32) -> Option<(u32, u32)> {
    if is_hangul_syllable(cp) {
        Some(hangul_decomposition(cp))
    } else {
        keyed_pair(CANONICAL_DECOMP@, cp)
    }
}

/// Decomposes a precomposed Hangul syllable.
fn decompose_hangul(ab: u32) -> (r: (u32, u32))
    requires
        is_hangul_syllable(ab),
    ensures
        r == hangul_decomposition(ab),
{
    let syl = ab - HANGUL_SYL_BASE;
    let t = syl % HANGUL_T_COUNT;
    if t == 0 {
        (HANGUL_L_BASE + syl / HANGUL_N_COUNT, HANGUL_V_BASE + (syl % HANGUL_N_COUNT) / HANGUL_T_COUNT)
    } else {
        (ab - t, HANGUL_T_BASE + t)
    }
}

/// Canonical decomposition of a code point into two, Hangul syllables by the
/// algorithm and everything else by the table; `None` when there is none.
pub fn unicode_decompose(ab: u32) -> (r: Option<(u32, u32)>)
    ensures
        r == decomposition(ab),
{
    if HANGUL_SYL_BASE <= ab && ab < HANGUL_SYL_BASE + HANGUL_SYL_COUNT {
        return Some(decompose_hangul(ab));
    }
    decompose_by_table(ab)
}

/// Looks a code point up in the decomposition table.
fn decompose_by_table(ab: u32) -> (r: Option<(u32, u32)>)
    ensures
        r == keyed_pair(CANONICAL_DECOMP@, ab),
{
    proof {
        lemma_decomp_sorted();
    }
    find_pair(&CANONICAL_DECOMP, ab)
}

/// The Bidi mirroring partner of `cp`, if it has one.
pub open spec fn mirroring(cp: u32) -> Option<u32> {
    keyed_value(MIRROR_PAIRS@, cp)
}

/// The Bidi mirrored form of a code point, if it has one.
pub fn unicode_mirror(cp: u32) -> (r: Option<u32>)
    ensures
        r == mirroring(cp),
{
    proof {
        lemma_mirror_sorted();
    }
    find_value(&MIRROR_PAIRS, cp)
}

/// What `unicode_normalization::char::compose` gives for two characters.
pub uninterp spec fn canonical_composition(a: char, b: char) -> Option<char>;

/// What `unicode_normalization::char::canonical_combining_class` gives for a character.
pub uninterp spec fn combining_class_of(c: char) -> u8;

/// Relies on `unicode_normalization::char::compose`: the primary composite of
/// two characters, which depends on the two characters alone.
#[verifier::external_body]
fn compose_pair(a: char, b: char) -> (r: Option<char>)
    ensures
        r == canonical_composition(a, b),
{
    unicode_normalization::char::compose(a, b)
}

/// Relies on `unicode_normalization::char::canonical_combining_class`: the
/// canonical combining class of a character, which depends on it alone.
#[verifier::external_body]
fn combining_class(c: char) -> (r: u8)
    ensures
        r == combining_class_of(c),
{
    unicode_normalization::char::canonical_combining_class(c)
}

/// Canonical composition of two characters, if they have a primary composite.
pub fn unicode_compose(a: char, b: char) -> (r: Option<char>)
    ensures
        r == canonical_composition(a, b),
{
    compose_pair(a, b)
}

/// The canonical combining class of a character.
pub fn unicode_combining_class(c: char) -> (r: u8)
    ensures
        r == combining_class_of(c),
{
    combining_class(c)
}

} // verus!
