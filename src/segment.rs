//! Splitting text into runs of a single script.

use vstd::prelude::*;

use crate::tables::{SCRIPT_COMMON, SCRIPT_INHERITED, SCRIPT_UNKNOWN};
use crate::text::{byte_len, char_width, lemma_byte_len_prefix, lemma_byte_len_take, text_chars};
use crate::unicode_funcs::{lookup_script, script_of};

verus! {

/// Common and Inherited characters take the script of their neighbours.
pub open spec fn is_weak_script(s: u32) -> bool {
    s == SCRIPT_COMMON || s == SCRIPT_INHERITED
}

/// The script property of a character.
pub open spec fn char_script(c: char) -> u32 {
    script_of(c as u32)
}

/// The resolved script and the end (exclusive, in characters) of a run of `s`
/// that has reached index `i` with current script `cur`.
///
/// A character of the current script, or a weak one, extends the run; while
/// the current script is weak, the next character's script replaces it; a
/// character of another concrete script ends the run.
pub open spec fn run_from(s: Seq<char>, i: int, cur: u32) -> (u32, int)
    decreases s.len() - i,
{
    if i < 0 || i >= s.len() {
        (cur, s.len() as int)
    } else {
        let x = char_script(s[i]);
        if x == cur {
            run_from(s, i + 1, cur)
        } else if is_weak_script(cur) {
            run_from(s, i + 1, x)
        } else if is_weak_script(x) {
            run_from(s, i + 1, cur)
        } else {
            (cur, i)
        }
    }
}

/// The script and the length in characters of the first script run of `s`;
/// a run that saw only Inherited characters counts as Common, and empty text
/// gives Unknown with length zero.
pub open spec fn script_run(s: Seq<char>) -> (u32, int) {
    if s.len() == 0 {
        (SCRIPT_UNKNOWN, 0)
    } else {
        let r = run_from(s, 1, char_script(s[0]));
        (if r.0 == SCRIPT_INHERITED { SCRIPT_COMMON } else { r.0 }, r.1)
    }
}

/// The runs that successive application of [`script_run`] to the remaining
/// text yields: each run's script and its length in bytes.
pub open spec fn script_runs_of(s: Seq<char>) -> Seq<(u32, nat)>
    decreases s.len(),
{
    let r = script_run(s);
    if s.len() == 0 || r.1 <= 0 || r.1 > s.len() {
        Seq::empty()
    } else {
        seq![(r.0, byte_len(s.take(r.1)))] + script_runs_of(s.skip(r.1))
    }
}

/// Sum of the lengths of `runs`.
pub open spec fn runs_total(runs: Seq<(u32, nat)>) -> nat
    decreases runs.len(),
{
    if runs.len() == 0 {
        0
    } else {
        runs[0].1 + runs_total(runs.drop_first())
    }
}

/// A run that has reached index `i` ends between `i` and the end.
proof fn lemma_run_from_bounds(s: Seq<char>, i: int, cur: u32)
    requires
        0 <= i <= s.len(),
    ensures
        i <= run_from(s, i, cur).1 <= s.len(),
    decreases s.len() - i,
{
    if i < s.len() {
        let x = char_script(s[i]);
        lemma_run_from_bounds(s, i + 1, cur);
        lemma_run_from_bounds(s, i + 1, x);
    }
}

/// A script run of non-empty text is non-empty and lies within the text.
pub proof fn lemma_script_run_bounds(s: Seq<char>)
    ensures
        s.len() > 0 ==> 1 <= script_run(s).1 <= s.len(),
        s.len() == 0 ==> script_run(s).1 == 0,
{
    if s.len() > 0 {
        lemma_run_from_bounds(s, 1, char_script(s[0]));
    }
}

/// Applying the script run rule to successive remainders of the text
/// consumes all of it: every run is non-empty and their byte lengths add up
/// to the byte length of the text.
pub proof fn lemma_script_runs_consume(s: Seq<char>)
    ensures
        runs_total(script_runs_of(s)) == byte_len(s),
        forall|k: int| 0 <= k < script_runs_of(s).len() ==> (#[trigger] script_runs_of(s)[k]).1 > 0,
    decreases s.len(),
{
    if s.len() > 0 {
        lemma_script_run_bounds(s);
        let n = script_run(s).1;
        let rest = s.skip(n);
        lemma_script_runs_consume(rest);
        lemma_byte_len_prefix(s, n);
        let runs = script_runs_of(s);
        assert(runs.drop_first() =~= script_runs_of(rest));
        assert(byte_len(s.take(n)) > 0) by {
            lemma_byte_len_take(s, 0);
            lemma_byte_len_prefix(s.take(n), 1);
            assert(s.take(n).take(1) =~= s.take(1));
        }
        assert forall|k: int| 0 <= k < runs.len() implies (#[trigger] runs[k]).1 > 0 by {
            if k > 0 {
                assert(runs[k] == script_runs_of(rest)[k - 1]);
            }
        }
    }
}

/// Characters of the current concrete script, or weak ones, extend the run.
proof fn lemma_run_from_through(s: Seq<char>, i: int, k: int, x: u32)
    requires
        0 <= i <= k <= s.len(),
        !is_weak_script(x),
        forall|j: int| i <= j < k ==> (#[trigger] char_script(s[j]) == x || is_weak_script(
            char_script(s[j]),
        )),
    ensures
        run_from(s, i, x) == run_from(s, k, x),
    decreases k - i,
{
    if i < k {
        lemma_run_from_through(s, i + 1, k, x);
    }
}

/// Common characters between runs of two different concrete scripts belong
/// to the first run: the run of `a + c + b` ends where `b` begins.
pub proof fn lemma_common_attaches_to_preceding_run(a: Seq<char>, c: Seq<char>, b: Seq<char>)
    requires
        a.len() > 0,
        b.len() > 0,
        !is_weak_script(char_script(a[0])),
        forall|j: int| 0 <= j < a.len() ==> #[trigger] char_script(a[j]) == char_script(a[0]),
        forall|j: int| 0 <= j < c.len() ==> #[trigger] char_script(c[j]) == SCRIPT_COMMON,
        !is_weak_script(char_script(b[0])),
        char_script(b[0]) != char_script(a[0]),
    ensures
        script_run(a + c + b) == (char_script(a[0]), (a.len() + c.len()) as int),
{
    let s = a + c + b;
    let x = char_script(a[0]);
    let k = (a.len() + c.len()) as int;
    assert forall|j: int| 1 <= j < k implies (#[trigger] char_script(s[j]) == x || is_weak_script(
        char_script(s[j]),
    )) by {
        if j < a.len() {
            assert(s[j] == a[j]);
        } else {
            assert(s[j] == c[j - a.len()]);
        }
    }
    assert(s[0] == a[0]);
    lemma_run_from_through(s, 1, k, x);
    assert(s[k] == b[0]);
}

/// The first script run of `chars` from index `start`: its script, its end
/// index and its length in bytes.
#[verifier::spinoff_prover]
pub(crate) fn script_run_at(chars: &Vec<char>, start: usize) -> (r: (u32, usize, usize))
    requires
        start < chars.len(),
        byte_len(chars@) <= usize::MAX,
    ensures
        r.0 == script_run(chars@.skip(start as int)).0,
        r.1 == start + script_run(chars@.skip(start as int)).1,
        r.2 == byte_len(chars@.skip(start as int).take(r.1 - start)),
{
    let ghost s = chars@.skip(start as int);
    let first = chars[start];
    let mut current = lookup_script(first as u32);
    let ghost target = run_from(s, 1, current);
    let mut j: usize = start + 1;
    let mut len = char_width(first);
    proof {
        lemma_byte_len_take(s, 0);
        assert(s.take(0) =~= Seq::<char>::empty());
        lemma_byte_len_prefix(chars@, start as int);
        lemma_byte_len_prefix(s, 1);
    }
    let mut ended = false;
    while j < chars.len() && !ended
        invariant
            s == chars@.skip(start as int),
            start < j <= chars.len(),
            byte_len(chars@) <= usize::MAX,
            byte_len(s) <= byte_len(chars@),
            ended ==> target == (current, j - start),
            !ended ==> run_from(s, j - start, current) == target,
            len == byte_len(s.take(j - start)),
        decreases chars.len() - j + (if ended { 0int } else { 1int }),
    {
        let c = chars[j];
        let script = lookup_script(c as u32);
        assert(s[j - start] == c);
        if script != current {
            if current == SCRIPT_INHERITED || current == SCRIPT_COMMON {
                current = script;
            } else if script != SCRIPT_INHERITED && script != SCRIPT_COMMON {
                ended = true;
            }
        }
        if !ended {
            proof {
                lemma_byte_len_take(s, j - start);
                lemma_byte_len_prefix(s, j - start + 1);
            }
            len = len + char_width(c);
            j = j + 1;
        }
    }
    if current == SCRIPT_INHERITED {
        current = SCRIPT_COMMON;
    }
    (current, j, len)
}

/// The script of the first script run of `text` and the run's length in bytes.
/// Empty text gives the Unknown script and length zero.
pub fn get_script_run(text: &str) -> (r: (u32, usize))
    ensures
        r.0 == script_run(text@).0,
        r.1 == byte_len(text@.take(script_run(text@).1)),
{
    let chars = text_chars(text);
    if chars.len() == 0 {
        assert(text@.take(0) =~= Seq::<char>::empty());
        return (SCRIPT_UNKNOWN, 0);
    }
    assert(chars@.skip(0) =~= chars@);
    let (script, _end, len) = script_run_at(&chars, 0);
    (script, len)
}

/// The script runs of `text`, found by applying [`get_script_run`] to what
/// remains of it until nothing does: each run's script and byte length. The
/// runs are non-empty and their lengths add up to the length of the text.
#[verifier::spinoff_prover]
pub fn script_runs(text: &str) -> (r: Vec<(u32, usize)>)
    ensures
        r@.len() == script_runs_of(text@).len(),
        forall|k: int|
            0 <= k < r@.len() ==> (#[trigger] r@[k]).0 == script_runs_of(text@)[k].0 && r@[k].1
                == script_runs_of(text@)[k].1,
        runs_total(script_runs_of(text@)) == text.len(),
        forall|k: int| 0 <= k < r@.len() ==> (#[trigger] r@[k]).1 > 0,
{
    let chars = text_chars(text);
    let ghost s = text@;
    let mut out: Vec<(u32, usize)> = Vec::new();
    let mut i: usize = 0;
    proof {
        assert(s.skip(0) =~= s);
        lemma_script_runs_consume(s);
    }
    while i < chars.len()
        invariant
            chars@ == s,
            byte_len(s) <= usize::MAX,
            0 <= i <= s.len(),
            script_runs_of(s) == out@.map_values(|x: (u32, usize)| (x.0, x.1 as nat))
                + script_runs_of(s.skip(i as int)),
        decreases s.len() - i,
    {
        let ghost rest = s.skip(i as int);
        let (script, end, len) = script_run_at(&chars, i);
        proof {
            lemma_script_run_bounds(rest);
            assert(rest.skip(end - i) =~= s.skip(end as int));
        }
        let ghost before = out@;
        out.push((script, len));
        proof {
            let g = |x: (u32, usize)| (x.0, x.1 as nat);
            assert(out@.map_values(g) =~= before.map_values(g).push((script, len as nat)));
            assert(script_runs_of(s) =~= out@.map_values(g) + script_runs_of(s.skip(end as int)));
        }
        i = end;
    }
    proof {
        let g = |x: (u32, usize)| (x.0, x.1 as nat);
        assert(s.skip(i as int) =~= Seq::<char>::empty());
        assert(script_runs_of(s) =~= out@.map_values(g));
        lemma_script_runs_consume(s);
        assert forall|k: int| 0 <= k < out@.len() implies (#[trigger] out@[k]).1 > 0 by {
            assert(script_runs_of(s)[k] == out@.map_values(g)[k]);
        }
    }
    out
}

} // verus!
