//! Approximate string matching: Levenshtein edit distance and a normalized
//! similarity ratio, kept as an exact rational number.

use vstd::prelude::*;

verus! {

use vstd::string::StringSliceAdditionalSpecFns;
use vstd::string::StrSliceExecFns;

/// Minimum of three natural numbers.
pub open spec fn min3(a: nat, b: nat, c: nat) -> nat {
    if a <= b && a <= c {
        a
    } else if b <= c {
        b
    } else {
        c
    }
}

/// Cost of substituting one character for another: free when they are equal.
pub open spec fn edit_cost(x: char, y: char) -> nat {
    if x == y {
        0
    } else {
        1
    }
}

/// Levenshtein edit distance between two character sequences: the minimum
/// number of single-character insertions, deletions and substitutions that
/// turn `a` into `b`.
pub open spec fn lev(a: Seq<char>, b: Seq<char>) -> nat
    decreases a.len(), b.len(),
{
    if a.len() == 0 {
        b.len()
    } else if b.len() == 0 {
        a.len()
    } else {
        min3(
            lev(a.drop_last(), b) + 1,
            lev(a, b.drop_last()) + 1,
            lev(a.drop_last(), b.drop_last()) + edit_cost(a.last(), b.last()),
        )
    }
}

/// The distance from a sequence to itself is zero.
pub proof fn lemma_lev_self(a: Seq<char>)
    ensures
        lev(a, a) == 0,
    decreases a.len(),
{
    if a.len() == 0 {
    } else {
        lemma_lev_self(a.drop_last());
    }
}

/// The distance to the empty sequence is the sequence's own length.
pub proof fn lemma_lev_empty(a: Seq<char>)
    ensures
        lev(a, Seq::<char>::empty()) == a.len(),
        lev(Seq::<char>::empty(), a) == a.len(),
{
}

/// The edit distance is symmetric.
pub proof fn lemma_lev_symmetric(a: Seq<char>, b: Seq<char>)
    ensures
        lev(a, b) == lev(b, a),
    decreases a.len(), b.len(),
{
    if a.len() == 0 || b.len() == 0 {
    } else {
        lemma_lev_symmetric(a.drop_last(), b);
        lemma_lev_symmetric(a, b.drop_last());
        lemma_lev_symmetric(a.drop_last(), b.drop_last());
    }
}

/// The edit distance never exceeds the longer sequence's length.
pub proof fn lemma_lev_le_max(a: Seq<char>, b: Seq<char>)
    ensures
        lev(a, b) <= a.len() || lev(a, b) <= b.len(),
        lev(a, b) <= if a.len() >= b.len() { a.len() } else { b.len() },
    decreases a.len(), b.len(),
{
    if a.len() == 0 || b.len() == 0 {
    } else {
        lemma_lev_le_max(a.drop_last(), b.drop_last());
    }
}

/// One step of the dynamic-programming recurrence, phrased over prefixes.
proof fn lemma_lev_step(a: Seq<char>, b: Seq<char>, i: int, j: int)
    requires
        1 <= i <= a.len(),
        1 <= j <= b.len(),
    ensures
        lev(a.take(i), b.take(j)) == min3(
            lev(a.take(i - 1), b.take(j)) + 1,
            lev(a.take(i), b.take(j - 1)) + 1,
            lev(a.take(i - 1), b.take(j - 1)) + edit_cost(a[i - 1], b[j - 1]),
        ),
{
    assert(a.take(i).drop_last() =~= a.take(i - 1));
    assert(b.take(j).drop_last() =~= b.take(j - 1));
    assert(a.take(i).last() == a[i - 1]);
    assert(b.take(j).last() == b[j - 1]);
}

/// Counts the characters of the string. The count is bounded by the byte
/// length, which keeps the arithmetic on it within usize.
fn char_count(s: &str) -> (n: usize)
    ensures
        n == s@.len(),
        n <= usize::MAX / 2,
{
    proof {
        lemma_encode_utf8_len(s@);
    }
    let bytes = byte_len(s);
    let chars = s.unicode_len();
    assert(chars <= bytes);
    chars
}

/// A UTF-8 encoding holds at least one and at most four bytes for every
/// character.
pub proof fn lemma_encode_utf8_len(chars: Seq<char>)
    ensures
        chars.len() <= vstd::utf8::encode_utf8(chars).len() <= 4 * chars.len(),
    decreases chars.len(),
{
    if chars.len() == 0 {
    } else {
        lemma_encode_utf8_len(chars.drop_first());
    }
}

/// Byte length of a string slice.
///
/// Relies on str::len: a single Rust allocation holds at most isize::MAX
/// bytes, so the byte length fits in half the address space.
#[verifier::external_body]
fn byte_len(s: &str) -> (n: usize)
    ensures
        n == s.spec_bytes().len(),
        n <= usize::MAX / 2,
{
    s.len()
}

/// Collects the characters of `s` into a vector.
fn chars_of(s: &str, n: usize) -> (v: Vec<char>)
    requires
        n == s@.len(),
    ensures
        v@ == s@,
{
    let mut v: Vec<char> = Vec::new();
    let mut i: usize = 0;
    while i < n
        invariant
            i <= n,
            n == s@.len(),
            v@ =~= s@.take(i as int),
        decreases n - i,
    {
        v.push(s.get_char(i));
        assert(v@ =~= s@.take(i + 1 as int));
        i = i + 1;
    }
    assert(s@.take(n as int) =~= s@);
    v
}

/// Levenshtein distance between two strings, measured over Unicode scalar
/// values.
pub fn levenshtein_distance(s1: &str, s2: &str) -> (d: usize)
    ensures
        d == lev(s1@, s2@),
{
    let n1 = char_count(s1);
    let n2 = char_count(s2);
    if n1 == 0 {
        return n2;
    }
    if n2 == 0 {
        return n1;
    }
    let c1 = chars_of(s1, n1);
    let c2 = chars_of(s2, n2);

    // prev[j] holds the distance between the empty prefix of s1 and the
    // first j characters of s2.
    let mut prev: Vec<usize> = Vec::new();
    let mut j: usize = 0;
    while j <= n2
        invariant
            j <= n2 + 1,
            n2 == s2@.len(),
            n2 <= usize::MAX / 2,
            prev@.len() == j,
            forall|k: int| 0 <= k < j ==> prev@[k] == lev(s1@.take(0), s2@.take(k)),
        decreases n2 + 1 - j,
    {
        assert(lev(s1@.take(0), s2@.take(j as int)) == j) by {
            assert(s1@.take(0).len() == 0);
            assert(s2@.take(j as int).len() == j);
        }
        prev.push(j);
        j = j + 1;
    }

    let mut i: usize = 1;
    while i <= n1
        invariant
            1 <= i <= n1 + 1,
            n1 == s1@.len(),
            n2 == s2@.len(),
            n1 <= usize::MAX / 2,
            n2 <= usize::MAX / 2,
            c1@ == s1@,
            c2@ == s2@,
            prev@.len() == n2 + 1,
            forall|k: int| 0 <= k <= n2 ==> prev@[k] == lev(s1@.take(i - 1), s2@.take(k)),
        decreases n1 + 1 - i,
    {
        let mut cur: Vec<usize> = Vec::new();
        assert(lev(s1@.take(i as int), s2@.take(0)) == i) by {
            assert(s2@.take(0).len() == 0);
            assert(s1@.take(i as int).len() == i);
        }
        cur.push(i);
        let mut jj: usize = 1;
        while jj <= n2
            invariant
                1 <= i <= n1,
                1 <= jj <= n2 + 1,
                n1 == s1@.len(),
                n2 == s2@.len(),
                n1 <= usize::MAX / 2,
                n2 <= usize::MAX / 2,
                c1@ == s1@,
                c2@ == s2@,
                prev@.len() == n2 + 1,
                forall|k: int| 0 <= k <= n2 ==> prev@[k] == lev(s1@.take(i - 1), s2@.take(k)),
                cur@.len() == jj,
                forall|k: int| 0 <= k < jj ==> cur@[k] == lev(s1@.take(i as int), s2@.take(k)),
            decreases n2 + 1 - jj,
        {
            let cost: usize = if c1[i - 1] != c2[jj - 1] {
                1
            } else {
                0
            };
            proof {
                lemma_lev_le_max(s1@.take(i - 1), s2@.take(jj as int));
                lemma_lev_le_max(s1@.take(i as int), s2@.take(jj - 1));
                lemma_lev_le_max(s1@.take(i - 1), s2@.take(jj - 1));
            }
            let del = prev[jj] + 1;
            let ins = cur[jj - 1] + 1;
            let sub = prev[jj - 1] + cost;
            let mut m = if del < ins {
                del
            } else {
                ins
            };
            if sub < m {
                m = sub;
            }
            proof {
                lemma_lev_step(s1@, s2@, i as int, jj as int);
                assert(edit_cost(s1@[i - 1], s2@[jj - 1]) == cost);
            }
            cur.push(m);
            jj = jj + 1;
        }
        prev = cur;
        i = i + 1;
    }
    assert(s1@.take(n1 as int) =~= s1@);
    assert(s2@.take(n2 as int) =~= s2@);
    prev[n2]
}

/// An exact similarity ratio, held as a fraction. A zero denominator stands
/// for the undefined ratio of two empty, unequal inputs, which callers must
/// guard against before dividing.
#[derive(Clone, Copy, Debug)]
pub struct Ratio {
    pub num: usize,
    pub den: usize,
}

/// A similarity ratio as an unbounded fraction.
pub ghost struct RatioV {
    pub num: int,
    pub den: int,
}

impl View for Ratio {
    type V = RatioV;

    open spec fn view(&self) -> RatioV {
        RatioV { num: self.num as int, den: self.den as int }
    }
}

/// The similarity ratio of two character sequences, as a fraction. Equal
/// sequences are fully similar; otherwise the ratio is the combined UTF-8
/// byte length minus the edit distance, over the combined byte length.
pub open spec fn spec_similarity(a: Seq<char>, b: Seq<char>) -> RatioV {
    if a == b {
        RatioV { num: 1, den: 1 }
    } else {
        let den = vstd::utf8::encode_utf8(a).len() + vstd::utf8::encode_utf8(b).len() as int;
        RatioV { num: den - lev(a, b), den: den }
    }
}

/// The similarity ratio is symmetric in its two arguments.
pub proof fn lemma_similarity_symmetric(a: Seq<char>, b: Seq<char>)
    ensures
        spec_similarity(a, b) == spec_similarity(b, a),
{
    lemma_lev_symmetric(a, b);
}

/// A sequence is fully similar to itself: the ratio of a sequence and
/// itself is exactly one.
pub proof fn lemma_similarity_self(a: Seq<char>)
    ensures
        spec_similarity(a, a).num == 1,
        spec_similarity(a, a).den == 1,
{
}

/// Normalized Levenshtein similarity between two strings, as an exact
/// fraction.
pub fn similarity_ratio_parts(s1: &str, s2: &str) -> (r: Ratio)
    ensures
        r@ == spec_similarity(s1@, s2@),
{
    if str_eq(s1, s2) {
        return Ratio { num: 1, den: 1 };
    }
    let d = levenshtein_distance(s1, s2);
    let b1 = byte_len(s1);
    let b2 = byte_len(s2);
    proof {
        lemma_lev_le_max(s1@, s2@);
        lemma_encode_utf8_len(s1@);
        lemma_encode_utf8_len(s2@);
    }
    let den = b1 + b2;
    let num = den - d;
    Ratio { num, den }
}

/// `a` is at least as large as `b`, as fractions compared by cross
/// multiplication.
pub open spec fn ratio_v_ge(a: RatioV, b: RatioV) -> bool {
    a.num * b.den >= b.num * a.den
}

/// The fraction exceeds three quarters, the similarity threshold that keeps
/// an approximate match.
pub open spec fn ratio_v_above_threshold(r: RatioV) -> bool {
    4 * r.num > 3 * r.den
}

/// The product of two values that each fit in 64 bits fits in 128 bits.
proof fn lemma_mul_fits_u128(x: u128, y: u128)
    requires
        x <= 0xffff_ffff_ffff_ffff,
        y <= 0xffff_ffff_ffff_ffff,
    ensures
        x * y <= 0xffff_ffff_ffff_ffff_ffff_ffff_ffff_ffff,
{
    assert(x * y <= 0xffff_ffff_ffff_ffff * 0xffff_ffff_ffff_ffff) by (nonlinear_arith)
        requires
            x <= 0xffff_ffff_ffff_ffff,
            y <= 0xffff_ffff_ffff_ffff,
    ;
}

/// Compares two fractions by cross multiplication.
pub fn ratio_is_ge(a: &Ratio, b: &Ratio) -> (r: bool)
    ensures
        r == ratio_v_ge(a@, b@),
{
    proof {
        lemma_mul_fits_u128(a.num as u128, b.den as u128);
        lemma_mul_fits_u128(b.num as u128, a.den as u128);
    }
    let l: u128 = (a.num as u128) * (b.den as u128);
    let rr: u128 = (b.num as u128) * (a.den as u128);
    l >= rr
}

/// Decides whether the fraction exceeds the three-quarters threshold.
pub fn ratio_above_threshold(r: &Ratio) -> (b: bool)
    ensures
        b == ratio_v_above_threshold(r@),
{
    4 * (r.num as u128) > 3 * (r.den as u128)
}

/// Character-by-character string equality.
pub fn str_eq(s1: &str, s2: &str) -> (r: bool)
    ensures
        r == (s1@ == s2@),
{
    let n1 = char_count(s1);
    let n2 = char_count(s2);
    if n1 != n2 {
        assert(s1@ != s2@) by {
            assert(s1@.len() != s2@.len());
        }
        return false;
    }
    let mut i: usize = 0;
    while i < n1
        invariant
            i <= n1,
            n1 == s1@.len(),
            n1 == s2@.len(),
            forall|k: int| 0 <= k < i ==> s1@[k] == s2@[k],
        decreases n1 - i,
    {
        if s1.get_char(i) != s2.get_char(i) {
            return false;
        }
        i = i + 1;
    }
    assert(s1@ =~= s2@);
    true
}

} // verus!
