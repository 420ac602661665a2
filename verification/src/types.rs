//! File-type classification: resolving requested type names against the
//! built-in table, building the glob matcher, and suggesting alternatives
//! for unrecognized names by approximate string matching.

use vstd::prelude::*;

verus! {

use vstd::string::StringSliceAdditionalSpecFns;
use vstd::string::StrSliceExecFns;
use vstd::string::StringExecFns;
use colored::Colorize;
use crate::fuzzy::{
    Ratio,
    RatioV,
    spec_similarity,
    ratio_v_ge,
    ratio_v_above_threshold,
    ratio_is_ge,
    ratio_above_threshold,
    similarity_ratio_parts,
    str_eq,
};
use crate::types_default::{
    TypeEntry,
    TypeEntryView,
    entry_wf,
    table_wf,
    default_table_view,
    default_type_table,
};

/// An error of this library, carrying a human-readable message.
#[derive(Debug)]
pub struct SizError {
    pub msg: String,
}

impl SizError {
    /// The error's message text.
    pub fn message(&self) -> (m: &String)
        ensures
            m@ == self.msg@,
    {
        &self.msg
    }
}

/// Strips a leading `*.` or `.` from a glob pattern, leaving a bare
/// extension string.
pub open spec fn strip_glob_prefix(g: Seq<char>) -> Seq<char> {
    if g.len() >= 2 && g[0] == '*' && g[1] == '.' {
        g.skip(2)
    } else if g.len() >= 1 && g[0] == '.' {
        g.skip(1)
    } else {
        g
    }
}

/// Some glob of the list, stripped of its prefix, equals the needle
/// exactly.
pub open spec fn glob_exact(needle: Seq<char>, globs: Seq<Seq<char>>) -> bool {
    exists|k: int| 0 <= k < globs.len() && strip_glob_prefix(#[trigger] globs[k]) == needle
}

/// Some glob of the entry, stripped of its prefix, equals the needle
/// exactly.
pub open spec fn entry_has_exact(needle: Seq<char>, e: TypeEntryView) -> bool {
    glob_exact(needle, e.globs)
}

/// Appends `x` unless it is already present.
pub open spec fn push_unique(s: Seq<Seq<char>>, x: Seq<char>) -> Seq<Seq<char>> {
    if s.contains(x) {
        s
    } else {
        s.push(x)
    }
}

/// The canonical names of the entries with an exact glob match for the
/// needle, in table order, deduplicated.
pub open spec fn exact_matches_of(needle: Seq<char>, t: Seq<TypeEntryView>) -> Seq<Seq<char>>
    decreases t.len(),
{
    if t.len() == 0 {
        Seq::empty()
    } else {
        let rest = exact_matches_of(needle, t.drop_last());
        if entry_has_exact(needle, t.last()) {
            push_unique(rest, t.last().aliases[0])
        } else {
            rest
        }
    }
}

/// The candidate ratios an entry's glob patterns contribute: one similarity
/// ratio per stripped pattern that does not match the needle exactly.
pub open spec fn glob_candidates(needle: Seq<char>, globs: Seq<Seq<char>>) -> Seq<RatioV>
    decreases globs.len(),
{
    if globs.len() == 0 {
        Seq::empty()
    } else {
        let rest = glob_candidates(needle, globs.drop_last());
        let stripped = strip_glob_prefix(globs.last());
        if stripped == needle {
            rest
        } else {
            rest.push(spec_similarity(needle, stripped))
        }
    }
}

/// The candidate ratios an entry's alias names contribute: one similarity
/// ratio per alias.
pub open spec fn alias_candidates(needle: Seq<char>, aliases: Seq<Seq<char>>) -> Seq<RatioV> {
    aliases.map_values(|a: Seq<char>| spec_similarity(needle, a))
}

/// All candidate ratios of one entry: its glob candidates followed by its
/// alias candidates.
pub open spec fn entry_candidates(needle: Seq<char>, e: TypeEntryView) -> Seq<RatioV> {
    glob_candidates(needle, e.globs) + alias_candidates(needle, e.aliases)
}

/// The largest candidate with a positive denominator, if any. A zero
/// denominator stands for the undefined ratio of two empty strings and is
/// dropped. The earliest of equally large candidates is kept.
pub open spec fn best_candidate(cs: Seq<RatioV>) -> Option<RatioV>
    decreases cs.len(),
{
    if cs.len() == 0 {
        None
    } else {
        let rest = best_candidate(cs.drop_last());
        let c = cs.last();
        if c.den <= 0 {
            rest
        } else {
            match rest {
                None => Some(c),
                Some(m) => if ratio_v_ge(m, c) {
                    Some(m)
                } else {
                    Some(c)
                },
            }
        }
    }
}

/// A ranking candidate: an entry's representative similarity ratio and its
/// canonical name.
pub ghost struct CandV {
    pub ratio: RatioV,
    pub name: Seq<char>,
}

/// The text holds no ANSI reset sequence, so colored's painting passes it
/// through between its escape codes verbatim.
pub open spec fn no_reset_sequence(s: Seq<char>) -> bool {
    forall|k: int| 0 <= k <= s.len() - 4 ==> #[trigger] s.subrange(k, k + 4) != "\u{1b}[0m"@
}

/// A part of reset-free text is reset-free.
pub proof fn lemma_no_reset_subrange(s: Seq<char>, i: int, j: int)
    requires
        no_reset_sequence(s),
        0 <= i <= j <= s.len(),
    ensures
        no_reset_sequence(s.subrange(i, j)),
{
    assert forall|k: int|
        0 <= k <= s.subrange(i, j).len() - 4 implies #[trigger] s.subrange(i, j).subrange(
        k,
        k + 4,
    ) != "\u{1b}[0m"@ by {
        assert(s.subrange(i, j).subrange(k, k + 4) =~= s.subrange(i + k, i + k + 4));
    }
}

/// Lexicographic order on character sequences, by scalar value. This is the
/// order std's string comparison induces, since UTF-8 preserves it.
pub open spec fn chars_le(a: Seq<char>, b: Seq<char>) -> bool
    decreases a.len(),
{
    if a.len() == 0 {
        true
    } else if b.len() == 0 {
        false
    } else if a[0] != b[0] {
        a[0] < b[0]
    } else {
        chars_le(a.drop_first(), b.drop_first())
    }
}

/// `a` may stand before `b` in the descending ranking: its ratio is larger,
/// or the ratios are equal and its name is not smaller. This mirrors a
/// reversed comparison of (ratio, name) pairs, so equal ratios are ranked
/// by descending name.
pub open spec fn cand_before(a: CandV, b: CandV) -> bool {
    if ratio_v_ge(a.ratio, b.ratio) && ratio_v_ge(b.ratio, a.ratio) {
        chars_le(b.name, a.name)
    } else {
        !ratio_v_ge(b.ratio, a.ratio)
    }
}

/// Inserts a candidate into a descending ranking, before the first element
/// it may stand before.
pub open spec fn insert_desc(x: CandV, s: Seq<CandV>) -> Seq<CandV>
    decreases s.len(),
{
    if s.len() == 0 {
        seq![x]
    } else if cand_before(x, s[0]) {
        seq![x] + s
    } else {
        seq![s[0]] + insert_desc(x, s.drop_first())
    }
}

/// Sorts candidates into descending ranking order by insertion.
pub open spec fn sort_desc(s: Seq<CandV>) -> Seq<CandV>
    decreases s.len(),
{
    if s.len() == 0 {
        Seq::empty()
    } else {
        insert_desc(s[0], sort_desc(s.drop_first()))
    }
}

/// One ranking candidate per entry with at least one defined candidate
/// ratio: the entry's best ratio paired with its canonical name, in table
/// order.
pub open spec fn ranked_candidates(needle: Seq<char>, t: Seq<TypeEntryView>) -> Seq<CandV>
    decreases t.len(),
{
    if t.len() == 0 {
        Seq::empty()
    } else {
        let rest = ranked_candidates(needle, t.drop_last());
        match best_candidate(entry_candidates(needle, t.last())) {
            Option::None => rest,
            Option::Some(m) => rest.push(CandV { ratio: m, name: t.last().aliases[0] }),
        }
    }
}

/// The approximate-match suggestions: the ranked candidates sorted by
/// descending ratio, kept only above the similarity threshold, reduced to
/// their names.
pub open spec fn approx_matches_of(needle: Seq<char>, t: Seq<TypeEntryView>) -> Seq<Seq<char>> {
    sort_desc(ranked_candidates(needle, t)).filter(
        |c: CandV| ratio_v_above_threshold(c.ratio),
    ).map_values(|c: CandV| c.name)
}

/// A concrete optional ratio agrees with a specification-level one.
pub open spec fn opt_ratio_matches(o: Option<Ratio>, s: Option<RatioV>) -> bool {
    match (o, s) {
        (Option::None, Option::None) => true,
        (Option::Some(r), Option::Some(v)) => r@ == v,
        _ => false,
    }
}

/// Extending the glob list by one pattern extends its candidate list by at
/// most one ratio.
proof fn lemma_glob_candidates_step(n: Seq<char>, globs: Seq<Seq<char>>, j: int)
    requires
        0 <= j < globs.len(),
    ensures
        glob_candidates(n, globs.take(j + 1)) == ({
            let rest = glob_candidates(n, globs.take(j));
            let stripped = strip_glob_prefix(globs[j]);
            if stripped == n {
                rest
            } else {
                rest.push(spec_similarity(n, stripped))
            }
        }),
{
    assert(globs.take(j + 1).drop_last() =~= globs.take(j));
    assert(globs.take(j + 1).last() == globs[j]);
}

/// Extending the glob list by one pattern can only add that pattern as an
/// exact match.
proof fn lemma_glob_exact_step(n: Seq<char>, globs: Seq<Seq<char>>, j: int)
    requires
        0 <= j < globs.len(),
    ensures
        glob_exact(n, globs.take(j + 1)) == (glob_exact(n, globs.take(j)) || strip_glob_prefix(
            globs[j],
        ) == n),
{
    let t0 = globs.take(j);
    let t1 = globs.take(j + 1);
    if glob_exact(n, t0) {
        let k = choose|k: int| 0 <= k < t0.len() && strip_glob_prefix(t0[k]) == n;
        assert(strip_glob_prefix(t1[k]) == n);
    }
    if strip_glob_prefix(globs[j]) == n {
        assert(strip_glob_prefix(t1[j]) == n);
    }
    if glob_exact(n, t1) {
        let k = choose|k: int| 0 <= k < t1.len() && strip_glob_prefix(t1[k]) == n;
        if k < j {
            assert(strip_glob_prefix(t0[k]) == n);
        }
    }
}

/// Appending one candidate to the list steps the best-candidate fold once.
proof fn lemma_best_candidate_push(cs: Seq<RatioV>, c: RatioV)
    ensures
        best_candidate(cs.push(c)) == ({
            let rest = best_candidate(cs);
            if c.den <= 0 {
                rest
            } else {
                match rest {
                    Option::None => Option::Some(c),
                    Option::Some(m) => if ratio_v_ge(m, c) {
                        Option::Some(m)
                    } else {
                        Option::Some(c)
                    },
                }
            }
        }),
{
    assert(cs.push(c).drop_last() =~= cs);
    assert(cs.push(c).last() == c);
}

/// Strips a leading `*.` or `.` from a glob pattern.
fn strip_glob_prefix_exec<'a>(g: &'a str) -> (r: &'a str)
    ensures
        r@ == strip_glob_prefix(g@),
{
    let n = g.unicode_len();
    if n >= 2 && g.get_char(0) == '*' && g.get_char(1) == '.' {
        let r = g.substring_char(2, n);
        assert(r@ =~= g@.skip(2));
        r
    } else if n >= 1 && g.get_char(0) == '.' {
        let r = g.substring_char(1, n);
        assert(r@ =~= g@.skip(1));
        r
    } else {
        g
    }
}

/// Scans one table entry: reports whether some stripped glob equals the
/// needle exactly, and the entry's best candidate ratio.
fn entry_best_ratio(needle: &str, e: &TypeEntry) -> (r: (Option<Ratio>, bool))
    ensures
        opt_ratio_matches(r.0, best_candidate(entry_candidates(needle@, e@))),
        r.1 == entry_has_exact(needle@, e@),
{
    let mut best: Option<Ratio> = Option::None;
    let mut has_exact = false;
    let mut j: usize = 0;
    while j < e.globs.len()
        invariant
            j <= e.globs@.len(),
            has_exact == glob_exact(needle@, e@.globs.take(j as int)),
            opt_ratio_matches(
                best,
                best_candidate(glob_candidates(needle@, e@.globs.take(j as int))),
            ),
        decreases e.globs@.len() - j,
    {
        let g = e.globs[j].as_str();
        assert(g@ == e@.globs[j as int]);
        let stripped = strip_glob_prefix_exec(g);
        proof {
            lemma_glob_candidates_step(needle@, e@.globs, j as int);
            lemma_glob_exact_step(needle@, e@.globs, j as int);
        }
        if str_eq(needle, stripped) {
            has_exact = true;
        } else {
            let rat = similarity_ratio_parts(needle, stripped);
            proof {
                lemma_best_candidate_push(
                    glob_candidates(needle@, e@.globs.take(j as int)),
                    rat@,
                );
            }
            if rat.den > 0 {
                best = match best {
                    Option::None => Option::Some(rat),
                    Option::Some(b) => if ratio_is_ge(&b, &rat) {
                        Option::Some(b)
                    } else {
                        Option::Some(rat)
                    },
                };
            }
        }
        j = j + 1;
    }
    assert(e@.globs.take(e.globs@.len() as int) =~= e@.globs);
    let ghost gc = glob_candidates(needle@, e@.globs);
    let mut k: usize = 0;
    while k < e.aliases.len()
        invariant
            k <= e.aliases@.len(),
            gc == glob_candidates(needle@, e@.globs),
            has_exact == entry_has_exact(needle@, e@),
            opt_ratio_matches(
                best,
                best_candidate(gc + alias_candidates(needle@, e@.aliases.take(k as int))),
            ),
        decreases e.aliases@.len() - k,
    {
        let a = e.aliases[k].as_str();
        assert(a@ == e@.aliases[k as int]);
        let rat = similarity_ratio_parts(needle, a);
        proof {
            assert(gc + alias_candidates(needle@, e@.aliases.take(k + 1)) =~= (gc
                + alias_candidates(needle@, e@.aliases.take(k as int))).push(rat@));
            lemma_best_candidate_push(
                gc + alias_candidates(needle@, e@.aliases.take(k as int)),
                rat@,
            );
        }
        if rat.den > 0 {
            best = match best {
                Option::None => Option::Some(rat),
                Option::Some(b) => if ratio_is_ge(&b, &rat) {
                    Option::Some(b)
                } else {
                    Option::Some(rat)
                },
            };
        }
        k = k + 1;
    }
    assert(e@.aliases.take(e.aliases@.len() as int) =~= e@.aliases);
    (best, has_exact)
}

/// Lexicographic string comparison over characters.
pub fn str_le(a: &str, b: &str) -> (r: bool)
    ensures
        r == chars_le(a@, b@),
{
    let na = a.unicode_len();
    let nb = b.unicode_len();
    let mut i: usize = 0;
    proof {
        assert(a@.skip(0) =~= a@);
        assert(b@.skip(0) =~= b@);
    }
    while i < na && i < nb
        invariant
            i <= na,
            i <= nb,
            na == a@.len(),
            nb == b@.len(),
            chars_le(a@, b@) == chars_le(a@.skip(i as int), b@.skip(i as int)),
        decreases na - i,
    {
        let ca = a.get_char(i);
        let cb = b.get_char(i);
        proof {
            assert(a@.skip(i as int).len() > 0);
            assert(b@.skip(i as int).len() > 0);
            assert(a@.skip(i as int)[0] == a@[i as int]);
            assert(b@.skip(i as int)[0] == b@[i as int]);
            assert(a@.skip(i as int).drop_first() =~= a@.skip(i + 1));
            assert(b@.skip(i as int).drop_first() =~= b@.skip(i + 1));
        }
        if ca != cb {
            return ca < cb;
        }
        i = i + 1;
    }
    proof {
        if i >= na {
            assert(a@.skip(i as int).len() == 0);
        } else {
            assert(b@.skip(i as int).len() == 0);
            assert(a@.skip(i as int).len() > 0);
        }
    }
    na <= nb
}

/// A concrete ranking candidate: an entry's best ratio and canonical name.
struct Cand {
    ratio: Ratio,
    name: String,
}

impl View for Cand {
    type V = CandV;

    closed spec fn view(&self) -> CandV {
        CandV { ratio: self.ratio@, name: self.name@ }
    }
}

impl DeepView for Cand {
    type V = CandV;

    closed spec fn deep_view(&self) -> CandV {
        self.view()
    }
}

/// Decides whether `a` may stand before `b` in the descending ranking.
fn cand_before_exec(a: &Cand, b: &Cand) -> (r: bool)
    ensures
        r == cand_before(a@, b@),
{
    let ge_ab = ratio_is_ge(&a.ratio, &b.ratio);
    let ge_ba = ratio_is_ge(&b.ratio, &a.ratio);
    if ge_ab && ge_ba {
        str_le(b.name.as_str(), a.name.as_str())
    } else {
        !ge_ba
    }
}

/// An insertion point found by linear scan realizes the specification-level
/// insertion.
proof fn lemma_insert_desc_at(x: CandV, s: Seq<CandV>, i: int)
    requires
        0 <= i <= s.len(),
        forall|k: int| 0 <= k < i ==> !cand_before(x, #[trigger] s[k]),
        i < s.len() ==> cand_before(x, s[i]),
    ensures
        insert_desc(x, s) == s.subrange(0, i) + seq![x] + s.subrange(i, s.len() as int),
    decreases s.len(),
{
    if s.len() == 0 {
        assert(insert_desc(x, s) =~= s.subrange(0, i) + seq![x] + s.subrange(i, s.len() as int));
    } else if i == 0 {
        assert(insert_desc(x, s) == seq![x] + s);
        assert(seq![x] + s =~= s.subrange(0, 0) + seq![x] + s.subrange(0, s.len() as int));
    } else {
        assert(!cand_before(x, s[0]));
        assert(forall|k: int| 0 <= k < i - 1 ==> s.drop_first()[k] == #[trigger] s[k + 1]);
        lemma_insert_desc_at(x, s.drop_first(), i - 1);
        assert(insert_desc(x, s) == seq![s[0]] + insert_desc(x, s.drop_first()));
        assert(seq![s[0]] + (s.drop_first().subrange(0, i - 1) + seq![x] + s.drop_first().subrange(
            i - 1,
            s.drop_first().len() as int,
        )) =~= s.subrange(0, i) + seq![x] + s.subrange(i, s.len() as int));
    }
}

/// Inserts a candidate into a descending ranking, before the first element
/// it may stand before.
fn insert_cand(sorted: Vec<Cand>, x: Cand) -> (r: Vec<Cand>)
    ensures
        r.deep_view() == insert_desc(x@, sorted.deep_view()),
{
    let ghost orig = sorted.deep_view();
    let mut i: usize = 0;
    while i < sorted.len() && !cand_before_exec(&x, &sorted[i])
        invariant
            i <= sorted@.len(),
            orig == sorted.deep_view(),
            forall|k: int| 0 <= k < i ==> !cand_before(x@, #[trigger] orig[k]),
        decreases sorted@.len() - i,
    {
        assert(orig[i as int] == sorted@[i as int]@);
        i = i + 1;
    }
    assert(i < sorted@.len() ==> cand_before(x@, orig[i as int])) by {
        if i < sorted@.len() {
            assert(orig[i as int] == sorted@[i as int]@);
        }
    }
    proof {
        lemma_insert_desc_at(x@, orig, i as int);
    }
    let mut r = sorted;
    r.insert(i, x);
    assert(r.deep_view() =~= orig.subrange(0, i as int) + seq![x@] + orig.subrange(
        i as int,
        orig.len() as int,
    ));
    r
}

/// Sorts the candidates into descending ranking order.
fn sort_cands(input: Vec<Cand>) -> (r: Vec<Cand>)
    ensures
        r.deep_view() == sort_desc(input.deep_view()),
{
    let ghost orig = input.deep_view();
    let mut v = input;
    let mut out: Vec<Cand> = Vec::new();
    proof {
        assert(forall|i: int| 0 <= i < v@.len() ==> v@[i]@ == #[trigger] orig[i]);
    }
    while v.len() > 0
        invariant
            v@.len() <= orig.len(),
            forall|i: int| 0 <= i < v@.len() ==> v@[i]@ == #[trigger] orig[i],
            out.deep_view() == sort_desc(orig.skip(v@.len() as int)),
        decreases v@.len(),
    {
        let ghost k = v@.len() as int;
        let x = v.pop().unwrap();
        proof {
            assert(x@ == orig[k - 1]);
            assert(orig.skip(k - 1).len() > 0);
            assert(orig.skip(k - 1)[0] == orig[k - 1]);
            assert(orig.skip(k - 1).drop_first() =~= orig.skip(k));
        }
        out = insert_cand(out, x);
        assert(out.deep_view() == sort_desc(orig.skip(k - 1)));
    }
    assert(orig.skip(0) =~= orig);
    out
}

/// Filtering a one-element sequence keeps or drops that element.
proof fn lemma_filter_singleton(x: CandV, pred: spec_fn(CandV) -> bool)
    ensures
        seq![x].filter(pred) == if pred(x) {
            seq![x]
        } else {
            Seq::<CandV>::empty()
        },
{
    reveal(Seq::filter);
    assert(seq![x].drop_last() =~= Seq::<CandV>::empty());
    assert(seq![x].last() == x);
    assert(Seq::<CandV>::empty().filter(pred) == Seq::<CandV>::empty());
    if pred(x) {
        assert(seq![x].filter(pred) =~= seq![x]);
    }
}

/// Filtering the empty sequence yields the empty sequence.
proof fn lemma_filter_empty(pred: spec_fn(CandV) -> bool)
    ensures
        Seq::<CandV>::empty().filter(pred) == Seq::<CandV>::empty(),
{
    reveal(Seq::filter);
}

/// Keeps the candidates whose ratio exceeds the similarity threshold.
fn filter_above_threshold(input: Vec<Cand>) -> (r: Vec<Cand>)
    ensures
        r.deep_view() == input.deep_view().filter(|c: CandV| ratio_v_above_threshold(c.ratio)),
{
    let ghost orig = input.deep_view();
    let mut out: Vec<Cand> = Vec::new();
    proof {
        lemma_filter_empty(|c: CandV| ratio_v_above_threshold(c.ratio));
        assert(orig.take(0) =~= Seq::<CandV>::empty());
        assert(out.deep_view() =~= Seq::<CandV>::empty());
    }
    let mut i: usize = 0;
    while i < input.len()
        invariant
            i <= input@.len(),
            orig == input.deep_view(),
            out.deep_view() == orig.take(i as int).filter(
                |c: CandV| ratio_v_above_threshold(c.ratio),
            ),
        decreases input@.len() - i,
    {
        proof {
            broadcast use Seq::filter_distributes_over_add;

            assert(orig.take(i + 1) =~= orig.take(i as int) + seq![orig[i as int]]);
            assert((orig.take(i as int) + seq![orig[i as int]]).filter(
                |c: CandV| ratio_v_above_threshold(c.ratio),
            ) == orig.take(i as int).filter(|c: CandV| ratio_v_above_threshold(c.ratio)) + seq![
                orig[i as int],
            ].filter(|c: CandV| ratio_v_above_threshold(c.ratio)));
            lemma_filter_singleton(orig[i as int], |c: CandV| ratio_v_above_threshold(c.ratio));
            assert(input@[i as int]@ == orig[i as int]);
            assert(orig[i as int].ratio == input@[i as int].ratio@);
        }
        let keep = ratio_above_threshold(&input[i].ratio);
        if keep {
            let c = Cand { ratio: input[i].ratio, name: input[i].name.clone() };
            assert(c@ == orig[i as int]);
            let ghost dvpre = out.deep_view();
            out.push(c);
            assert(out.deep_view() =~= dvpre.push(c@));
            assert(dvpre.push(c@) =~= dvpre + seq![c@]);
            assert(out.deep_view() =~= orig.take(i + 1).filter(
                |c: CandV| ratio_v_above_threshold(c.ratio),
            ));
        } else {
            assert(out.deep_view() =~= orig.take(i + 1).filter(
                |c: CandV| ratio_v_above_threshold(c.ratio),
            ));
        }
        i = i + 1;
    }
    assert(orig.take(input@.len() as int) =~= orig);
    out
}

/// Reduces candidates to their names.
fn cand_names(input: Vec<Cand>) -> (r: Vec<String>)
    ensures
        r.deep_view() == input.deep_view().map_values(|c: CandV| c.name),
{
    let mut out: Vec<String> = Vec::new();
    let mut i: usize = 0;
    while i < input.len()
        invariant
            i <= input@.len(),
            out@.len() == i,
            forall|k: int| 0 <= k < i ==> out@[k]@ == (#[trigger] input@[k])@.name,
        decreases input@.len() - i,
    {
        out.push(input[i].name.clone());
        i = i + 1;
    }
    assert(out.deep_view() =~= input.deep_view().map_values(|c: CandV| c.name));
    out
}

/// Membership test for an owned string among owned strings.
fn contains_string(v: &Vec<String>, s: &str) -> (r: bool)
    ensures
        r == v.deep_view().contains(s@),
{
    let mut i: usize = 0;
    while i < v.len()
        invariant
            i <= v@.len(),
            forall|k: int| 0 <= k < i ==> (#[trigger] v@[k])@ != s@,
        decreases v@.len() - i,
    {
        if str_eq(v[i].as_str(), s) {
            assert(v.deep_view()[i as int] == s@);
            assert(v.deep_view().contains(s@));
            return true;
        }
        i = i + 1;
    }
    assert(!v.deep_view().contains(s@)) by {
        if v.deep_view().contains(s@) {
            let k = choose|k: int| 0 <= k < v.deep_view().len() && v.deep_view()[k] == s@;
            assert(v@[k]@ == s@);
        }
    }
    false
}

/// Scans the whole table: collects the deduplicated exact-match canonical
/// names and the ranked candidates, both in table order.
fn scan_table(needle: &str, table: &Vec<TypeEntry>) -> (r: (Vec<String>, Vec<Cand>))
    requires
        table_wf(table.deep_view()),
    ensures
        r.0.deep_view() == exact_matches_of(needle@, table.deep_view()),
        r.1.deep_view() == ranked_candidates(needle@, table.deep_view()),
{
    let ghost tv = table.deep_view();
    let mut exact: Vec<String> = Vec::new();
    let mut ranked: Vec<Cand> = Vec::new();
    proof {
        assert(tv.take(0) =~= Seq::<TypeEntryView>::empty());
        assert(exact.deep_view() =~= Seq::<Seq<char>>::empty());
        assert(ranked.deep_view() =~= Seq::<CandV>::empty());
    }
    let mut i: usize = 0;
    while i < table.len()
        invariant
            i <= table@.len(),
            tv == table.deep_view(),
            table_wf(tv),
            exact.deep_view() == exact_matches_of(needle@, tv.take(i as int)),
            ranked.deep_view() == ranked_candidates(needle@, tv.take(i as int)),
        decreases table@.len() - i,
    {
        let e = &table[i];
        proof {
            assert(e@ == tv[i as int]);
            assert(tv.take(i + 1).drop_last() =~= tv.take(i as int));
            assert(tv.take(i + 1).last() == tv[i as int]);
            assert(entry_wf(tv[i as int]));
            assert(e.aliases@.len() == e@.aliases.len());
        }
        let (best, hx) = entry_best_ratio(needle, e);
        if hx {
            let canonical = &e.aliases[0];
            assert(canonical@ == e@.aliases[0]);
            if !contains_string(&exact, canonical.as_str()) {
                let ghost dvpre = exact.deep_view();
                exact.push(canonical.clone());
                assert(exact.deep_view() =~= dvpre.push(e@.aliases[0]));
            }
        }
        match best {
            Option::Some(rat) => {
                let name = e.aliases[0].clone();
                assert(name@ == e@.aliases[0]);
                let ghost dvpre = ranked.deep_view();
                let c = Cand { ratio: rat, name };
                assert(c@ == (CandV { ratio: rat@, name: e@.aliases[0] }));
                ranked.push(c);
                assert(ranked.deep_view() =~= dvpre.push(c@));
            },
            Option::None => {},
        }
        i = i + 1;
    }
    assert(tv.take(table@.len() as int) =~= tv);
    (exact, ranked)
}

/// Joins owned strings with a separator between neighbours.
fn join_strings(v: &Vec<String>, sep: &str) -> (r: String)
    ensures
        r@ == join_chars(v.deep_view(), sep@),
{
    let ghost dv = v.deep_view();
    let mut out = String::new();
    proof {
        assert(dv.take(0) =~= Seq::<Seq<char>>::empty());
    }
    let mut i: usize = 0;
    while i < v.len()
        invariant
            i <= v@.len(),
            dv == v.deep_view(),
            out@ == join_chars(dv.take(i as int), sep@),
        decreases v@.len() - i,
    {
        proof {
            assert(dv.take(i + 1).drop_last() =~= dv.take(i as int));
            assert(dv.take(i + 1).last() == dv[i as int]);
            assert(v@[i as int]@ == dv[i as int]);
        }
        if i > 0 {
            out.append(sep);
        }
        out.append(v[i].as_str());
        i = i + 1;
    }
    assert(dv.take(v@.len() as int) =~= dv);
    out
}

/// Joins string sequences with a separator between neighbours.
pub open spec fn join_chars(xs: Seq<Seq<char>>, sep: Seq<char>) -> Seq<char>
    decreases xs.len(),
{
    if xs.len() == 0 {
        Seq::empty()
    } else if xs.len() == 1 {
        xs.last()
    } else {
        join_chars(xs.drop_last(), sep) + sep + xs.last()
    }
}

/// Some alias of the entry equals the name.
pub open spec fn entry_has_alias(n: Seq<char>, e: TypeEntryView) -> bool {
    exists|j: int| 0 <= j < e.aliases.len() && e.aliases[j] == n
}

/// Some entry of the table defines the name as one of its aliases.
pub open spec fn name_in_table(n: Seq<char>, t: Seq<TypeEntryView>) -> bool {
    exists|i: int| 0 <= i < t.len() && entry_has_alias(n, #[trigger] t[i])
}

/// The first requested name, in request order, that no table entry defines.
pub open spec fn first_missing(names: Seq<Seq<char>>, t: Seq<TypeEntryView>) -> Option<Seq<char>>
    decreases names.len(),
{
    if names.len() == 0 {
        Option::None
    } else if !name_in_table(names[0], t) {
        Option::Some(names[0])
    } else {
        first_missing(names.drop_first(), t)
    }
}

/// The remediation text for one unrecognized name, given its exact and
/// approximate suggestions: the exact matches are offered first, then the
/// approximate ones, and failing both only the pointer to the full listing.
pub open spec fn remediation_text(
    name: Seq<char>,
    exact: Seq<Seq<char>>,
    approx: Seq<Seq<char>>,
) -> Seq<char> {
    let head = "unrecognized file type: "@ + name + "\n\n"@;
    let tail =
        "See --list-types for a list of supported type names and associated path glob patterns."@;
    if exact.len() > 0 {
        head + "Did you mean: "@ + join_chars(exact, " or "@) + "? The '"@ + name
            + "' string matched in the path glob pattern list."@ + "\n\n"@ + tail
    } else if approx.len() > 0 {
        head + "Types with approximate type name or path glob pattern string matches: "@
            + join_chars(approx, ", "@) + "\n\n"@ + tail
    } else {
        head + tail
    }
}

/// The full message for one unrecognized name against a table.
pub open spec fn unrecognized_message(name: Seq<char>, t: Seq<TypeEntryView>) -> Seq<char> {
    remediation_text(name, exact_matches_of(name, t), approx_matches_of(name, t))
}

/// Decides whether some alias of the entry equals the name.
fn entry_has_alias_exec(n: &str, e: &TypeEntry) -> (r: bool)
    ensures
        r == entry_has_alias(n@, e@),
{
    let mut j: usize = 0;
    while j < e.aliases.len()
        invariant
            j <= e.aliases@.len(),
            forall|k: int| 0 <= k < j ==> (#[trigger] e@.aliases[k]) != n@,
        decreases e.aliases@.len() - j,
    {
        if str_eq(e.aliases[j].as_str(), n) {
            assert(e@.aliases[j as int] == n@);
            return true;
        }
        assert(e@.aliases[j as int] == e.aliases@[j as int]@);
        j = j + 1;
    }
    assert(!entry_has_alias(n@, e@)) by {
        if entry_has_alias(n@, e@) {
            let k = choose|k: int| 0 <= k < e@.aliases.len() && e@.aliases[k] == n@;
            assert(e@.aliases[k] != n@);
        }
    }
    false
}

/// Decides whether some entry of the table defines the name.
fn name_in_table_exec(n: &str, table: &Vec<TypeEntry>) -> (r: bool)
    ensures
        r == name_in_table(n@, table.deep_view()),
{
    let ghost tv = table.deep_view();
    let mut i: usize = 0;
    while i < table.len()
        invariant
            i <= table@.len(),
            tv == table.deep_view(),
            forall|k: int| 0 <= k < i ==> !entry_has_alias(n@, #[trigger] tv[k]),
        decreases table@.len() - i,
    {
        assert(table@[i as int]@ == tv[i as int]);
        if entry_has_alias_exec(n, &table[i]) {
            assert(name_in_table(n@, tv));
            return true;
        }
        i = i + 1;
    }
    assert(!name_in_table(n@, tv)) by {
        if name_in_table(n@, tv) {
            let k = choose|k: int| 0 <= k < tv.len() && entry_has_alias(n@, tv[k]);
            assert(!entry_has_alias(n@, tv[k]));
        }
    }
    false
}

/// With no missing name, every requested name is defined by the table.
proof fn lemma_first_missing_all_known(names: Seq<Seq<char>>, t: Seq<TypeEntryView>)
    requires
        first_missing(names, t) is None,
    ensures
        forall|k: int| 0 <= k < names.len() ==> name_in_table(#[trigger] names[k], t),
    decreases names.len(),
{
    if names.len() == 0 {
    } else {
        lemma_first_missing_all_known(names.drop_first(), t);
        assert forall|k: int| 0 <= k < names.len() implies name_in_table(#[trigger] names[k], t) by {
            if k > 0 {
                assert(names.drop_first()[k - 1] == names[k]);
            }
        }
    }
}

/// Every name the built-in table defines differs from the word `all`.
proof fn lemma_known_names_not_all(names: Seq<Seq<char>>)
    requires
        first_missing(names, default_table_view()) is None,
    ensures
        forall|k: int| 0 <= k < names.len() ==> #[trigger] names[k] != "all"@,
{
    crate::types_default::lemma_no_alias_is_all();
    lemma_first_missing_all_known(names, default_table_view());
    let t = default_table_view();
    assert forall|k: int| 0 <= k < names.len() implies #[trigger] names[k] != "all"@ by {
        assert(name_in_table(names[k], t));
        let i = choose|i: int| 0 <= i < t.len() && entry_has_alias(names[k], #[trigger] t[i]);
        let j = choose|j: int| 0 <= j < t[i].aliases.len() && t[i].aliases[j] == names[k];
        assert(t[i].aliases[j] != "all"@);
    }
}

/// Finds the first requested name that the table does not define.
fn find_missing(names: &Vec<String>, table: &Vec<TypeEntry>) -> (r: Option<String>)
    ensures
        (r is None <==> first_missing(names.deep_view(), table.deep_view()) is None),
        r matches Some(s) ==> first_missing(names.deep_view(), table.deep_view()) == Option::Some(
            s@,
        ),
{
    let ghost nv = names.deep_view();
    let ghost tv = table.deep_view();
    proof {
        assert(nv.skip(0) =~= nv);
    }
    let mut i: usize = 0;
    while i < names.len()
        invariant
            i <= names@.len(),
            nv == names.deep_view(),
            tv == table.deep_view(),
            first_missing(nv, tv) == first_missing(nv.skip(i as int), tv),
        decreases names@.len() - i,
    {
        proof {
            assert(names@[i as int]@ == nv[i as int]);
            assert(nv.skip(i as int).len() > 0);
            assert(nv.skip(i as int)[0] == nv[i as int]);
            assert(nv.skip(i as int).drop_first() =~= nv.skip(i + 1));
        }
        if !name_in_table_exec(names[i].as_str(), table) {
            return Some(names[i].clone());
        }
        i = i + 1;
    }
    assert(nv.skip(names@.len() as int) =~= Seq::<Seq<char>>::empty());
    None
}

/// Builds the remediation message for one unrecognized name from its
/// suggestion lists.
fn build_remediation(name: &str, exact: &Vec<String>, approx: &Vec<String>) -> (r: String)
    ensures
        r@ == remediation_text(name@, exact.deep_view(), approx.deep_view()),
{
    let mut out = String::new();
    out.append("unrecognized file type: ");
    out.append(name);
    out.append("\n\n");
    if exact.len() > 0 {
        out.append("Did you mean: ");
        let joined = join_strings(exact, " or ");
        out.append(joined.as_str());
        out.append("? The '");
        out.append(name);
        out.append("' string matched in the path glob pattern list.");
        out.append("\n\n");
    } else if approx.len() > 0 {
        out.append("Types with approximate type name or path glob pattern string matches: ");
        let joined = join_strings(approx, ", ");
        out.append(joined.as_str());
        out.append("\n\n");
    }
    out.append(
        "See --list-types for a list of supported type names and associated path glob patterns.",
    );
    assert(out@ =~= remediation_text(name@, exact.deep_view(), approx.deep_view()));
    out
}

/// The text of one listing line: the alias name, a colon, then each glob
/// pattern preceded by one space.
pub open spec fn alias_line(a: Seq<char>, globs: Seq<Seq<char>>) -> Seq<char>
    decreases globs.len(),
{
    if globs.len() == 0 {
        a + ":"@
    } else {
        alias_line(a, globs.drop_last()) + " "@ + globs.last()
    }
}

/// The glob part of one listing line: each pattern preceded by one space.
pub open spec fn glob_suffix(globs: Seq<Seq<char>>) -> Seq<char>
    decreases globs.len(),
{
    if globs.len() == 0 {
        Seq::empty()
    } else {
        glob_suffix(globs.drop_last()) + " "@ + globs.last()
    }
}

/// A listing line is its head followed by the colon and the glob part.
pub proof fn lemma_alias_line_parts(a: Seq<char>, globs: Seq<Seq<char>>)
    ensures
        alias_line(a, globs) == a + ":"@ + glob_suffix(globs),
    decreases globs.len(),
{
    if globs.len() == 0 {
        assert(alias_line(a, globs) =~= a + ":"@ + glob_suffix(globs));
    } else {
        lemma_alias_line_parts(a, globs.drop_last());
        assert(alias_line(a, globs) =~= a + ":"@ + glob_suffix(globs));
    }
}

/// Every line follows its suffix: some head, the colon, then the line's
/// glob part.
pub open spec fn lines_follow_suffixes(ls: Seq<Seq<char>>, sfx: Seq<Seq<char>>) -> bool {
    ls.len() == sfx.len() && (forall|i: int|
        0 <= i < ls.len() ==> exists|p: Seq<char>| #[trigger] ls[i] == p + ":"@ + sfx[i])
}

/// The glob parts of one entry's listing lines: one per alias, all naming
/// the entry's whole glob set.
pub open spec fn entry_line_suffixes(e: TypeEntryView) -> Seq<Seq<char>> {
    Seq::new(e.aliases.len(), |i: int| glob_suffix(e.globs))
}

/// The glob parts of the whole listing's lines, in table order.
pub open spec fn table_line_suffixes(t: Seq<TypeEntryView>) -> Seq<Seq<char>>
    decreases t.len(),
{
    if t.len() == 0 {
        Seq::empty()
    } else {
        table_line_suffixes(t.drop_last()) + entry_line_suffixes(t.last())
    }
}

/// The alias heading each listing line, in table order.
pub open spec fn table_line_heads(t: Seq<TypeEntryView>) -> Seq<Seq<char>>
    decreases t.len(),
{
    if t.len() == 0 {
        Seq::empty()
    } else {
        table_line_heads(t.drop_last()) + t.last().aliases
    }
}

/// Each line whose alias is reset-free is exactly the painted-or-plain
/// alias, the colon and the line's glob part.
pub open spec fn lines_follow_heads(
    ls: Seq<Seq<char>>,
    heads: Seq<Seq<char>>,
    sfx: Seq<Seq<char>>,
) -> bool {
    ls.len() == heads.len() && ls.len() == sfx.len() && (forall|i: int|
        0 <= i < ls.len() ==> (no_reset_sequence(#[trigger] heads[i]) ==> exists|b: bool|
            ls[i] == #[trigger] bold_blue_name(heads[i], b) + ":"@ + sfx[i]))
}

/// A colored listing keeps the uncolored structure: one line per alias, in
/// table order, each made of some painted head, the colon and that line's
/// exact glob part, all joined by newlines; for each reset-free alias the
/// head is exactly the painted-or-plain alias itself.
pub open spec fn colored_listing_shape(r: Seq<char>, t: Seq<TypeEntryView>) -> bool {
    exists|ls: Seq<Seq<char>>|
        #![auto]
        lines_follow_suffixes(ls, table_line_suffixes(t)) && lines_follow_heads(
            ls,
            table_line_heads(t),
            table_line_suffixes(t),
        ) && r == join_chars(ls, "\n"@)
}

/// The listing lines of one entry: one line per alias, each naming the
/// entry's whole glob set.
pub open spec fn entry_lines(e: TypeEntryView) -> Seq<Seq<char>> {
    e.aliases.map_values(|a: Seq<char>| alias_line(a, e.globs))
}

/// The listing lines of the whole table, in table order.
pub open spec fn table_lines(t: Seq<TypeEntryView>) -> Seq<Seq<char>>
    decreases t.len(),
{
    if t.len() == 0 {
        Seq::empty()
    } else {
        table_lines(t.drop_last()) + entry_lines(t.last())
    }
}

/// The whole type listing: every line, joined by newlines, with no trailing
/// line terminator.
pub open spec fn printable_types_text(t: Seq<TypeEntryView>) -> Seq<char> {
    join_chars(table_lines(t), "\n"@)
}

/// The `ignore` crate's compiled file-type matcher, opaque to verification.
#[verifier::external_type_specification]
#[verifier::external_body]
pub struct ExTypes(ignore::types::Types);

/// The outcome of compiling a matcher from a table and a selection list:
/// the failure's display text, or nothing on success. Whether the `ignore`
/// crate's builder accepts a definition or a selection, and which error it
/// reports first, depend on the table and the selections alone.
pub uninterp spec fn types_build_outcome(
    table: Seq<TypeEntryView>,
    selections: Seq<Seq<char>>,
) -> Option<Seq<char>>;

/// Builds the `ignore` crate's file-type matcher: every alias of every table
/// entry is bound to each of the entry's glob patterns, the requested names
/// are selected as the whitelist, and the matcher is compiled.
///
/// Relies on ignore's TypesBuilder::{new, add, select, build}: `add` fails
/// only on a name that is not alphanumeric, `build` only on a selection
/// with no definition or a malformed glob, and the first failure's display
/// text is a function of the arguments alone, here named
/// `types_build_outcome`. A selection equal to `all` is excluded up front:
/// `select` special-cases that word and expands it over a hash map's keys,
/// whose order is not a function of the arguments.
#[verifier::external_body]
fn build_types_matcher(table: &Vec<TypeEntry>, selections: &Vec<String>) -> (r: Result<
    ignore::types::Types,
    String,
>)
    requires
        forall|k: int|
            0 <= k < selections.deep_view().len() ==> #[trigger] selections.deep_view()[k]
                != "all"@,
    ensures
        (r is Ok) == (types_build_outcome(table.deep_view(), selections.deep_view()) is None),
        r matches Err(e) ==> types_build_outcome(table.deep_view(), selections.deep_view())
            == Some(e@),
{
    let mut builder = ignore::types::TypesBuilder::new();
    for e in table.iter() {
        for name in e.aliases.iter() {
            for glob in e.globs.iter() {
                if let Err(err) = builder.add(name, glob) {
                    return Err(err.to_string());
                }
            }
        }
    }
    for name in selections.iter() {
        builder.select(name);
    }
    builder.build().map_err(|err| err.to_string())
}

/// A bold-blue-painted name token: the text itself when color output is
/// off, or the text between the bold-blue style code and the reset.
pub open spec fn bold_blue_name(s: Seq<char>, styled: bool) -> Seq<char> {
    if styled {
        "\u{1b}[1;34m"@ + s + "\u{1b}[0m"@
    } else {
        s
    }
}

/// Renders a type name for colored output.
///
/// Relies on colored's Colorize::{blue, bold} and ColoredString's Display:
/// whether the escape codes are emitted depends on the process environment,
/// but reset-free text is passed through verbatim, either plain or between
/// the bold-blue style code and the trailing reset.
#[verifier::external_body]
fn paint_type_name(s: &str) -> (r: String)
    ensures
        no_reset_sequence(s@) ==> (r@ == bold_blue_name(s@, false) || r@ == bold_blue_name(
            s@,
            true,
        )),
{
    format!("{}", s.blue().bold())
}

/// Computes both suggestion lists for one needle: the deduplicated exact
/// matches and the ranked, filtered approximate matches.
fn suggestions_for(needle: &str, table: &Vec<TypeEntry>) -> (r: (Vec<String>, Vec<String>))
    requires
        table_wf(table.deep_view()),
    ensures
        r.0.deep_view() == exact_matches_of(needle@, table.deep_view()),
        r.1.deep_view() == approx_matches_of(needle@, table.deep_view()),
{
    let (exact, ranked) = scan_table(needle, table);
    let sorted = sort_cands(ranked);
    let kept = filter_above_threshold(sorted);
    let approx = cand_names(kept);
    (exact, approx)
}

/// A builder for the `ignore` crate's file-type matcher over the built-in
/// type table, with approximate-match suggestions for unrecognized names.
pub struct SizTypesBuilder {
    table: Vec<TypeEntry>,
}

impl SizTypesBuilder {
    /// The builder holds exactly the built-in table.
    pub closed spec fn wf(&self) -> bool {
        self.table.deep_view() == default_table_view()
    }

    /// Creates a builder over the built-in type table.
    pub fn new() -> (r: SizTypesBuilder)
        ensures
            r.wf(),
    {
        SizTypesBuilder { table: default_type_table() }
    }

    /// The suggestion lists for one unrecognized name: first the exact glob
    /// matches, deduplicated, then the approximate matches in descending
    /// similarity order.
    #[verifier::rlimit(30)]
    pub fn get_approximate_match_types(&mut self, needle: &String) -> (r: Vec<Vec<String>>)
        requires
            old(self).wf(),
        ensures
            *final(self) == *old(self),
            r.deep_view().len() == 2,
            r.deep_view()[0] == exact_matches_of(needle@, default_table_view()),
            r.deep_view()[1] == approx_matches_of(needle@, default_table_view()),
    {
        proof {
            crate::types_default::lemma_default_table_wf();
        }
        let (exact, approx) = suggestions_for(needle.as_str(), &self.table);
        let ghost ev = exact.deep_view();
        let ghost av = approx.deep_view();
        let mut r: Vec<Vec<String>> = Vec::new();
        r.push(exact);
        r.push(approx);
        assert(r.deep_view() =~= seq![ev, av]);
        r
    }

    /// Compiles the matcher that whitelists exactly the requested type
    /// names. A name that the table does not define yields an error whose
    /// message carries the suggestions for the first such name, in request
    /// order; with every name defined, the call succeeds exactly when the
    /// underlying matcher build does, and any build failure yields the
    /// generic build error around that failure's text.
    #[verifier::rlimit(30)]
    pub fn filter_types(&mut self, types: &Vec<String>) -> (r: Result<
        ignore::types::Types,
        SizError,
    >)
        requires
            old(self).wf(),
        ensures
            *final(self) == *old(self),
            first_missing(types.deep_view(), default_table_view()) matches Some(n) ==> r is Err
                && r->Err_0.msg@ == unrecognized_message(n, default_table_view()),
            first_missing(types.deep_view(), default_table_view()) is None ==> ((r is Ok)
                == (types_build_outcome(default_table_view(), types.deep_view()) is None)),
            first_missing(types.deep_view(), default_table_view()) is None ==> (r matches Err(e)
                ==> e.msg@ == "error building types: "@ + types_build_outcome(
                default_table_view(),
                types.deep_view(),
            )->Some_0),
    {
        proof {
            crate::types_default::lemma_default_table_wf();
        }
        match find_missing(types, &self.table) {
            Some(name) => {
                let (exact, approx) = suggestions_for(name.as_str(), &self.table);
                let msg = build_remediation(name.as_str(), &exact, &approx);
                Err(SizError { msg })
            },
            None => {
                proof {
                    lemma_known_names_not_all(types.deep_view());
                }
                match build_types_matcher(&self.table, types) {
                    Ok(t) => Ok(t),
                    Err(e) => {
                        let mut msg = String::new();
                        msg.append("error building types: ");
                        msg.append(e.as_str());
                        proof {
                            assert(msg@ == "error building types: "@ + e@);
                        }
                        Err(SizError { msg })
                    },
                }
            },
        }
    }
}

impl Default for SizTypesBuilder {
    /// Creates a builder over the built-in type table.
    fn default() -> (r: SizTypesBuilder)
        ensures
            r.wf(),
    {
        SizTypesBuilder::new()
    }
}

/// Renders one listing line for one alias of an entry: the alias, painted
/// for the terminal when `color` is set, then a colon and the glob part.
fn render_alias_line(alias: &String, globs: &Vec<String>, color: bool) -> (r: String)
    ensures
        !color ==> r@ == alias_line(alias@, globs.deep_view()),
        exists|p: Seq<char>| r@ == p + ":"@ + glob_suffix(globs.deep_view()),
        no_reset_sequence(alias@) ==> exists|b: bool|
            r@ == #[trigger] bold_blue_name(alias@, b) + ":"@ + glob_suffix(globs.deep_view()),
{
    let ghost gv = globs.deep_view();
    let mut line = String::new();
    let ghost mut headed: bool = false;
    if color {
        let painted = paint_type_name(alias.as_str());
        line.append(painted.as_str());
        proof {
            headed = painted@ != alias@;
            if no_reset_sequence(alias@) {
                assert(line@ =~= bold_blue_name(alias@, headed));
            }
        }
    } else {
        line.append(alias.as_str());
    }
    let ghost head = line@;
    proof {
        if !color {
            assert(head =~= alias@);
            assert(head == bold_blue_name(alias@, false));
        }
    }
    line.append(":");
    proof {
        assert(gv.take(0) =~= Seq::<Seq<char>>::empty());
        assert(line@ =~= head + ":"@ + glob_suffix(gv.take(0)));
    }
    let mut j: usize = 0;
    while j < globs.len()
        invariant
            j <= globs@.len(),
            gv == globs.deep_view(),
            !color ==> head == alias@,
            line@ == head + ":"@ + glob_suffix(gv.take(j as int)),
        decreases globs@.len() - j,
    {
        proof {
            assert(gv.take(j + 1).drop_last() =~= gv.take(j as int));
            assert(gv.take(j + 1).last() == gv[j as int]);
            assert(globs@[j as int]@ == gv[j as int]);
        }
        line.append(" ");
        line.append(globs[j].as_str());
        assert(line@ =~= head + ":"@ + glob_suffix(gv.take(j + 1)));
        j = j + 1;
    }
    proof {
        assert(gv.take(globs@.len() as int) =~= gv);
        if !color {
            lemma_alias_line_parts(alias@, gv);
        }
        if no_reset_sequence(alias@) {
            if color {
                assert(line@ == bold_blue_name(alias@, headed) + ":"@ + glob_suffix(gv));
            } else {
                assert(line@ == bold_blue_name(alias@, false) + ":"@ + glob_suffix(gv));
            }
        }
    }
    line
}

/// Renders the built-in type listing: one line per alias of each table
/// entry, as `name: glob1 glob2 ...`, joined by newlines with no trailing
/// line terminator. With `color` set the name tokens are painted for the
/// terminal and everything else is unchanged: each line still carries its
/// colon and its exact glob part, in the same order.
#[verifier::rlimit(50)]
pub fn get_printable_types(color: bool) -> (r: String)
    ensures
        !color ==> r@ == printable_types_text(default_table_view()),
        color ==> colored_listing_shape(r@, default_table_view()),
{
    let table = default_type_table();
    let ghost tv = table.deep_view();
    let mut lines: Vec<String> = Vec::new();
    proof {
        assert(tv.take(0) =~= Seq::<TypeEntryView>::empty());
        assert(table_line_suffixes(tv.take(0)) =~= Seq::<Seq<char>>::empty());
        assert(table_line_heads(tv.take(0)) =~= Seq::<Seq<char>>::empty());
        if !color {
            assert(lines.deep_view() =~= table_lines(tv.take(0)));
        }
        assert(lines.deep_view() =~= Seq::<Seq<char>>::empty());
    }
    let mut i: usize = 0;
    while i < table.len()
        invariant
            i <= table@.len(),
            tv == table.deep_view(),
            !color ==> lines.deep_view() == table_lines(tv.take(i as int)),
            lines_follow_suffixes(lines.deep_view(), table_line_suffixes(tv.take(i as int))),
            lines_follow_heads(
                lines.deep_view(),
                table_line_heads(tv.take(i as int)),
                table_line_suffixes(tv.take(i as int)),
            ),
        decreases table@.len() - i,
    {
        let e = &table[i];
        proof {
            assert(e@ == tv[i as int]);
            assert(tv.take(i + 1).drop_last() =~= tv.take(i as int));
            assert(tv.take(i + 1).last() == tv[i as int]);
        }
        let ghost linespre = lines.deep_view();
        let ghost sfxpre = table_line_suffixes(tv.take(i as int));
        let ghost headspre = table_line_heads(tv.take(i as int));
        let mut k: usize = 0;
        while k < e.aliases.len()
            invariant
                k <= e.aliases@.len(),
                tv == table.deep_view(),
                0 <= i < table@.len(),
                e == &table@[i as int],
                e@ == tv[i as int],
                sfxpre == table_line_suffixes(tv.take(i as int)),
                headspre == table_line_heads(tv.take(i as int)),
                !color ==> linespre == table_lines(tv.take(i as int)),
                !color ==> lines.deep_view() == linespre + entry_lines(e@).take(k as int),
                lines_follow_suffixes(
                    lines.deep_view(),
                    sfxpre + entry_line_suffixes(e@).take(k as int),
                ),
                lines_follow_heads(
                    lines.deep_view(),
                    headspre + e@.aliases.take(k as int),
                    sfxpre + entry_line_suffixes(e@).take(k as int),
                ),
            decreases e.aliases@.len() - k,
        {
            proof {
                assert(e.aliases@[k as int]@ == e@.aliases[k as int]);
                assert(entry_lines(e@)[k as int] == alias_line(e@.aliases[k as int], e@.globs));
                assert(e.globs.deep_view() == e@.globs);
            }
            let line = render_alias_line(&e.aliases[k], &e.globs, color);
            let ghost dvpre = lines.deep_view();
            lines.push(line);
            proof {
                assert(lines.deep_view() =~= dvpre.push(line@));
                if !color {
                    assert(lines.deep_view() =~= linespre + entry_lines(e@).take(k + 1));
                }
                let oldsfx = sfxpre + entry_line_suffixes(e@).take(k as int);
                let newsfx = sfxpre + entry_line_suffixes(e@).take(k + 1);
                let oldheads = headspre + e@.aliases.take(k as int);
                let newheads = headspre + e@.aliases.take(k + 1);
                assert(newsfx.len() == oldsfx.len() + 1);
                assert(newsfx[newsfx.len() - 1] == glob_suffix(e@.globs));
                assert(newheads.len() == oldheads.len() + 1);
                assert(newheads[newheads.len() - 1] == e@.aliases[k as int]);
                assert forall|q: int| 0 <= q < lines.deep_view().len() implies exists|p: Seq<char>|
                    #[trigger] lines.deep_view()[q] == p + ":"@ + newsfx[q] by {
                    if q < dvpre.len() {
                        assert(lines.deep_view()[q] == dvpre[q]);
                        assert(newsfx[q] == oldsfx[q]);
                        let p = choose|p: Seq<char>| dvpre[q] == p + ":"@ + oldsfx[q];
                        assert(lines.deep_view()[q] == p + ":"@ + newsfx[q]);
                    } else {
                        assert(lines.deep_view()[q] == line@);
                        let p = choose|p: Seq<char>| line@ == p + ":"@ + glob_suffix(
                            e.globs.deep_view(),
                        );
                        assert(lines.deep_view()[q] == p + ":"@ + newsfx[q]);
                    }
                }
                assert forall|q: int|
                    0 <= q < lines.deep_view().len() implies (no_reset_sequence(
                    #[trigger] newheads[q],
                ) ==> exists|b: bool|
                    lines.deep_view()[q] == #[trigger] bold_blue_name(newheads[q], b) + ":"@
                        + newsfx[q]) by {
                    if q < dvpre.len() {
                        assert(lines.deep_view()[q] == dvpre[q]);
                        assert(newsfx[q] == oldsfx[q]);
                        assert(newheads[q] == oldheads[q]);
                        if no_reset_sequence(newheads[q]) {
                            let b = choose|b: bool|
                                dvpre[q] == bold_blue_name(oldheads[q], b) + ":"@ + oldsfx[q];
                            assert(lines.deep_view()[q] == bold_blue_name(newheads[q], b) + ":"@
                                + newsfx[q]);
                        }
                    } else {
                        assert(lines.deep_view()[q] == line@);
                        assert(newheads[q] == e@.aliases[k as int]);
                        assert(e.aliases@[k as int]@ == e@.aliases[k as int]);
                        if no_reset_sequence(newheads[q]) {
                            let b = choose|b: bool|
                                line@ == bold_blue_name(e.aliases@[k as int]@, b) + ":"@
                                    + glob_suffix(e.globs.deep_view());
                            assert(lines.deep_view()[q] == bold_blue_name(newheads[q], b) + ":"@
                                + newsfx[q]);
                        }
                    }
                }
            }
            k = k + 1;
        }
        proof {
            assert(entry_line_suffixes(e@).take(e.aliases@.len() as int) =~= entry_line_suffixes(
                e@,
            ));
            assert(table_line_suffixes(tv.take(i + 1)) == sfxpre + entry_line_suffixes(e@));
            assert(e@.aliases.take(e.aliases@.len() as int) =~= e@.aliases);
            assert(table_line_heads(tv.take(i + 1)) == headspre + e@.aliases);
            if !color {
                assert(entry_lines(e@).take(e.aliases@.len() as int) =~= entry_lines(e@));
                assert(lines.deep_view() == table_lines(tv.take(i + 1)));
            }
        }
        i = i + 1;
    }
    assert(tv.take(table@.len() as int) =~= tv);
    let out = join_strings(&lines, "\n");
    proof {
        if color {
            assert(lines_follow_suffixes(lines.deep_view(), table_line_suffixes(tv)));
            assert(lines_follow_heads(
                lines.deep_view(),
                table_line_heads(tv),
                table_line_suffixes(tv),
            ));
            assert(colored_listing_shape(out@, default_table_view()));
        }
    }
    out
}

/// The lexicographic order is total: of any two strings, one is less than
/// or equal to the other.
pub proof fn lemma_chars_le_total(a: Seq<char>, b: Seq<char>)
    ensures
        chars_le(a, b) || chars_le(b, a),
    decreases a.len(),
{
    if a.len() == 0 || b.len() == 0 {
    } else if a[0] != b[0] {
    } else {
        lemma_chars_le_total(a.drop_first(), b.drop_first());
    }
}

/// The ranking order is total: of any two candidates, one may stand before
/// the other.
pub proof fn lemma_cand_before_total(a: CandV, b: CandV)
    ensures
        cand_before(a, b) || cand_before(b, a),
{
    lemma_chars_le_total(a.name, b.name);
}

/// Each neighbour pair of the sequence is ordered: the earlier candidate
/// may stand before the later one.
pub open spec fn ranked_desc(s: Seq<CandV>) -> bool {
    forall|i: int| 0 <= i < s.len() - 1 ==> cand_before(#[trigger] s[i], s[i + 1])
}

/// Inserting into a ranked sequence keeps it ranked.
proof fn lemma_insert_desc_ranked(x: CandV, s: Seq<CandV>)
    requires
        ranked_desc(s),
    ensures
        ranked_desc(insert_desc(x, s)),
    decreases s.len(),
{
    if s.len() == 0 {
    } else if cand_before(x, s[0]) {
        let r = seq![x] + s;
        assert forall|i: int| 0 <= i < r.len() - 1 implies cand_before(#[trigger] r[i], r[i + 1]) by {
            if i == 0 {
            } else {
                assert(r[i] == s[i - 1]);
                assert(r[i + 1] == s[i]);
            }
        }
    } else {
        lemma_cand_before_total(x, s[0]);
        assert(ranked_desc(s.drop_first())) by {
            assert forall|i: int|
                0 <= i < s.drop_first().len() - 1 implies cand_before(
                #[trigger] s.drop_first()[i],
                s.drop_first()[i + 1],
            ) by {
                assert(s.drop_first()[i] == s[i + 1]);
                assert(s.drop_first()[i + 1] == s[i + 2]);
            }
        }
        lemma_insert_desc_ranked(x, s.drop_first());
        let ins = insert_desc(x, s.drop_first());
        assert(ins[0] == x || (s.drop_first().len() > 0 && ins[0] == s.drop_first()[0]));
        let r = seq![s[0]] + ins;
        assert forall|i: int| 0 <= i < r.len() - 1 implies cand_before(#[trigger] r[i], r[i + 1]) by {
            if i == 0 {
                assert(r[1] == ins[0]);
                if ins[0] == x {
                    assert(cand_before(s[0], x));
                } else {
                    assert(cand_before(s[0], s[1]));
                }
            } else {
                assert(r[i] == ins[i - 1]);
                assert(r[i + 1] == ins[i]);
            }
        }
    }
}

/// The sorted candidate ranking is in descending order: each candidate may
/// stand before its successor, so larger ratios come first and equal ratios
/// are ordered by descending name.
pub proof fn lemma_sort_desc_ranked(s: Seq<CandV>)
    ensures
        ranked_desc(sort_desc(s)),
    decreases s.len(),
{
    if s.len() == 0 {
    } else {
        lemma_sort_desc_ranked(s.drop_first());
        lemma_insert_desc_ranked(s[0], sort_desc(s.drop_first()));
    }
}

/// The exact-match list never repeats a name: it has set semantics.
pub proof fn lemma_exact_matches_unique(needle: Seq<char>, t: Seq<TypeEntryView>)
    ensures
        forall|i: int, j: int|
            0 <= i < j < exact_matches_of(needle, t).len() ==> exact_matches_of(needle, t)[i]
                != exact_matches_of(needle, t)[j],
    decreases t.len(),
{
    if t.len() == 0 {
    } else {
        lemma_exact_matches_unique(needle, t.drop_last());
        let rest = exact_matches_of(needle, t.drop_last());
        if entry_has_exact(needle, t.last()) {
            let x = t.last().aliases[0];
            if !rest.contains(x) {
                let r = rest.push(x);
                assert forall|i: int, j: int| 0 <= i < j < r.len() implies r[i] != r[j] by {
                    if j == r.len() - 1 {
                        assert(r[i] == rest[i]);
                        assert(!rest.contains(x));
                        assert(rest[i] != x);
                    } else {
                        assert(r[i] == rest[i]);
                        assert(r[j] == rest[j]);
                    }
                }
            }
        }
    }
}

/// Insertion adds exactly the inserted candidate to the ranking's
/// contents.
proof fn lemma_insert_desc_multiset(x: CandV, s: Seq<CandV>)
    ensures
        insert_desc(x, s).to_multiset() == s.to_multiset().insert(x),
    decreases s.len(),
{
    broadcast use vstd::seq_lib::group_to_multiset_ensures;
    broadcast use vstd::seq_lib::lemma_multiset_commutative;
    broadcast use vstd::multiset::group_multiset_axioms;

    if s.len() == 0 {
        assert(seq![x] =~= Seq::<CandV>::empty().push(x));
        assert(insert_desc(x, s).to_multiset() =~= s.to_multiset().insert(x));
    } else if cand_before(x, s[0]) {
        assert(seq![x] =~= Seq::<CandV>::empty().push(x));
        assert((seq![x] + s).to_multiset() =~= seq![x].to_multiset().add(s.to_multiset()));
        assert((seq![x] + s).to_multiset() =~= s.to_multiset().insert(x));
    } else {
        lemma_insert_desc_multiset(x, s.drop_first());
        let ins = insert_desc(x, s.drop_first());
        assert(seq![s[0]] =~= Seq::<CandV>::empty().push(s[0]));
        assert((seq![s[0]] + ins).to_multiset() =~= seq![s[0]].to_multiset().add(ins.to_multiset()));
        assert(s =~= seq![s[0]] + s.drop_first());
        assert(s.to_multiset() =~= seq![s[0]].to_multiset().add(s.drop_first().to_multiset()));
        assert((seq![s[0]] + ins).to_multiset() =~= s.to_multiset().insert(x));
    }
}

/// Sorting permutes the candidates: the sorted ranking holds exactly the
/// candidates it was given.
pub proof fn lemma_sort_desc_multiset(s: Seq<CandV>)
    ensures
        sort_desc(s).to_multiset() == s.to_multiset(),
    decreases s.len(),
{
    broadcast use vstd::seq_lib::group_to_multiset_ensures;
    broadcast use vstd::seq_lib::lemma_multiset_commutative;
    broadcast use vstd::multiset::group_multiset_axioms;

    if s.len() == 0 {
    } else {
        lemma_sort_desc_multiset(s.drop_first());
        lemma_insert_desc_multiset(s[0], sort_desc(s.drop_first()));
        assert(seq![s[0]] =~= Seq::<CandV>::empty().push(s[0]));
        assert(s =~= seq![s[0]] + s.drop_first());
        assert(s.to_multiset() =~= seq![s[0]].to_multiset().add(s.drop_first().to_multiset()));
        assert(sort_desc(s).to_multiset() =~= s.to_multiset());
    }
}

/// The lexicographic order is transitive.
pub proof fn lemma_chars_le_trans(a: Seq<char>, b: Seq<char>, c: Seq<char>)
    requires
        chars_le(a, b),
        chars_le(b, c),
    ensures
        chars_le(a, c),
    decreases a.len(),
{
    if a.len() == 0 {
    } else {
        assert(b.len() > 0);
        assert(c.len() > 0);
        if a[0] == b[0] && b[0] == c[0] {
            lemma_chars_le_trans(a.drop_first(), b.drop_first(), c.drop_first());
        }
    }
}

/// The lexicographic order is antisymmetric: mutually ordered strings are
/// equal.
pub proof fn lemma_chars_le_antisymmetric(a: Seq<char>, b: Seq<char>)
    requires
        chars_le(a, b),
        chars_le(b, a),
    ensures
        a == b,
    decreases a.len(),
{
    if a.len() == 0 {
        assert(b.len() == 0);
        assert(a =~= b);
    } else {
        assert(b.len() > 0);
        assert(a[0] == b[0]);
        lemma_chars_le_antisymmetric(a.drop_first(), b.drop_first());
        assert(a.len() == b.len()) by {
            assert(a.drop_first().len() == b.drop_first().len());
        }
        assert forall|i: int| 0 <= i < a.len() implies a[i] == b[i] by {
            if i > 0 {
                assert(a.drop_first()[i - 1] == b.drop_first()[i - 1]);
            }
        }
        assert(a =~= b);
    }
}

} // verus!
