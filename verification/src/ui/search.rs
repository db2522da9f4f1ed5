//! The relevance ranking behind the list filter.
//!
//! A query is split on whitespace into patterns; every item label is scored
//! by the number of case-insensitive pattern matches found in it; labels
//! with a positive score are ranked by descending score, and labels with
//! equal scores keep their original relative order.  The match counting is
//! done by the `aho_corasick` crate; everything around it is verified
//! against the ranking specification below.

use vstd::prelude::*;
use crate::text::seq_views;

verus! {

/// The whitespace characters a query is split on.
pub open spec fn is_space(c: char) -> bool {
    c == ' ' || c == '\t' || c == '\n' || c == '\r'
}

/// The whitespace-separated tokens of `q`, in order.
pub open spec fn split_ws(q: Seq<char>) -> Seq<Seq<char>>
    decreases q.len(),
{
    if q.len() == 0 {
        Seq::empty()
    } else {
        let rest = split_ws(q.drop_last());
        let c = q.last();
        if is_space(c) {
            rest
        } else if q.len() >= 2 && !is_space(q[q.len() - 2]) {
            rest.update(rest.len() - 1, rest.last().push(c))
        } else {
            rest.push(seq![c])
        }
    }
}

/// ASCII lower-casing of one character; other characters are untouched.
pub open spec fn lower_char(c: char) -> char {
    if 65 <= c as int && c as int <= 90 {
        ((c as int) + 32) as char
    } else {
        c
    }
}

/// ASCII lower-casing of a character sequence.
pub open spec fn lower_seq(s: Seq<char>) -> Seq<char> {
    s.map_values(|c: char| lower_char(c))
}

/// `pat` occurs somewhere in `hay`, comparing ASCII letters without regard
/// to case.
pub open spec fn contains_ci(hay: Seq<char>, pat: Seq<char>) -> bool {
    exists|i: int|
        0 <= i && i + pat.len() <= hay.len() && lower_seq(
            #[trigger] hay.subrange(i, i + pat.len()),
        ) == lower_seq(pat)
}

/// The number of matches the pattern automaton reports for `haystack`.
/// The value is fixed by the patterns and the haystack alone; what is known
/// about it is stated where the automaton is called.
pub uninterp spec fn match_count_of(patterns: Seq<Seq<char>>, haystack: Seq<char>) -> nat;

/// Relies on `aho_corasick::AhoCorasickBuilder::build` with
/// `ascii_case_insensitive(true)`, and on `AhoCorasick::find_iter`: the
/// iterator of non-overlapping matches is a function of the patterns and
/// the haystack alone, and it reports at least one match exactly when some
/// pattern occurs in the haystack, comparing ASCII letters without regard
/// to case.
#[verifier::external_body]
fn count_pattern_matches(patterns: &Vec<String>, haystack: &str) -> (n: usize)
    ensures
        n == match_count_of(seq_views(patterns@), haystack@),
        (n > 0) <==> (exists|k: int|
            0 <= k < patterns@.len() && contains_ci(haystack@, patterns@[k]@)),
{
    let automaton = aho_corasick::AhoCorasickBuilder::new().ascii_case_insensitive(true).build(
        patterns,
    );
    automaton.find_iter(haystack).count()
}

/// The score of a label under query `q`.
pub open spec fn score_of(q: Seq<char>, label: Seq<char>) -> nat {
    match_count_of(split_ws(q), label)
}

/// The scores of all labels under query `q`.
pub open spec fn scores_of(q: Seq<char>, labels: Seq<Seq<char>>) -> Seq<nat> {
    labels.map_values(|l: Seq<char>| score_of(q, l))
}

/// Some token of `q` occurs in `label`, comparing ASCII letters without
/// regard to case.
pub open spec fn hit(q: Seq<char>, label: Seq<char>) -> bool {
    exists|k: int| 0 <= k < split_ws(q).len() && contains_ci(label, split_ws(q)[k])
}

/// Index `i` is ranked before index `j`: its score is higher, or the
/// scores are equal and `i` comes first in the original order.
pub open spec fn ordered_before(scores: Seq<nat>, i: int, j: int) -> bool {
    scores[i] > scores[j] || (scores[i] == scores[j] && i < j)
}

/// Inserts index `i` into the ranked index list `r`: it lands behind every
/// index with an equal or higher score and ahead of every index with a
/// lower one.
pub open spec fn insert_ranked(r: Seq<int>, scores: Seq<nat>, i: int) -> Seq<int>
    decreases r.len(),
{
    if r.len() == 0 {
        seq![i]
    } else if scores[r.last()] >= scores[i] {
        r.push(i)
    } else {
        insert_ranked(r.drop_last(), scores, i).push(r.last())
    }
}

/// The ranking of the first `n` indices: those with a positive score, in
/// descending score order, original order among equal scores.
pub open spec fn rank_prefix(scores: Seq<nat>, n: int) -> Seq<int>
    decreases n,
{
    if n <= 0 {
        Seq::empty()
    } else if scores[n - 1] > 0 {
        insert_ranked(rank_prefix(scores, n - 1), scores, n - 1)
    } else {
        rank_prefix(scores, n - 1)
    }
}

/// The ranking of all indices of `scores`.
pub open spec fn rank(scores: Seq<nat>) -> Seq<int> {
    rank_prefix(scores, scores.len() as int)
}

/// How many of the first `n` scores are positive.
pub open spec fn count_pos(scores: Seq<nat>, n: int) -> nat
    decreases n,
{
    if n <= 0 {
        0
    } else {
        count_pos(scores, n - 1) + if scores[n - 1] > 0 {
            1nat
        } else {
            0nat
        }
    }
}

/// A well-formed ranking of indices below `n`: every entry is a positive-
/// score index below `n`, and the entries are pairwise ordered.
pub open spec fn rank_wf(r: Seq<int>, scores: Seq<nat>, n: int) -> bool {
    &&& forall|a: int| 0 <= a < r.len() ==> 0 <= #[trigger] r[a] < n && scores[r[a]] > 0
    &&& forall|a: int, b: int|
        0 <= a < b < r.len() ==> #[trigger] ordered_before(scores, r[a], r[b])
}

proof fn lemma_push_contains<A>(s: Seq<A>, v: A, x: A)
    ensures
        s.push(v).contains(x) <==> (s.contains(x) || x == v),
{
    if s.push(v).contains(x) {
        let k = choose|k: int| 0 <= k < s.push(v).len() && s.push(v)[k] == x;
        if k < s.len() {
            assert(s[k] == x);
        }
    }
    if s.contains(x) {
        let k = choose|k: int| 0 <= k < s.len() && s[k] == x;
        assert(s.push(v)[k] == x);
    }
    if x == v {
        assert(s.push(v)[s.len() as int] == x);
    }
}

proof fn lemma_insert_ranked(r: Seq<int>, scores: Seq<nat>, i: int)
    requires
        rank_wf(r, scores, i),
        0 <= i < scores.len(),
        scores[i] > 0,
    ensures
        rank_wf(insert_ranked(r, scores, i), scores, i + 1),
        insert_ranked(r, scores, i).len() == r.len() + 1,
        forall|x: int| insert_ranked(r, scores, i).contains(x) <==> (r.contains(x) || x == i),
        insert_ranked(r, scores, i).contains(i),
    decreases r.len(),
{
    let r2 = insert_ranked(r, scores, i);
    if r.len() == 0 {
        assert forall|x: int| r2.contains(x) <==> (r.contains(x) || x == i) by {
            lemma_push_contains(r, i, x);
            assert(r.push(i) =~= r2);
        }
        assert(rank_wf(r2, scores, i + 1)) by {
            assert(r2[0] == i);
        }
        assert(r2.contains(i)) by {
            assert(r2[0] == i);
        }
    } else if scores[r.last()] >= scores[i] {
        assert forall|x: int| r2.contains(x) <==> (r.contains(x) || x == i) by {
            lemma_push_contains(r, i, x);
        }
        assert(r2.contains(i)) by {
            assert(r2[r.len() as int] == i);
        }
        assert forall|a: int, b: int| 0 <= a < b < r2.len() implies #[trigger] ordered_before(
            scores,
            r2[a],
            r2[b],
        ) by {
            if b < r.len() {
                assert(ordered_before(scores, r[a], r[b]));
            } else {
                // b is the new element i
                if a < r.len() - 1 {
                    assert(ordered_before(scores, r[a], r[r.len() - 1]));
                }
                assert(scores[r2[a]] >= scores[r.last()]);
            }
        }
    } else {
        let head = r.drop_last();
        let tail = r.last();
        assert forall|a: int, b: int| 0 <= a < b < head.len() implies #[trigger] ordered_before(
            scores,
            head[a],
            head[b],
        ) by {
            assert(ordered_before(scores, r[a], r[b]));
        }
        lemma_insert_ranked(head, scores, i);
        let inner = insert_ranked(head, scores, i);
        assert(r2 == inner.push(tail));
        assert forall|x: int| r2.contains(x) <==> (r.contains(x) || x == i) by {
            lemma_push_contains(inner, tail, x);
            lemma_push_contains(head, tail, x);
            assert(head.push(tail) =~= r);
        }
        assert(r2.contains(i)) by {
            lemma_push_contains(inner, tail, i);
        }
        assert forall|a: int, b: int| 0 <= a < b < r2.len() implies #[trigger] ordered_before(
            scores,
            r2[a],
            r2[b],
        ) by {
            if b < inner.len() {
                assert(ordered_before(scores, inner[a], inner[b]));
            } else {
                // b is the re-appended old last element, whose score is
                // lower than that of i and of every other element.
                assert(inner.contains(inner[a]));
                if inner[a] == i {
                    assert(scores[i] > scores[tail]);
                } else {
                    assert(head.contains(inner[a]));
                    let ha = choose|ha: int| 0 <= ha < head.len() && head[ha] == inner[a];
                    assert(ordered_before(scores, r[ha], r[r.len() - 1]));
                }
            }
        }
        assert forall|a: int| 0 <= a < r2.len() implies 0 <= #[trigger] r2[a] < i + 1
            && scores[r2[a]] > 0 by {
            if a < inner.len() {
                assert(inner.contains(inner[a]));
            }
        }
    }
}

proof fn lemma_insert_ranked_at(r: Seq<int>, scores: Seq<nat>, i: int, k: int)
    requires
        0 <= k <= r.len(),
        forall|a: int| 0 <= a < k ==> scores[#[trigger] r[a]] >= scores[i],
        forall|a: int| k <= a < r.len() ==> scores[#[trigger] r[a]] < scores[i],
    ensures
        insert_ranked(r, scores, i) == r.insert(k, i),
    decreases r.len(),
{
    if r.len() == 0 {
        assert(insert_ranked(r, scores, i) =~= r.insert(0, i));
    } else if scores[r.last()] >= scores[i] {
        assert(k == r.len());
        assert(r.push(i) =~= r.insert(k, i));
    } else {
        assert(k <= r.len() - 1);
        let head = r.drop_last();
        lemma_insert_ranked_at(head, scores, i, k);
        assert(insert_ranked(head, scores, i).push(r.last()) =~= r.insert(k, i));
    }
}

proof fn lemma_rank_prefix_props(scores: Seq<nat>, n: int)
    requires
        0 <= n <= scores.len(),
    ensures
        rank_wf(rank_prefix(scores, n), scores, n),
        forall|j: int| 0 <= j < n && scores[j] > 0 ==> rank_prefix(scores, n).contains(j),
        rank_prefix(scores, n).len() == count_pos(scores, n),
    decreases n,
{
    if n > 0 {
        lemma_rank_prefix_props(scores, n - 1);
        let prev = rank_prefix(scores, n - 1);
        if scores[n - 1] > 0 {
            lemma_insert_ranked(prev, scores, n - 1);
            assert forall|j: int| 0 <= j < n && scores[j] > 0 implies rank_prefix(
                scores,
                n,
            ).contains(j) by {
                assert(rank_prefix(scores, n) == insert_ranked(prev, scores, n - 1));
                if j < n - 1 {
                    assert(prev.contains(j));
                    assert(insert_ranked(prev, scores, n - 1).contains(j));
                } else {
                    assert(insert_ranked(prev, scores, n - 1).contains(n - 1));
                }
            }
        } else {
            assert forall|j: int| 0 <= j < n && scores[j] > 0 implies rank_prefix(
                scores,
                n,
            ).contains(j) by {
                assert(prev.contains(j));
            }
        }
    }
}

/// The ranking law: the ranked indices are exactly the indices with a
/// positive score; they are ordered by descending score; and indices with
/// equal scores keep their original relative order.
pub proof fn lemma_rank_properties(scores: Seq<nat>)
    ensures
        forall|a: int|
            0 <= a < rank(scores).len() ==> 0 <= #[trigger] rank(scores)[a] < scores.len()
                && scores[rank(scores)[a]] > 0,
        forall|a: int, b: int|
            0 <= a < b < rank(scores).len() ==> #[trigger] ordered_before(
                scores,
                rank(scores)[a],
                rank(scores)[b],
            ),
        forall|j: int| 0 <= j < scores.len() && scores[j] > 0 ==> rank(scores).contains(j),
        rank(scores).len() == count_pos(scores, scores.len() as int),
{
    lemma_rank_prefix_props(scores, scores.len() as int);
}

/// Tests one character for query whitespace.
fn is_space_exec(c: char) -> (b: bool)
    ensures
        b == is_space(c),
{
    c == ' ' || c == '\t' || c == '\n' || c == '\r'
}

/// Splits a query into its whitespace-separated tokens.
pub fn split_query(q: &str) -> (tokens: Vec<String>)
    ensures
        seq_views(tokens@) == split_ws(q@),
{
    let n = q.unicode_len();
    let mut tokens: Vec<String> = Vec::new();
    let mut run_start: Option<usize> = None;
    let mut i: usize = 0;
    assert(seq_views(tokens@) =~= split_ws(q@.take(0)));
    while i < n
        invariant
            n == q@.len(),
            i <= n,
            match run_start {
                Option::None => (i == 0 || is_space(q@[i as int - 1])) && seq_views(tokens@)
                    == split_ws(q@.take(i as int)),
                Option::Some(s) => {
                    &&& s < i
                    &&& (s == 0 || is_space(q@[s as int - 1]))
                    &&& forall|j: int| s <= j < i ==> !is_space(#[trigger] q@[j])
                    &&& seq_views(tokens@).push(q@.subrange(s as int, i as int)) == split_ws(
                        q@.take(i as int),
                    )
                },
            },
        decreases n - i,
    {
        let c = q.get_char(i);
        proof {
            assert(q@.take(i as int + 1).drop_last() =~= q@.take(i as int));
            assert(q@.take(i as int + 1).last() == q@[i as int]);
        }
        if is_space_exec(c) {
            match run_start {
                None => {
                    assert(split_ws(q@.take(i as int + 1)) == split_ws(q@.take(i as int)));
                },
                Some(s) => {
                    let tok = q.substring_char(s, i).to_owned();
                    proof {
                        assert(seq_views(tokens@.push(tok)) =~= seq_views(tokens@).push(tok@));
                    }
                    tokens.push(tok);
                    run_start = None;
                    assert(split_ws(q@.take(i as int + 1)) == split_ws(q@.take(i as int)));
                },
            }
        } else {
            match run_start {
                None => {
                    proof {
                        let t1 = q@.take(i as int + 1);
                        if t1.len() >= 2 {
                            assert(t1[t1.len() - 2] == q@[i as int - 1]);
                        }
                        assert(split_ws(t1) == split_ws(q@.take(i as int)).push(seq![q@[i as int]]));
                        assert(q@.subrange(i as int, i as int + 1) =~= seq![q@[i as int]]);
                    }
                    run_start = Some(i);
                },
                Some(s) => {
                    proof {
                        let t1 = q@.take(i as int + 1);
                        assert(t1.len() >= 2);
                        assert(t1[t1.len() - 2] == q@[i as int - 1]);
                        assert(!is_space(q@[i as int - 1]));
                        let rest = split_ws(q@.take(i as int));
                        let pref = seq_views(tokens@);
                        let old_tok = q@.subrange(s as int, i as int);
                        assert(rest == pref.push(old_tok));
                        assert(rest.len() == pref.len() + 1);
                        assert(split_ws(t1) == rest.update(rest.len() - 1, rest.last().push(
                            q@[i as int],
                        )));
                        assert(rest.last() == old_tok);
                        assert(old_tok.push(q@[i as int]) =~= q@.subrange(s as int, i as int + 1));
                        assert(rest.update(rest.len() - 1, old_tok.push(q@[i as int])) =~= pref.push(
                            q@.subrange(s as int, i as int + 1),
                        ));
                    }
                },
            }
        }
        i = i + 1;
    }
    if let Some(s) = run_start {
        let tok = q.substring_char(s, n).to_owned();
        proof {
            assert(seq_views(tokens@.push(tok)) =~= seq_views(tokens@).push(tok@));
        }
        tokens.push(tok);
    }
    proof {
        assert(q@.take(n as int) =~= q@);
    }
    tokens
}

/// One scored item during ranking: the match count and the index of the
/// item in the backing collection.
#[derive(Clone, Copy)]
struct Scored {
    count: usize,
    idx: usize,
}

spec fn idxs(s: Seq<Scored>) -> Seq<int> {
    s.map_values(|p: Scored| p.idx as int)
}

/// Ranks the labels that match the query: the result lists the indices of
/// the labels with a positive score, by descending score, labels with
/// equal scores in their original order.
pub fn rank_items(labels: &Vec<String>, query: &str) -> (r: Vec<usize>)
    ensures
        r@.map_values(|u: usize| u as int) == rank(scores_of(query@, seq_views(labels@))),
        forall|a: int|
            0 <= a < r@.len() ==> hit(query@, seq_views(labels@)[#[trigger] r@[a] as int]),
{
    let tokens = split_query(query);
    let ghost qv = query@;
    let ghost lv = seq_views(labels@);
    let ghost scores = scores_of(qv, lv);
    let mut out: Vec<Scored> = Vec::new();
    let mut i: usize = 0;
    assert(idxs(out@) =~= rank_prefix(scores, 0));
    while i < labels.len()
        invariant
            i <= labels@.len(),
            seq_views(tokens@) == split_ws(qv),
            lv == seq_views(labels@),
            scores == scores_of(qv, lv),
            scores.len() == labels@.len(),
            idxs(out@) == rank_prefix(scores, i as int),
            forall|a: int|
                0 <= a < out@.len() ==> (#[trigger] out@[a]).count == scores[out@[a].idx as int],
            forall|a: int| 0 <= a < out@.len() ==> hit(qv, lv[(#[trigger] out@[a]).idx as int]),
        decreases labels@.len() - i,
    {
        let n = count_pattern_matches(&tokens, labels[i].as_str());
        proof {
            assert(labels@[i as int]@ == lv[i as int]);
            assert(n == scores[i as int]);
            lemma_rank_prefix_props(scores, i as int);
            if n > 0 {
                let kk = choose|kk: int|
                    0 <= kk < tokens@.len() && contains_ci(lv[i as int], tokens@[kk]@);
                assert(seq_views(tokens@)[kk] == tokens@[kk]@);
                assert(hit(qv, lv[i as int]));
            }
        }
        if n > 0 {
            let ghost r0 = idxs(out@);
            let mut k: usize = out.len();
            while k > 0 && out[k - 1].count < n
                invariant
                    k <= out@.len(),
                    forall|a: int| k <= a < out@.len() ==> (#[trigger] out@[a]).count < n,
                decreases k,
            {
                k = k - 1;
            }
            let ghost out0 = out@;
            proof {
                assert forall|a: int| 0 <= a < k implies scores[#[trigger] r0[a]]
                    >= scores[i as int] by {
                    assert(out0[k - 1].count >= n);
                    if a < k - 1 {
                        assert(ordered_before(scores, r0[a], r0[k - 1]));
                    }
                }
                assert forall|a: int| k <= a < r0.len() implies scores[#[trigger] r0[a]]
                    < scores[i as int] by {
                    assert(out0[a].count < n);
                }
                lemma_insert_ranked_at(r0, scores, i as int, k as int);
                lemma_insert_ranked(r0, scores, i as int);
            }
            out.insert(k, Scored { count: n, idx: i });
            proof {
                assert(out@ == out0.insert(k as int, Scored { count: n, idx: i }));
                assert forall|a: int| 0 <= a < out@.len() implies out@[a] == (if a < k {
                    out0[a]
                } else if a == k {
                    Scored { count: n, idx: i }
                } else {
                    out0[a - 1]
                }) by {
                    assert(out0.insert(k as int, Scored { count: n, idx: i })[a] == (if a < k {
                        out0[a]
                    } else if a == k {
                        Scored { count: n, idx: i }
                    } else {
                        out0[a - 1]
                    }));
                }
                assert(idxs(out@) =~= r0.insert(k as int, i as int));
                assert(idxs(out@) == rank_prefix(scores, i as int + 1));
            }
        } else {
            assert(rank_prefix(scores, i as int + 1) == rank_prefix(scores, i as int));
        }
        i = i + 1;
    }
    let mut r: Vec<usize> = Vec::new();
    let mut j: usize = 0;
    assert(r@.map_values(|u: usize| u as int) =~= idxs(out@).take(0));
    while j < out.len()
        invariant
            j <= out@.len(),
            r@.len() == j,
            r@.map_values(|u: usize| u as int) == idxs(out@).take(j as int),
            forall|a: int|
                0 <= a < out@.len() ==> (#[trigger] out@[a]).count == scores_of(
                    query@,
                    seq_views(labels@),
                )[out@[a].idx as int],
            forall|a: int|
                0 <= a < out@.len() ==> hit(query@, seq_views(labels@)[(#[trigger] out@[a]).idx
                    as int]),
            idxs(out@) == rank_prefix(
                scores_of(query@, seq_views(labels@)),
                labels@.len() as int,
            ),
            scores_of(query@, seq_views(labels@)).len() == labels@.len(),
        decreases out@.len() - j,
    {
        let v = out[j].idx;
        proof {
            assert(r@.push(v).map_values(|u: usize| u as int) =~= idxs(out@).take(j as int + 1));
        }
        r.push(v);
        j = j + 1;
    }
    proof {
        assert(idxs(out@).take(out@.len() as int) =~= idxs(out@));
        assert forall|a: int| 0 <= a < r@.len() implies hit(
            query@,
            seq_views(labels@)[#[trigger] r@[a] as int],
        ) by {
            assert(r@.map_values(|u: usize| u as int)[a] == idxs(out@)[a]);
            assert(r@[a] as int == out@[a].idx as int);
            assert(hit(query@, seq_views(labels@)[out@[a].idx as int]));
        }
    }
    r
}

} // verus!
