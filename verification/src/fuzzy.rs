//! The fuzzy filter behind the search view: every function whose name
//! matches the query (with spaces stripped) is kept, ranked by the match
//! score of an outside fuzzy matcher, ascending, ties keeping their input
//! order.

use vstd::multiset::Multiset;
use vstd::prelude::*;

use crate::model::{Lambda, LambdaV};

verus! {

/// What the fuzzy matcher answers for a name and a pattern: nothing when
/// the pattern does not match, otherwise the match score and the matched
/// character positions.  The answer is a function of the two strings alone.
pub uninterp spec fn fuzzy_match_of(choice: Seq<char>, pattern: Seq<char>) -> Option<
    (i64, Seq<usize>),
>;

/// Relies on `fuzzy_matcher`'s `SkimMatcherV2::fuzzy_indices` in its
/// default configuration: the result depends on the two strings alone; an
/// empty pattern matches everything with score 0 and no positions; on a
/// match, the matched positions are strictly increasing indices into the
/// choice string's characters.
#[verifier::external_body]
fn skim_fuzzy_indices(choice: &String, pattern: &Vec<char>) -> (r: Option<(i64, Vec<usize>)>)
    ensures
        r matches Some(m) ==> fuzzy_match_of(choice@, pattern@) == Some((m.0, m.1@)),
        r is None ==> fuzzy_match_of(choice@, pattern@) is None,
        r matches Some(m) ==> forall|k: int| 0 <= k < m.1@.len() ==> m.1@[k] < choice@.len(),
        r matches Some(m) ==> forall|k: int|
            0 <= k + 1 < m.1@.len() ==> #[trigger] m.1@[k] < m.1@[k + 1],
        r is None ==> pattern@.len() > 0,
        r matches Some(m) ==> (pattern@.len() == 0 ==> m.0 == 0 && m.1@.len() == 0),
{
    let matcher = fuzzy_matcher::skim::SkimMatcherV2::default();
    let pattern_text: String = pattern.iter().collect();
    fuzzy_matcher::FuzzyMatcher::fuzzy_indices(&matcher, choice.as_str(), &pattern_text)
}

/// `q` with every space removed.
pub open spec fn strip_spaces_spec(q: Seq<char>) -> Seq<char>
    decreases q.len(),
{
    if q.len() == 0 {
        q
    } else if q[0] == ' ' {
        strip_spaces_spec(q.drop_first())
    } else {
        seq![q[0]] + strip_spaces_spec(q.drop_first())
    }
}

/// Removes every space from `q`.
pub fn strip_spaces(q: &Vec<char>) -> (r: Vec<char>)
    ensures
        r@ == strip_spaces_spec(q@),
{
    let mut out: Vec<char> = Vec::new();
    let mut i: usize = 0;
    assert(q@.skip(0) =~= q@);
    while i < q.len()
        invariant
            i <= q@.len(),
            strip_spaces_spec(q@) =~= out@ + strip_spaces_spec(q@.skip(i as int)),
        decreases q@.len() - i,
    {
        let ghost pre = q@.skip(i as int);
        let ghost out0 = out@;
        proof {
            assert(pre[0] == q@[i as int]);
            assert(pre.drop_first() =~= q@.skip(i as int + 1));
        }
        let c = q[i];
        if c != ' ' {
            out.push(c);
            assert(out@ =~= out0.push(q@[i as int]));
        }
        i = i + 1;
        assert(strip_spaces_spec(q@) =~= out@ + strip_spaces_spec(q@.skip(i as int)));
    }
    assert(q@.skip(q@.len() as int) =~= Seq::<char>::empty());
    assert(out@ =~= strip_spaces_spec(q@));
    out
}

/// The functions of `ls` whose names match pattern `q`, in input order,
/// each with its match score and matched positions.
pub open spec fn ranked_matches(ls: Seq<LambdaV>, q: Seq<char>) -> Seq<(i64, Seq<usize>, LambdaV)>
    decreases ls.len(),
{
    if ls.len() == 0 {
        Seq::empty()
    } else {
        let rest = ranked_matches(ls.drop_first(), q);
        match fuzzy_match_of(ls[0].name, q) {
            Some(m) => seq![(m.0, m.1, ls[0])] + rest,
            None => rest,
        }
    }
}

/// Appending one function extends its ranked matches at the end.
pub proof fn lemma_ranked_matches_push(ls: Seq<LambdaV>, q: Seq<char>, l: LambdaV)
    ensures
        ranked_matches(ls.push(l), q) =~= ranked_matches(ls, q) + (match fuzzy_match_of(
            l.name,
            q,
        ) {
            Some(m) => seq![(m.0, m.1, l)],
            None => Seq::<(i64, Seq<usize>, LambdaV)>::empty(),
        }),
    decreases ls.len(),
{
    let pushed = ls.push(l);
    let tail = match fuzzy_match_of(l.name, q) {
        Some(m) => seq![(m.0, m.1, l)],
        None => Seq::<(i64, Seq<usize>, LambdaV)>::empty(),
    };
    if ls.len() == 0 {
        assert(pushed[0] == l);
        assert(pushed.drop_first() =~= Seq::<LambdaV>::empty());
        assert(ranked_matches(pushed.drop_first(), q) =~= Seq::<
            (i64, Seq<usize>, LambdaV),
        >::empty());
        assert(ls =~= Seq::<LambdaV>::empty());
        assert(ranked_matches(ls, q) =~= Seq::<(i64, Seq<usize>, LambdaV)>::empty());
        match fuzzy_match_of(l.name, q) {
            Some(m) => {
                assert(ranked_matches(pushed, q) =~= seq![(m.0, m.1, l)]);
            },
            None => {
                assert(ranked_matches(pushed, q) =~= Seq::<(i64, Seq<usize>, LambdaV)>::empty());
            },
        }
        assert(ranked_matches(pushed, q) =~= ranked_matches(ls, q) + tail);
    } else {
        assert(pushed[0] == ls[0]);
        assert(pushed.drop_first() =~= ls.drop_first().push(l));
        lemma_ranked_matches_push(ls.drop_first(), q, l);
        let rest = ranked_matches(ls.drop_first(), q);
        assert(ranked_matches(pushed.drop_first(), q) =~= rest + tail);
        match fuzzy_match_of(ls[0].name, q) {
            Some(m0) => {
                assert(ranked_matches(pushed, q) =~= seq![(m0.0, m0.1, ls[0])] + (rest + tail));
                assert(ranked_matches(ls, q) =~= seq![(m0.0, m0.1, ls[0])] + rest);
            },
            None => {
                assert(ranked_matches(pushed, q) =~= rest + tail);
                assert(ranked_matches(ls, q) =~= rest);
            },
        }
        assert(ranked_matches(pushed, q) =~= ranked_matches(ls, q) + tail);
    }
}

/// `x` inserted into `s` after every entry whose score is at most `x`'s:
/// the insertion step of a stable ascending sort by score.
pub open spec fn insert_by_score(
    x: (i64, Seq<usize>, LambdaV),
    s: Seq<(i64, Seq<usize>, LambdaV)>,
) -> Seq<(i64, Seq<usize>, LambdaV)>
    decreases s.len(),
{
    if s.len() == 0 {
        seq![x]
    } else if s.last().0 <= x.0 {
        s.push(x)
    } else {
        insert_by_score(x, s.drop_last()).push(s.last())
    }
}

/// `s` sorted ascending by score, stably: entries are inserted in input
/// order, each after all entries with a score at most its own.
pub open spec fn sort_by_score(s: Seq<(i64, Seq<usize>, LambdaV)>) -> Seq<
    (i64, Seq<usize>, LambdaV),
>
    decreases s.len(),
{
    if s.len() == 0 {
        Seq::empty()
    } else {
        insert_by_score(s.last(), sort_by_score(s.drop_last()))
    }
}

/// Whether `s` is sorted ascending by score.
pub open spec fn sorted_by_score(s: Seq<(i64, Seq<usize>, LambdaV)>) -> bool {
    forall|a: int, b: int| 0 <= a < b < s.len() ==> #[trigger] s[a].0 <= #[trigger] s[b].0
}

/// Inserting into a sorted sequence keeps it sorted and only adds the new
/// entry to its contents.
pub proof fn lemma_insert_by_score_sorted(
    x: (i64, Seq<usize>, LambdaV),
    s: Seq<(i64, Seq<usize>, LambdaV)>,
)
    requires
        sorted_by_score(s),
    ensures
        sorted_by_score(insert_by_score(x, s)),
        insert_by_score(x, s).to_multiset() =~= s.to_multiset().insert(x),
        insert_by_score(x, s).len() == s.len() + 1,
    decreases s.len(),
{
    broadcast use vstd::seq_lib::group_to_multiset_ensures;

    if s.len() == 0 {
        assert(seq![x] =~= Seq::<(i64, Seq<usize>, LambdaV)>::empty().push(x));
        assert(Seq::<(i64, Seq<usize>, LambdaV)>::empty().to_multiset() =~= Multiset::empty());
    } else if s.last().0 <= x.0 {
        assert(forall|a: int| 0 <= a < s.len() ==> #[trigger] s[a].0 <= s.last().0);
        assert(sorted_by_score(s.push(x)));
    } else {
        let shorter = s.drop_last();
        assert(sorted_by_score(shorter)) by {
            assert(forall|a: int| 0 <= a < shorter.len() ==> shorter[a] == s[a]);
        }
        lemma_insert_by_score_sorted(x, shorter);
        let inner = insert_by_score(x, shorter);
        let r = inner.push(s.last());
        assert forall|a: int, b: int| 0 <= a < b < r.len() implies #[trigger] r[a].0
            <= #[trigger] r[b].0 by {
            if b < r.len() - 1 {
                assert(r[a] == inner[a] && r[b] == inner[b]);
            } else {
                assert(r[b] == s.last());
                if a < r.len() - 1 {
                    assert(r[a] == inner[a]);
                    assert(inner.to_multiset().count(inner[a]) > 0);
                    assert(shorter.to_multiset().insert(x).count(inner[a]) > 0);
                    if inner[a] == x {
                        assert(r[a].0 <= r[b].0);
                    } else {
                        assert(shorter.to_multiset().count(inner[a]) > 0);
                        assert(shorter.contains(inner[a]));
                    }
                }
            }
        }
        assert(shorter.push(s.last()) =~= s);
        assert(s.to_multiset() =~= shorter.to_multiset().insert(s.last()));
        assert(r.to_multiset() =~= inner.to_multiset().insert(s.last()));
        assert(r.to_multiset() =~= s.to_multiset().insert(x));
    }
}

/// The stable sort yields an ascending permutation of its input.
pub proof fn lemma_sort_by_score_sorted(s: Seq<(i64, Seq<usize>, LambdaV)>)
    ensures
        sorted_by_score(sort_by_score(s)),
        sort_by_score(s).to_multiset() =~= s.to_multiset(),
        sort_by_score(s).len() == s.len(),
    decreases s.len(),
{
    broadcast use vstd::seq_lib::group_to_multiset_ensures;

    if s.len() == 0 {
    } else {
        lemma_sort_by_score_sorted(s.drop_last());
        lemma_insert_by_score_sorted(s.last(), sort_by_score(s.drop_last()));
        assert(s.drop_last().push(s.last()) =~= s);
        assert(s.to_multiset() =~= s.drop_last().to_multiset().insert(s.last()));
    }
}

/// The ranked entries of `s` without their scores, in order.
pub open spec fn match_payloads(s: Seq<(i64, Seq<usize>, LambdaV)>) -> Seq<(Seq<usize>, LambdaV)> {
    s.map_values(|t: (i64, Seq<usize>, LambdaV)| (t.1, t.2))
}

/// What the fuzzy filter shows for the function list `ls` and the raw query
/// `q`: the matches of the space-stripped query, sorted ascending by score
/// (stably), scores dropped.
pub open spec fn fuzzy_sorted(ls: Seq<LambdaV>, q: Seq<char>) -> Seq<(Seq<usize>, LambdaV)> {
    match_payloads(sort_by_score(ranked_matches(ls, strip_spaces_spec(q))))
}

/// Inserts `entry` into `sorted`, which is ascending by score, after every
/// entry whose score is at most its own.
fn insert_ranked(
    sorted: &mut Vec<(i64, Vec<usize>, Lambda)>,
    entry: (i64, Vec<usize>, Lambda),
)
    ensures
        final(sorted).deep_view() == insert_by_score(entry.deep_view(), old(sorted).deep_view()),
{
    let ghost s0 = old(sorted).deep_view();
    let ghost x = entry.deep_view();
    let mut k: usize = sorted.len();
    while k > 0 && sorted[k - 1].0 > entry.0
        invariant
            k <= sorted@.len(),
            sorted.deep_view() == s0,
            x == entry.deep_view(),
            forall|m: int| k <= m < s0.len() ==> #[trigger] s0[m].0 > x.0,
        decreases k,
    {
        assert(s0[k - 1].0 == sorted@[k - 1].0);
        k = k - 1;
    }
    proof {
        if k > 0 {
            assert(sorted@[k - 1].0 == s0[k - 1].0);
        }
        lemma_insert_by_score_split(x, s0, k as int);
    }
    sorted.insert(k, entry);
    assert(sorted.deep_view() =~~= s0.take(k as int) + seq![x] + s0.skip(k as int));
}

/// Where every entry from position `k` on scores above `x` and the entry
/// before `k` (if any) does not, inserting `x` lands it exactly at `k`.
proof fn lemma_insert_by_score_split(
    x: (i64, Seq<usize>, LambdaV),
    s: Seq<(i64, Seq<usize>, LambdaV)>,
    k: int,
)
    requires
        0 <= k <= s.len(),
        forall|m: int| k <= m < s.len() ==> #[trigger] s[m].0 > x.0,
        k > 0 ==> s[k - 1].0 <= x.0,
    ensures
        insert_by_score(x, s) =~~= s.take(k) + seq![x] + s.skip(k),
    decreases s.len(),
{
    if s.len() == 0 {
        assert(s.take(0) =~= Seq::<(i64, Seq<usize>, LambdaV)>::empty());
        assert(s.skip(0) =~= Seq::<(i64, Seq<usize>, LambdaV)>::empty());
    } else if s.last().0 <= x.0 {
        assert(k == s.len());
        assert(s.take(k) =~= s);
        assert(s.skip(k) =~= Seq::<(i64, Seq<usize>, LambdaV)>::empty());
        assert(insert_by_score(x, s) == s.push(x));
        assert(s.push(x) =~~= s.take(k) + seq![x] + s.skip(k));
    } else {
        assert(k < s.len());
        let shorter = s.drop_last();
        lemma_insert_by_score_split(x, shorter, k);
        assert(shorter.take(k) =~= s.take(k));
        assert(shorter.skip(k).push(s.last()) =~= s.skip(k));
        assert(insert_by_score(x, s) == insert_by_score(x, shorter).push(s.last()));
        assert(insert_by_score(x, shorter).push(s.last()) =~~= s.take(k) + seq![x] + s.skip(k));
    }
}

/// Filters `input` by fuzzy-matching each function's name against `query`
/// (spaces stripped), and returns the matches sorted ascending by score,
/// stably, each with its matched character positions.
pub fn fuzzy_sort_lambdas(input: &Vec<Lambda>, query: &Vec<char>) -> (r: Vec<
    (Vec<usize>, Lambda),
>)
    ensures
        r.deep_view() == fuzzy_sorted(input.deep_view(), query@),
{
    let pattern = strip_spaces(query);
    let mut sorted: Vec<(i64, Vec<usize>, Lambda)> = Vec::new();
    let mut i: usize = 0;
    assert(input.deep_view().take(0) =~= Seq::<LambdaV>::empty());
    while i < input.len()
        invariant
            i <= input@.len(),
            input@.len() == input.deep_view().len(),
            pattern@ == strip_spaces_spec(query@),
            sorted.deep_view() == sort_by_score(
                ranked_matches(input.deep_view().take(i as int), pattern@),
            ),
        decreases input@.len() - i,
    {
        let ghost prefix = input.deep_view().take(i as int);
        let ghost lv = input.deep_view()[i as int];
        let l = &input[i];
        assert(l@ == lv);
        let answer = skim_fuzzy_indices(&l.name, &pattern);
        proof {
            lemma_ranked_matches_push(prefix, pattern@, lv);
            assert(input.deep_view().take(i as int + 1) =~= prefix.push(lv));
        }
        match answer {
            Some(m) => {
                let entry = (m.0, m.1, l.clone());
                assert(entry.deep_view() == (m.0, m.1@, lv));
                let ghost ranked = ranked_matches(prefix, pattern@);
                proof {
                    assert(ranked_matches(prefix.push(lv), pattern@) =~= ranked.push(
                        entry.deep_view(),
                    ));
                    assert(sort_by_score(ranked.push(entry.deep_view()))
                        == insert_by_score(entry.deep_view(), sort_by_score(ranked))) by {
                        assert(ranked.push(entry.deep_view()).drop_last() =~= ranked);
                    }
                }
                insert_ranked(&mut sorted, entry);
            },
            None => {
                proof {
                    assert(ranked_matches(prefix.push(lv), pattern@) =~= ranked_matches(
                        prefix,
                        pattern@,
                    ));
                }
            },
        }
        i = i + 1;
    }
    assert(input.deep_view().take(input@.len() as int) =~= input.deep_view());
    let mut out: Vec<(Vec<usize>, Lambda)> = Vec::new();
    let mut j: usize = 0;
    let ghost sv = sorted.deep_view();
    let ghost mp = match_payloads(sv);
    assert(mp.len() == sv.len());
    while j < sorted.len()
        invariant
            j <= sorted@.len(),
            sorted@.len() == sv.len(),
            sv == sorted.deep_view(),
            mp == match_payloads(sv),
            mp.len() == sv.len(),
            out.deep_view() =~~= mp.take(j as int),
        decreases sorted@.len() - j,
    {
        let ghost out0 = out.deep_view();
        let entry = &sorted[j];
        assert(entry.deep_view() == sv[j as int]);
        let indices = entry.1.clone();
        assert(indices@ =~= entry.1@);
        let lambda = entry.2.clone();
        let ghost iv = indices@;
        let ghost ldv = lambda@;
        out.push((indices, lambda));
        j = j + 1;
        proof {
            assert(mp[j - 1] == (sv[j - 1].1, sv[j - 1].2));
            assert(mp.take(j as int) =~= mp.take(j as int - 1).push(mp[j - 1]));
            assert(out.deep_view() =~~= out0.push((iv, ldv)));
            assert(out.deep_view() =~~= mp.take(j as int));
        }
    }
    assert(mp.take(sv.len() as int) =~= mp);
    assert(out.deep_view() =~~= fuzzy_sorted(input.deep_view(), query@));
    out
}

} // verus!
