use vstd::prelude::*;
use crate::error::MitamaError;

verus! {

/// `x` placed before the first element of `s` that is not below it.
pub open spec fn insert_sorted(x: u8, s: Seq<u8>) -> Seq<u8>
    decreases s.len(),
{
    if s.len() == 0 {
        seq![x]
    } else if x <= s[0] {
        seq![x] + s
    } else {
        seq![s[0]] + insert_sorted(x, s.drop_first())
    }
}

/// The scores in ascending order (insertion sort).
pub open spec fn sorted_scores(s: Seq<u8>) -> Seq<u8>
    decreases s.len(),
{
    if s.len() == 0 {
        Seq::<u8>::empty()
    } else {
        insert_sorted(s.last(), sorted_scores(s.drop_last()))
    }
}

pub open spec fn ascending(s: Seq<u8>) -> bool {
    forall|i: int, j: int| 0 <= i <= j < s.len() ==> s[i] <= s[j]
}

pub open spec fn score_distance(a: u8, b: u8) -> int {
    if a > b {
        a - b
    } else {
        b - a
    }
}

/// The scores of `s`, in order, that lie within `max_deviation` of `median`.
pub open spec fn within_deviation(s: Seq<u8>, median: u8, max_deviation: u8) -> Seq<u8>
    decreases s.len(),
{
    if s.len() == 0 {
        Seq::<u8>::empty()
    } else {
        let rest = within_deviation(s.drop_last(), median, max_deviation);
        if score_distance(s.last(), median) <= max_deviation {
            rest.push(s.last())
        } else {
            rest
        }
    }
}

/// The agreed score of a set of submissions: the mean of two, or for three and more
/// the median of those within `max_deviation` of the overall median.
pub open spec fn consensus_score(scores: Seq<u8>, max_deviation: u8) -> Result<u8, MitamaError> {
    let sorted = sorted_scores(scores);
    if scores.len() < 2 {
        Err(MitamaError::InsufficientOracleConsensus)
    } else if scores.len() == 2 {
        Ok(((sorted[0] + sorted[1]) / 2) as u8)
    } else {
        let median = sorted[(sorted.len() / 2) as int];
        let valid = within_deviation(sorted, median, max_deviation);
        if valid.len() < 2 {
            Err(MitamaError::NoConsensusReached)
        } else {
            Ok(valid[(valid.len() - 1) / 2])
        }
    }
}

proof fn lemma_insert_at_first_not_below(x: u8, s: Seq<u8>, p: int)
    requires
        0 <= p <= s.len(),
        forall|j: int| 0 <= j < p ==> s[j] < x,
        p < s.len() ==> x <= s[p],
    ensures
        insert_sorted(x, s) == s.insert(p, x),
    decreases p,
{
    if p == 0 {
        if s.len() == 0 {
            assert(s.insert(0, x) =~= seq![x]);
        } else {
            assert(s.insert(0, x) =~= seq![x] + s);
        }
    } else {
        let t = s.drop_first();
        lemma_insert_at_first_not_below(x, t, p - 1);
        assert(s.insert(p, x) =~= seq![s[0]] + t.insert(p - 1, x));
    }
}

proof fn lemma_insert_sorted_len(x: u8, s: Seq<u8>)
    ensures
        insert_sorted(x, s).len() == s.len() + 1,
    decreases s.len(),
{
    if s.len() > 0 && x > s[0] {
        lemma_insert_sorted_len(x, s.drop_first());
    }
}

/// Sorting keeps the number of scores.
pub proof fn lemma_sorted_scores_len(s: Seq<u8>)
    ensures
        sorted_scores(s).len() == s.len(),
    decreases s.len(),
{
    if s.len() > 0 {
        lemma_sorted_scores_len(s.drop_last());
        lemma_insert_sorted_len(s.last(), sorted_scores(s.drop_last()));
    }
}

proof fn lemma_prepend_multiset(a: u8, t: Seq<u8>)
    ensures
        (seq![a] + t).to_multiset() == t.to_multiset().insert(a),
{
    broadcast use vstd::seq_lib::group_to_multiset_ensures;
    broadcast use vstd::multiset::group_multiset_axioms;

    vstd::seq_lib::lemma_multiset_commutative(seq![a], t);
    assert(seq![a] =~= Seq::<u8>::empty().push(a));
    assert((seq![a] + t).to_multiset() =~= t.to_multiset().insert(a));
}

proof fn lemma_insert_sorted_ascending(x: u8, s: Seq<u8>)
    requires
        ascending(s),
    ensures
        ascending(insert_sorted(x, s)),
        insert_sorted(x, s).to_multiset() == s.to_multiset().insert(x),
    decreases s.len(),
{
    broadcast use vstd::seq_lib::group_to_multiset_ensures;

    if s.len() == 0 {
        assert(seq![x] =~= Seq::<u8>::empty().push(x));
    } else if x <= s[0] {
        lemma_prepend_multiset(x, s);
    } else {
        let t = s.drop_first();
        lemma_insert_sorted_ascending(x, t);
        lemma_insert_sorted_len(x, t);
        let r = insert_sorted(x, t);
        let whole = seq![s[0]] + r;
        assert forall|i: int, j: int| 0 <= i <= j < whole.len() implies whole[i] <= whole[j] by {
            if i == 0 && j > 0 {
                assert(r.to_multiset().count(whole[j]) > 0) by {
                    assert(r.contains(r[j - 1]));
                }
                assert(t.to_multiset().insert(x).count(r[j - 1]) > 0);
                if r[j - 1] != x {
                    assert(t.contains(r[j - 1]));
                    let k = choose|k: int| 0 <= k < t.len() && t[k] == r[j - 1];
                    assert(s[k + 1] == t[k]);
                }
            }
        }
        lemma_prepend_multiset(s[0], r);
        lemma_prepend_multiset(s[0], t);
        assert(s =~= seq![s[0]] + t);
        assert(whole.to_multiset() =~= s.to_multiset().insert(x));
    }
}

/// The ascending order is ascending and holds the same scores, each as often.
pub proof fn lemma_sorted_scores_is_sorted_permutation(s: Seq<u8>)
    ensures
        ascending(sorted_scores(s)),
        sorted_scores(s).to_multiset() == s.to_multiset(),
    decreases s.len(),
{
    broadcast use vstd::seq_lib::group_to_multiset_ensures;

    if s.len() == 0 {
    } else {
        lemma_sorted_scores_is_sorted_permutation(s.drop_last());
        lemma_insert_sorted_ascending(s.last(), sorted_scores(s.drop_last()));
        assert(s =~= s.drop_last().push(s.last()));
    }
}

/// Inserts `x` before the first element of `v` that is not below it.
fn insert_in_order(v: &mut Vec<u8>, x: u8)
    ensures
        final(v)@ == insert_sorted(x, old(v)@),
{
    let mut p: usize = 0;
    while p < v.len() && v[p] < x
        invariant
            0 <= p <= v.len(),
            forall|j: int| 0 <= j < p ==> v@[j] < x,
        decreases v.len() - p,
    {
        p = p + 1;
    }
    proof {
        lemma_insert_at_first_not_below(x, v@, p as int);
    }
    v.insert(p, x);
}

/// The scores in ascending order.
pub fn sort_scores(scores: &Vec<u8>) -> (r: Vec<u8>)
    ensures
        r@ == sorted_scores(scores@),
{
    let mut out: Vec<u8> = Vec::new();
    let mut i: usize = 0;
    while i < scores.len()
        invariant
            0 <= i <= scores.len(),
            out@ == sorted_scores(scores@.take(i as int)),
        decreases scores.len() - i,
    {
        insert_in_order(&mut out, scores[i]);
        proof {
            let next = scores@.take(i + 1);
            assert(next.drop_last() =~= scores@.take(i as int));
            assert(next.last() == scores@[i as int]);
        }
        i = i + 1;
    }
    assert(scores@.take(scores.len() as int) =~= scores@);
    out
}

/// The scores of `sorted`, in order, within `max_deviation` of `median`.
fn filter_within_deviation(sorted: &Vec<u8>, median: u8, max_deviation: u8) -> (r: Vec<u8>)
    ensures
        r@ == within_deviation(sorted@, median, max_deviation),
{
    let mut valid: Vec<u8> = Vec::new();
    let mut i: usize = 0;
    while i < sorted.len()
        invariant
            0 <= i <= sorted.len(),
            valid@ == within_deviation(sorted@.take(i as int), median, max_deviation),
        decreases sorted.len() - i,
    {
        let score = sorted[i];
        let diff: u8 = if score > median {
            score - median
        } else {
            median - score
        };
        if diff <= max_deviation {
            valid.push(score);
        }
        proof {
            let next = sorted@.take(i + 1);
            assert(next.drop_last() =~= sorted@.take(i as int));
            assert(next.last() == score);
        }
        i = i + 1;
    }
    assert(sorted@.take(sorted.len() as int) =~= sorted@);
    valid
}

proof fn lemma_within_deviation_len(s: Seq<u8>, median: u8, max_deviation: u8)
    ensures
        within_deviation(s, median, max_deviation).len() <= s.len(),
    decreases s.len(),
{
    if s.len() > 0 {
        lemma_within_deviation_len(s.drop_last(), median, max_deviation);
    }
}

/// Reduces independently submitted quality scores to one agreed score.
/// Fewer than two scores fail with `InsufficientOracleConsensus`; when fewer than
/// two lie within `max_deviation` of the median, it fails with `NoConsensusReached`.
pub fn calculate_consensus_score(scores: &Vec<u8>, max_deviation: u8) -> (r: Result<u8, MitamaError>)
    ensures
        r == consensus_score(scores@, max_deviation),
{
    if scores.len() < 2 {
        return Err(MitamaError::InsufficientOracleConsensus);
    }
    let sorted = sort_scores(scores);
    proof {
        lemma_sorted_scores_len(scores@);
    }
    if scores.len() == 2 {
        let avg: u16 = (sorted[0] as u16 + sorted[1] as u16) / 2;
        return Ok(avg as u8);
    }
    let median = sorted[sorted.len() / 2];
    let valid = filter_within_deviation(&sorted, median, max_deviation);
    proof {
        lemma_within_deviation_len(sorted@, median, max_deviation);
    }
    if valid.len() < 2 {
        return Err(MitamaError::NoConsensusReached);
    }
    Ok(valid[(valid.len() - 1) / 2])
}

} // verus!
