use vstd::prelude::*;
use vstd::seq_lib::*;

verus! {

/// One row of a search answer. `similarity` is the IEEE-754 single-precision
/// bit pattern of the cosine similarity between the query and the stored
/// vector `id`.
#[derive(Debug, Clone, Copy)]
pub struct SearchResult {
    pub id: i64,
    pub similarity: u32,
}

/// The bit pattern without its sign bit.
pub open spec fn magnitude(bits: u32) -> int {
    if bits >= 0x8000_0000 {
        bits - 0x8000_0000
    } else {
        bits as int
    }
}

/// Whether the bit pattern is no number: all exponent bits set and a
/// fraction that is not zero.
pub open spec fn is_nan(bits: u32) -> bool {
    magnitude(bits) > 0x7f80_0000
}

/// An integer that orders bit patterns as the numbers they stand for are
/// ordered: a positive number by its magnitude, a negative one by its
/// magnitude negated, both zeros as zero. What is no number gets a place
/// below every number, so that it comes last in a descending list.
pub open spec fn order_key(bits: u32) -> int {
    if is_nan(bits) {
        -0x8000_0000
    } else if bits >= 0x8000_0000 {
        -magnitude(bits)
    } else {
        magnitude(bits)
    }
}

/// Whether a similarity reaches a threshold. Nothing reaches a threshold
/// that is no number, and what is no number reaches no threshold.
pub open spec fn meets_threshold(similarity: u32, threshold: u32) -> bool {
    !is_nan(similarity) && !is_nan(threshold) && order_key(similarity) >= order_key(threshold)
}

/// Similarities never increase from one row to the next.
pub open spec fn descending(s: Seq<SearchResult>) -> bool {
    forall|i: int, j: int|
        0 <= i <= j < s.len() ==> order_key(#[trigger] s[i].similarity) >= order_key(
            #[trigger] s[j].similarity,
        )
}

/// `full` holds the rows of `all`, each as often as `all` does, in
/// descending order.
pub open spec fn is_ranking(all: Seq<SearchResult>, full: Seq<SearchResult>) -> bool {
    full.to_multiset() == all.to_multiset() && descending(full)
}

/// How many rows a search for `k` among `n` candidates returns.
pub open spec fn answer_len(n: nat, k: nat) -> nat {
    if k <= n {
        k
    } else {
        n
    }
}

/// `result` is the first `k` rows of some ranking of `candidates`, or the
/// whole ranking where it has fewer than `k` rows. Rows of equal similarity
/// may stand in either order.
pub open spec fn is_top(result: Seq<SearchResult>, candidates: Seq<SearchResult>, k: nat) -> bool {
    exists|full: Seq<SearchResult>|
        #![trigger is_ranking(candidates, full)]
        is_ranking(candidates, full) && result == full.take(
            answer_len(full.len(), k) as int,
        )
}

/// The candidates whose similarity reaches the threshold, in their order.
pub open spec fn reaching(candidates: Seq<SearchResult>, threshold: u32) -> Seq<SearchResult> {
    candidates.filter(|c: SearchResult| meets_threshold(c.similarity, threshold))
}

/// The bit pattern of the widest tolerance of a norm window: three tenths,
/// as the nearest single-precision number.
pub const WIDEST_TOLERANCE: u32 = 0x3e99_999a;

/// The tolerance of the norm window of a search with a threshold, given
/// `slack`, which is one minus the threshold: the slack where it is a
/// number below the widest tolerance, and the widest tolerance otherwise.
pub open spec fn tolerance_of(slack: u32) -> u32 {
    if !is_nan(slack) && order_key(slack) < order_key(WIDEST_TOLERANCE) {
        slack
    } else {
        WIDEST_TOLERANCE
    }
}

/// Computes the tolerance of the norm window of a search with a threshold
/// from one minus the threshold.
pub fn window_tolerance(slack: u32) -> (t: u32)
    ensures
        t == tolerance_of(slack),
{
    if !similarity_is_nan(slack) && similarity_key(slack) < similarity_key(WIDEST_TOLERANCE) {
        slack
    } else {
        WIDEST_TOLERANCE
    }
}

/// Computes the ordering integer of a bit pattern.
pub fn similarity_key(bits: u32) -> (key: i64)
    ensures
        key == order_key(bits),
{
    let negative: bool = bits >= 0x8000_0000;
    let m: u32 = if negative {
        bits - 0x8000_0000
    } else {
        bits
    };
    if m > 0x7f80_0000 {
        -0x8000_0000
    } else if negative {
        -(m as i64)
    } else {
        m as i64
    }
}

/// Tells whether a bit pattern is no number.
pub fn similarity_is_nan(bits: u32) -> (r: bool)
    ensures
        r == is_nan(bits),
{
    let m: u32 = if bits >= 0x8000_0000 {
        bits - 0x8000_0000
    } else {
        bits
    };
    m > 0x7f80_0000
}

/// Tells whether a similarity reaches a threshold.
pub fn reaches_threshold(similarity: u32, threshold: u32) -> (r: bool)
    ensures
        r == meets_threshold(similarity, threshold),
{
    !similarity_is_nan(similarity) && !similarity_is_nan(threshold) && similarity_key(similarity)
        >= similarity_key(threshold)
}

/// In a descending list whose first `k` rows all reach `key`, there is a
/// place at or after `k` where a row of that key keeps the list descending.
proof fn lemma_place_after(full: Seq<SearchResult>, key: int, k: int) -> (p: int)
    requires
        descending(full),
        0 <= k <= full.len(),
        forall|q: int| 0 <= q < k ==> order_key(#[trigger] full[q].similarity) >= key,
    ensures
        k <= p <= full.len(),
        forall|q: int| 0 <= q < p ==> order_key(#[trigger] full[q].similarity) >= key,
        forall|q: int| p <= q < full.len() ==> order_key(#[trigger] full[q].similarity) <= key,
    decreases full.len() - k,
{
    if k == full.len() {
        k
    } else if order_key(full[k].similarity) < key {
        assert forall|q: int| k <= q < full.len() implies order_key(
            #[trigger] full[q].similarity,
        ) <= key by {
            assert(order_key(full[k].similarity) >= order_key(full[q].similarity));
        }
        k
    } else {
        lemma_place_after(full, key, k + 1)
    }
}

/// Putting a row at a place where everything before reaches its key and
/// nothing after exceeds it keeps a list descending.
proof fn lemma_insert_descending(full: Seq<SearchResult>, p: int, x: SearchResult)
    requires
        descending(full),
        0 <= p <= full.len(),
        forall|q: int|
            0 <= q < p ==> order_key(#[trigger] full[q].similarity) >= order_key(x.similarity),
        forall|q: int|
            p <= q < full.len() ==> order_key(#[trigger] full[q].similarity) <= order_key(
                x.similarity,
            ),
    ensures
        descending(full.insert(p, x)),
{
    let g = full.insert(p, x);
    assert forall|i: int, j: int| 0 <= i <= j < g.len() implies order_key(
        #[trigger] g[i].similarity,
    ) >= order_key(#[trigger] g[j].similarity) by {
        if i < p {
            assert(g[i] == full[i]);
        } else if i > p {
            assert(g[i] == full[i - 1]);
        }
        if j < p {
            assert(g[j] == full[j]);
        } else if j > p {
            assert(g[j] == full[j - 1]);
        }
    }
}

/// What a search returns never increases in similarity, and holds as many
/// rows as were asked for, or every candidate where there are fewer.
pub proof fn lemma_top_is_descending(
    result: Seq<SearchResult>,
    candidates: Seq<SearchResult>,
    k: nat,
)
    requires
        is_top(result, candidates, k),
    ensures
        descending(result),
        result.len() == answer_len(candidates.len(), k),
{
    broadcast use group_to_multiset_ensures;

    let full = choose|full: Seq<SearchResult>|
        #![trigger is_ranking(candidates, full)]
        is_ranking(candidates, full) && result == full.take(answer_len(full.len(), k) as int);
    assert(full.len() == candidates.len()) by {
        assert(full.to_multiset().len() == candidates.to_multiset().len());
    }
    assert forall|i: int, j: int| 0 <= i <= j < result.len() implies order_key(
        #[trigger] result[i].similarity,
    ) >= order_key(#[trigger] result[j].similarity) by {
        assert(result[i] == full[i]);
        assert(result[j] == full[j]);
    }
}

/// A search for no rows returns none, whatever the candidates.
pub proof fn lemma_top_of_none(result: Seq<SearchResult>, candidates: Seq<SearchResult>)
    requires
        is_top(result, candidates, 0),
    ensures
        result.len() == 0,
{
    lemma_top_is_descending(result, candidates, 0);
}

/// A search for at least as many rows as there are candidates returns
/// every candidate, each as often as it was given, and still in descending
/// order.
pub proof fn lemma_top_of_all(result: Seq<SearchResult>, candidates: Seq<SearchResult>, k: nat)
    requires
        is_top(result, candidates, k),
        k >= candidates.len(),
    ensures
        result.len() == candidates.len(),
        result.to_multiset() == candidates.to_multiset(),
        descending(result),
{
    broadcast use group_to_multiset_ensures;

    lemma_top_is_descending(result, candidates, k);
    let full = choose|full: Seq<SearchResult>|
        #![trigger is_ranking(candidates, full)]
        is_ranking(candidates, full) && result == full.take(answer_len(full.len(), k) as int);
    assert(full.len() == candidates.len()) by {
        assert(full.to_multiset().len() == candidates.to_multiset().len());
    }
    assert(result =~= full);
}

/// A search leaves out no candidate that is more similar than one of the
/// rows it returns.
pub proof fn lemma_top_holds_the_highest(
    result: Seq<SearchResult>,
    candidates: Seq<SearchResult>,
    k: nat,
    c: SearchResult,
    i: int,
)
    requires
        is_top(result, candidates, k),
        candidates.contains(c),
        0 <= i < result.len(),
        order_key(c.similarity) > order_key(result[i].similarity),
    ensures
        result.contains(c),
{
    broadcast use group_to_multiset_ensures;

    let full = choose|full: Seq<SearchResult>|
        #![trigger is_ranking(candidates, full)]
        is_ranking(candidates, full) && result == full.take(answer_len(full.len(), k) as int);
    assert(candidates.to_multiset().contains(c));
    assert(full.to_multiset().contains(c));
    assert(full.contains(c));
    let j = choose|j: int| 0 <= j < full.len() && full[j] == c;
    assert(result[i] == full[i]);
    if j >= result.len() {
        assert(order_key(full[i].similarity) >= order_key(full[j].similarity));
    }
    assert(result[j] == c);
}

/// Ranks search candidates: the `k` of highest similarity, highest first;
/// all of them, highest first, where there are fewer than `k`. What is no
/// number counts as lower than every number.
pub fn rank_results(candidates: &Vec<SearchResult>, k: usize) -> (result: Vec<SearchResult>)
    ensures
        is_top(result@, candidates@, k as nat),
        result@.len() == answer_len(candidates@.len(), k as nat),
        descending(result@),
{
    let mut top: Vec<SearchResult> = Vec::new();
    let ghost mut full: Seq<SearchResult> = Seq::empty();
    let mut i: usize = 0;
    proof {
        assert(candidates@.take(0) =~= Seq::<SearchResult>::empty());
    }
    while i < candidates.len()
        invariant
            0 <= i <= candidates@.len(),
            is_ranking(candidates@.take(i as int), full),
            full.len() == i,
            top@ == full.take(answer_len(full.len(), k as nat) as int),
        decreases candidates@.len() - i,
    {
        let x: SearchResult = candidates[i];
        let key: i64 = similarity_key(x.similarity);
        let mut p: usize = 0;
        while p < top.len() && similarity_key(top[p].similarity) >= key
            invariant
                0 <= p <= top@.len(),
                forall|q: int| 0 <= q < p ==> order_key(#[trigger] top@[q].similarity) >= key,
            decreases top@.len() - p,
        {
            p += 1;
        }
        let ghost place: int;
        proof {
            broadcast use group_to_multiset_ensures;

            assert(descending(full));
            assert forall|q: int| 0 <= q < p implies order_key(#[trigger] full[q].similarity)
                >= key by {
                assert(full[q] == top@[q]);
            }
            if p < top@.len() {
                place = p as int;
                assert(full[p as int] == top@[p as int]);
                assert forall|q: int| p <= q < full.len() implies order_key(
                    #[trigger] full[q].similarity,
                ) <= key by {
                    assert(order_key(full[p as int].similarity) >= order_key(full[q].similarity));
                }
            } else {
                place = lemma_place_after(full, key as int, p as int);
            }
            lemma_insert_descending(full, place, x);
            assert(candidates@.take(i + 1) =~= candidates@.take(i as int).push(x));
        }
        if p < k {
            top.insert(p, x);
            if top.len() > k {
                top.truncate(k);
            }
        }
        proof {
            full = full.insert(place, x);
            if p < k {
                assert(place == p);
            }
            assert(top@ =~= full.take(answer_len(full.len(), k as nat) as int));
        }
        i += 1;
    }
    proof {
        assert(candidates@.take(candidates@.len() as int) =~= candidates@);
        assert(is_ranking(candidates@, full));
        assert forall|a: int, b: int| 0 <= a <= b < top@.len() implies order_key(
            #[trigger] top@[a].similarity,
        ) >= order_key(#[trigger] top@[b].similarity) by {
            assert(top@[a] == full[a]);
            assert(top@[b] == full[b]);
        }
    }
    top
}

/// Ranks the candidates whose similarity reaches `threshold`: the `k` of
/// highest similarity among them, highest first.
pub fn rank_results_with_threshold(
    candidates: &Vec<SearchResult>,
    k: usize,
    threshold: u32,
) -> (result: Vec<SearchResult>)
    ensures
        is_top(result@, reaching(candidates@, threshold), k as nat),
        result@.len() == answer_len(reaching(candidates@, threshold).len(), k as nat),
        descending(result@),
        forall|i: int|
            0 <= i < result@.len() ==> meets_threshold(
                #[trigger] result@[i].similarity,
                threshold,
            ),
{
    let ghost keep = |c: SearchResult| meets_threshold(c.similarity, threshold);
    let mut kept: Vec<SearchResult> = Vec::new();
    let mut i: usize = 0;
    proof {
        reveal(Seq::filter);
        assert(candidates@.take(0) =~= Seq::<SearchResult>::empty());
    }
    while i < candidates.len()
        invariant
            0 <= i <= candidates@.len(),
            keep == |c: SearchResult| meets_threshold(c.similarity, threshold),
            kept@ == candidates@.take(i as int).filter(keep),
            forall|j: int|
                0 <= j < kept@.len() ==> meets_threshold(#[trigger] kept@[j].similarity, threshold),
        decreases candidates@.len() - i,
    {
        let x: SearchResult = candidates[i];
        proof {
            reveal(Seq::filter);
            assert(candidates@.take(i + 1).drop_last() =~= candidates@.take(i as int));
            assert(candidates@.take(i + 1).last() == x);
        }
        if reaches_threshold(x.similarity, threshold) {
            kept.push(x);
        }
        i += 1;
    }
    proof {
        assert(candidates@.take(candidates@.len() as int) =~= candidates@);
    }
    let result = rank_results(&kept, k);
    proof {
        broadcast use group_to_multiset_ensures;

        let full = choose|full: Seq<SearchResult>|
            #![trigger is_ranking(kept@, full)]
            is_ranking(kept@, full) && result@ == full.take(
                answer_len(full.len(), k as nat) as int,
            );
        assert forall|j: int| 0 <= j < result@.len() implies meets_threshold(
            #[trigger] result@[j].similarity,
            threshold,
        ) by {
            assert(result@[j] == full[j]);
            assert(full.to_multiset().contains(full[j]));
            assert(kept@.contains(full[j]));
        }
    }
    result
}

} // verus!
