//! The in-memory nearest-neighbour index: a snapshot of the corpus and the
//! k-nearest selection over it.
//!
//! Distances arrive as `u32` bit patterns of the 32-bit cosine distances
//! that the caller's distance stage computes, one per corpus row. Cosine
//! distances are non-negative, and for non-negative 32-bit IEEE-754 values
//! the unsigned order of the bit patterns agrees with the numeric order —
//! and the quiet-not-a-number pattern a zero vector produces sorts after
//! every finite distance, making such rows maximally distant. Selection
//! therefore compares the bit patterns as plain unsigned integers.

use crate::database::EmbeddedSentence;
use vstd::prelude::*;
use vstd::seq_lib::group_to_multiset_ensures;

verus! {

/// One answer to a nearest-neighbour query: where the block lives and its
/// distance to the query, as the distance's bit pattern.
pub struct SearchResult {
    pub path: String,
    pub start_line_no: usize,
    pub end_line_no: usize,
    pub distance: u32,
}

/// A distance paired with the index of its corpus row.
pub type DistPair = (u32, usize);

/// The distances paired with their row indices, in row order.
pub open spec fn dist_pairs(dists: Seq<u32>) -> Seq<DistPair> {
    Seq::new(dists.len(), |i: int| (dists[i], i as usize))
}

/// Non-decreasing by distance.
pub open spec fn sorted_dists(s: Seq<DistPair>) -> bool {
    forall|a: int, b: int| 0 <= a < b < s.len() ==> (#[trigger] s[a]).0 <= (#[trigger] s[b]).0
}

/// Whether result `res` reports corpus row `pr.1` at distance `pr.0`.
pub open spec fn result_matches(rows: Seq<EmbeddedSentence>, pr: DistPair, res: SearchResult) -> bool {
    &&& 0 <= pr.1 < rows.len()
    &&& res.path@ == rows[pr.1 as int].path@
    &&& res.start_line_no == rows[pr.1 as int].start_line_no
    &&& res.end_line_no == rows[pr.1 as int].end_line_no
    &&& res.distance == pr.0
}

/// The corpus snapshot queries run against. Rebuilds replace it wholesale;
/// it is never mutated incrementally.
pub struct EmbeddingTree {
    pub rows: Vec<EmbeddedSentence>,
}

impl EmbeddingTree {
    /// Builds the index over a corpus snapshot.
    pub fn new(corpus: Vec<EmbeddedSentence>) -> (t: Self)
        ensures
            t.rows == corpus,
    {
        EmbeddingTree { rows: corpus }
    }

    /// Replaces the whole snapshot.
    pub fn rebuild(&mut self, corpus: Vec<EmbeddedSentence>)
        ensures
            final (self).rows == corpus,
    {
        self.rows = corpus;
    }

    /// Answers a k-nearest query, given the distance of each corpus row to
    /// the query: at most `k` results — fewer only when the corpus is
    /// smaller — sorted by non-decreasing distance, every one reporting a
    /// distinct corpus row with its distance, and none farther than any row
    /// left out. Rows at equal distance may appear in either order.
    pub fn search(&self, dists: &Vec<u32>, k: usize) -> (r: Vec<SearchResult>)
        requires
            dists@.len() == self.rows@.len(),
        ensures
            r@.len() == if self.rows@.len() < k {
                self.rows@.len() as int
            } else {
                k as int
            },
            forall|a: int, b: int|
                0 <= a < b < r@.len() ==> (#[trigger] r@[a]).distance <= (#[trigger] r@[b]).distance,
            exists|s: Seq<DistPair>|
                {
                    &&& s.to_multiset() == dist_pairs(dists@).to_multiset()
                    &&& sorted_dists(s)
                    &&& forall|a: int|
                        0 <= a < r@.len() ==> result_matches(self.rows@, s[a], #[trigger] r@[a])
                },
    {
        let n = self.rows.len();
        let mut pairs: Vec<DistPair> = Vec::new();
        let mut i: usize = 0;
        while i < n
            invariant
                i <= n,
                n == dists@.len() == self.rows@.len(),
                pairs@.len() == i,
                forall|m: int| 0 <= m < i ==> #[trigger] pairs@[m] == (dists@[m], m as usize),
            decreases n - i,
        {
            pairs.push((dists[i], i));
            i = i + 1;
        }
        proof {
            assert(pairs@ =~= dist_pairs(dists@));
        }
        let sorted = sort_pairs(&pairs, Ghost(n as int));
        let ghost full = sorted@;
        let limit = if k < sorted.len() {
            k
        } else {
            sorted.len()
        };
        let mut out: Vec<SearchResult> = Vec::new();
        let mut a: usize = 0;
        while a < limit
            invariant
                a <= limit,
                limit <= sorted@.len(),
                sorted@ == full,
                n == self.rows@.len(),
                forall|m: int| 0 <= m < full.len() ==> (#[trigger] full[m]).1 < n,
                out@.len() == a,
                forall|m: int|
                    0 <= m < a ==> result_matches(self.rows@, full[m], #[trigger] out@[m]),
            decreases limit - a,
        {
            let (d, idx) = sorted[a];
            let row = &self.rows[idx];
            out.push(
                SearchResult {
                    path: row.path.clone(),
                    start_line_no: row.start_line_no,
                    end_line_no: row.end_line_no,
                    distance: d,
                },
            );
            a = a + 1;
        }
        proof {
            assert(sorted_dists(full));
            assert forall|x: int, y: int| 0 <= x < y < out@.len() implies (#[trigger] out@[x]).distance
                <= (#[trigger] out@[y]).distance by {
                assert(result_matches(self.rows@, full[x], out@[x]));
                assert(result_matches(self.rows@, full[y], out@[y]));
            }
        }
        out
    }
}

/// The query over a single-file corpus of two blocks, the first strictly
/// nearer to the query than the second: any result that [`EmbeddingTree::search`]'s
/// contract admits — `s` being its sorted-permutation witness — reports
/// both rows in file order, the first at the first distance, the second at
/// the second. Rendered in the raw format, such a result is exactly the
/// file's two `path:start:end` lines in ascending-distance order.
pub proof fn lemma_single_file_query(
    rows: Seq<EmbeddedSentence>,
    dists: Seq<u32>,
    s: Seq<DistPair>,
    r: Seq<SearchResult>,
)
    requires
        rows.len() == 2,
        dists.len() == 2,
        dists[0] < dists[1],
        r.len() == 2,
        s.to_multiset() == dist_pairs(dists).to_multiset(),
        sorted_dists(s),
        forall|a: int| 0 <= a < r.len() ==> result_matches(rows, s[a], #[trigger] r[a]),
    ensures
        result_matches(rows, (dists[0], 0usize), r[0]),
        result_matches(rows, (dists[1], 1usize), r[1]),
{
    broadcast use group_to_multiset_ensures;

    let p0 = (dists[0], 0usize);
    let p1 = (dists[1], 1usize);
    let dp = dist_pairs(dists);
    assert(dp.len() == 2);
    assert(dp[0] == p0 && dp[1] == p1);
    assert(s.len() == s.to_multiset().len());
    assert(dp.len() == dp.to_multiset().len());
    assert(s.len() == 2);
    assert(s.contains(p0)) by {
        assert(dp.contains(p0));
        assert(dp.to_multiset().count(p0) > 0);
    }
    assert(s.contains(p1)) by {
        assert(dp.contains(p1));
        assert(dp.to_multiset().count(p1) > 0);
    }
    let i0 = choose|i: int| 0 <= i < s.len() && s[i] == p0;
    let i1 = choose|i: int| 0 <= i < s.len() && s[i] == p1;
    assert(i0 != i1);
    if i0 == 1 {
        assert(s[0].0 <= s[1].0);
        assert(false);
    }
    assert(s[0] == p0 && s[1] == p1);
    assert(result_matches(rows, s[0], r[0]));
    assert(result_matches(rows, s[1], r[1]));
}

/// Sorts distance pairs by non-decreasing distance; the result is a
/// permutation of the input. All row indices stay below `bound`.
fn sort_pairs(pairs: &Vec<DistPair>, bound: Ghost<int>) -> (out: Vec<DistPair>)
    requires
        forall|m: int| 0 <= m < pairs@.len() ==> (#[trigger] pairs@[m]).1 < bound@,
    ensures
        out@.len() == pairs@.len(),
        out@.to_multiset() == pairs@.to_multiset(),
        sorted_dists(out@),
        forall|m: int| 0 <= m < out@.len() ==> (#[trigger] out@[m]).1 < bound@,
{
    let mut out: Vec<DistPair> = Vec::new();
    let mut t: usize = 0;
    proof {
        broadcast use group_to_multiset_ensures;

        assert(pairs@.take(0) =~= Seq::<DistPair>::empty());
        assert(out@.to_multiset() =~= pairs@.take(0).to_multiset());
    }
    while t < pairs.len()
        invariant
            t <= pairs@.len(),
            out@.len() == t,
            out@.to_multiset() == pairs@.take(t as int).to_multiset(),
            sorted_dists(out@),
            forall|m: int| 0 <= m < pairs@.len() ==> (#[trigger] pairs@[m]).1 < bound@,
            forall|m: int| 0 <= m < out@.len() ==> (#[trigger] out@[m]).1 < bound@,
        decreases pairs@.len() - t,
    {
        let x = pairs[t];
        let mut j: usize = 0;
        while j < out.len() && out[j].0 <= x.0
            invariant
                j <= out@.len(),
                sorted_dists(out@),
                forall|m: int| 0 <= m < j ==> (#[trigger] out@[m]).0 <= x.0,
            decreases out@.len() - j,
        {
            j = j + 1;
        }
        let ghost pre = out@;
        out.insert(j, x);
        proof {
            broadcast use group_to_multiset_ensures;

            pre.insert_ensures(j as int, x);
            assert(pairs@.take(t + 1) =~= pairs@.take(t as int).push(x));
            assert(out@.to_multiset() =~= pairs@.take(t + 1).to_multiset());
            assert forall|a: int, b: int| 0 <= a < b < out@.len() implies (#[trigger] out@[a]).0
                <= (#[trigger] out@[b]).0 by {
                if b < j {
                    assert(out@[a] == pre[a] && out@[b] == pre[b]);
                } else if a < j && b == j {
                    assert(out@[a] == pre[a]);
                } else if a < j && b > j {
                    assert(out@[a] == pre[a] && out@[b] == pre[b - 1]);
                } else if a == j && b > j {
                    assert(out@[b] == pre[b - 1]);
                    assert(j < pre.len() + 1);
                    assert(pre[j as int].0 > x.0 || j as int == pre.len());
                } else {
                    assert(out@[a] == pre[a - 1] && out@[b] == pre[b - 1]);
                }
            }
            assert forall|m: int| 0 <= m < out@.len() implies (#[trigger] out@[m]).1 < bound@ by {
                if m < j {
                    assert(out@[m] == pre[m]);
                } else if m == j {
                    assert(out@[m] == x);
                } else {
                    assert(out@[m] == pre[m - 1]);
                }
            }
        }
        t = t + 1;
    }
    proof {
        assert(pairs@.take(pairs@.len() as int) =~= pairs@);
        broadcast use group_to_multiset_ensures;

        assert(out@.len() == out@.to_multiset().len());
        assert(pairs@.len() == pairs@.to_multiset().len());
    }
    out
}

} // verus!
