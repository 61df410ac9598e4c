//! Render-window extraction: how many rows of the ranking are shown, where
//! the cursor's row lies, and the highlight positions within a matched
//! line — only the window is ever pulled, never the full ranking.

use vstd::prelude::*;
use vstd::multiset::Multiset;

verus! {

/// How many of the matched rows fit the view: the best
/// `min(matched, height)` ranks are requested, never the full list.
pub fn visible_rows(matched: u32, height: u16) -> (r: u32)
    ensures
        r == (if matched < height as u32 {
            matched
        } else {
            height as u32
        }),
{
    if matched < height as u32 {
        matched
    } else {
        height as u32
    }
}

/// The terminal row of the selection cursor when rows are drawn bottom-up
/// from `bottom`: `bottom - selected`, saturating at the top row.
pub fn selected_row(bottom: u16, selected: u32) -> (r: u16)
    ensures
        r == (if (selected as int) <= (bottom as int) {
            bottom as int - selected as int
        } else {
            0int
        }),
{
    if selected <= bottom as u32 {
        bottom - (selected as u16)
    } else {
        0
    }
}

/// Adjacent duplicates removed, as the highlight positions are prepared.
pub open spec fn dedup_adj_from(s: Seq<u32>, i: int, acc: Seq<u32>) -> Seq<u32>
    decreases s.len() - i,
{
    if i < 0 || i >= s.len() {
        acc
    } else if acc.len() > 0 && acc.last() == s[i] {
        dedup_adj_from(s, i + 1, acc)
    } else {
        dedup_adj_from(s, i + 1, acc.push(s[i]))
    }
}

pub open spec fn spec_dedup_adj(s: Seq<u32>) -> Seq<u32> {
    dedup_adj_from(s, 0, Seq::empty())
}

/// The sequence is sorted, smallest first.
pub open spec fn sorted(s: Seq<u32>) -> bool {
    forall|a: int, b: int| 0 <= a < b < s.len() ==> s[a] <= s[b]
}

/// Prepare the highlight positions of one matched line: adjacent
/// duplicates dropped, then the positions put in ascending order (the same
/// positions, as a multiset).
pub fn prepare_highlights(positions: Vec<u32>) -> (r: Vec<u32>)
    ensures
        sorted(r@),
        r@.to_multiset() == spec_dedup_adj(positions@).to_multiset(),
{
    let mut dedup: Vec<u32> = Vec::new();
    let mut i: usize = 0;
    while i < positions.len()
        invariant
            i <= positions@.len(),
            spec_dedup_adj(positions@) == dedup_adj_from(positions@, i as int, dedup@),
        decreases positions@.len() - i,
    {
        let keep = if dedup.len() == 0 {
            true
        } else {
            dedup[dedup.len() - 1] != positions[i]
        };
        if keep {
            dedup.push(positions[i]);
        }
        i += 1;
    }
    sort_u32(dedup)
}

/// Insertion sort for the highlight positions.
fn sort_u32(v: Vec<u32>) -> (r: Vec<u32>)
    ensures
        sorted(r@),
        r@.to_multiset() == v@.to_multiset(),
{
    let mut out: Vec<u32> = Vec::new();
    let mut i: usize = 0;
    proof {
        assert(v@.take(0) =~= Seq::<u32>::empty());
        assert(Seq::<u32>::empty().to_multiset() =~= out@.to_multiset());
    }
    while i < v.len()
        invariant
            i <= v@.len(),
            sorted(out@),
            out@.to_multiset() == v@.take(i as int).to_multiset(),
        decreases v@.len() - i,
    {
        let x = v[i];
        let mut j: usize = out.len();
        while j > 0 && out[j - 1] > x
            invariant
                j <= out@.len(),
                sorted(out@),
                forall|b: int| j <= b < out@.len() ==> out@[b] > x,
            decreases j,
        {
            j = j - 1;
        }
        let ghost before = out@;
        out.insert(j, x);
        proof {
            assert(sorted(out@)) by {
                assert(forall|b: int| 0 <= b < j ==> before[b] <= x);
                assert(out@ =~= before.take(j as int) + seq![x] + before.skip(j as int));
            }
            assert(v@.take(i as int + 1) =~= v@.take(i as int).push(x));
            before.take(j as int).to_multiset_ensures();
            lemma_insert_multiset(before, j as int, x);
            v@.take(i as int).to_multiset_ensures();
        }
        i += 1;
    }
    proof {
        assert(v@.take(v@.len() as int) =~= v@);
    }
    out
}

/// Inserting an element into a sequence adds exactly it to the multiset.
proof fn lemma_insert_multiset(s: Seq<u32>, j: int, x: u32)
    requires
        0 <= j <= s.len(),
    ensures
        s.insert(j, x).to_multiset() == s.to_multiset().insert(x),
{
    let with = s.insert(j, x);
    assert(with =~= s.take(j) + seq![x] + s.skip(j));
    assert(s =~= s.take(j) + s.skip(j));
    lemma_multiset_add(s.take(j) + seq![x], s.skip(j));
    lemma_multiset_add(s.take(j), seq![x]);
    lemma_multiset_add(s.take(j), s.skip(j));
    seq![x].to_multiset_ensures();
    assert(seq![x].to_multiset() =~= Multiset::<u32>::empty().insert(x)) by {
        assert(seq![x].drop_first() =~= Seq::<u32>::empty());
        seq![x].drop_first().to_multiset_ensures();
    }
    assert((s.take(j).to_multiset().add(Multiset::<u32>::empty().insert(x))).add(
        s.skip(j).to_multiset(),
    ) =~= (s.take(j).to_multiset().add(s.skip(j).to_multiset())).insert(x));
}

/// Concatenation adds the multisets.
proof fn lemma_multiset_add(a: Seq<u32>, b: Seq<u32>)
    ensures
        (a + b).to_multiset() == a.to_multiset().add(b.to_multiset()),
{
    vstd::seq_lib::lemma_multiset_commutative(a, b);
}

} // verus!
