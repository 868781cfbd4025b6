use vstd::prelude::*;

verus! {

/// How many of the first `i` positions of the mask are kept. This is
/// also the new index that position `i` receives when it is kept and
/// every kept position before it keeps its relative order.
pub open spec fn rank_below(keep: Seq<bool>, i: int) -> nat
    decreases i,
{
    if i <= 0 {
        0
    } else {
        rank_below(keep, i - 1) + (if 0 <= i - 1 < keep.len() && keep[i - 1] {
            1nat
        } else {
            0nat
        })
    }
}

/// The number of kept positions of the whole mask.
pub open spec fn count_kept(keep: Seq<bool>) -> nat {
    rank_below(keep, keep.len() as int)
}

/// The elements of `s` at kept positions, in order.
pub open spec fn filter_by_mask<T>(s: Seq<T>, keep: Seq<bool>) -> Seq<T>
    decreases s.len(),
{
    if s.len() == 0 {
        Seq::empty()
    } else {
        (if 0 < keep.len() && keep[0] {
            seq![s[0]]
        } else {
            Seq::empty()
        }) + filter_by_mask(s.drop_first(), keep.drop_first())
    }
}

pub proof fn lemma_rank_below_monotone(keep: Seq<bool>, i: int, j: int)
    requires
        i <= j,
    ensures
        rank_below(keep, i) <= rank_below(keep, j),
    decreases j - i,
{
    if i < j {
        lemma_rank_below_monotone(keep, i, j - 1);
    }
}

/// A kept position's rank is strictly below the count of all kept
/// positions.
pub proof fn lemma_rank_below_lt_count(keep: Seq<bool>, i: int)
    requires
        0 <= i < keep.len(),
        keep[i],
    ensures
        rank_below(keep, i) < count_kept(keep),
{
    lemma_rank_below_monotone(keep, i + 1, keep.len() as int);
}

pub proof fn lemma_filter_by_mask_take_snoc<T>(s: Seq<T>, keep: Seq<bool>, i: int)
    requires
        0 <= i < s.len(),
        s.len() == keep.len(),
    ensures
        filter_by_mask(s.take(i + 1), keep.take(i + 1)) == filter_by_mask(
            s.take(i),
            keep.take(i),
        ) + (if keep[i] {
            seq![s[i]]
        } else {
            Seq::<T>::empty()
        }),
    decreases i,
{
    if i == 0 {
        let s1 = s.take(1);
        let k1 = keep.take(1);
        assert(s1.len() == 1);
        assert(k1.len() == 1);
        assert(s1[0] == s[0]);
        assert(k1[0] == keep[0]);
        assert(s1.drop_first().len() == 0);
        assert(filter_by_mask(s1.drop_first(), k1.drop_first()) == Seq::<T>::empty());
        assert(filter_by_mask(s1, k1) == (if 0 < k1.len() && k1[0] {
            seq![s1[0]]
        } else {
            Seq::<T>::empty()
        }) + filter_by_mask(s1.drop_first(), k1.drop_first()));
        assert(s.take(0).len() == 0);
        assert(filter_by_mask(s.take(0), keep.take(0)) == Seq::<T>::empty());
        if keep[0] {
            assert(filter_by_mask(s1, k1) =~= seq![s[0]]);
            assert(filter_by_mask(s.take(0), keep.take(0)) + seq![s[0]] =~= seq![s[0]]);
        } else {
            assert(filter_by_mask(s1, k1) =~= Seq::<T>::empty());
            assert(filter_by_mask(s.take(0), keep.take(0)) + Seq::<T>::empty()
                =~= Seq::<T>::empty());
        }
    } else {
        let st = s.drop_first();
        let kt = keep.drop_first();
        assert(s.take(i + 1).drop_first() =~= st.take(i));
        assert(keep.take(i + 1).drop_first() =~= kt.take(i));
        assert(s.take(i).drop_first() =~= st.take(i - 1));
        assert(keep.take(i).drop_first() =~= kt.take(i - 1));
        lemma_filter_by_mask_take_snoc(st, kt, i - 1);
        assert(s.take(i + 1)[0] == s[0]);
        assert(s.take(i)[0] == s[0]);
        assert(keep.take(i + 1)[0] == keep[0]);
        assert(keep.take(i)[0] == keep[0]);
        assert(st[i - 1] == s[i]);
        assert(kt[i - 1] == keep[i]);
        if keep[i] {
            assert(filter_by_mask(s.take(i + 1), keep.take(i + 1)) =~= filter_by_mask(
                s.take(i),
                keep.take(i),
            ) + seq![s[i]]);
        } else {
            assert(filter_by_mask(s.take(i + 1), keep.take(i + 1)) =~= filter_by_mask(
                s.take(i),
                keep.take(i),
            ));
            assert(filter_by_mask(s.take(i), keep.take(i)) + Seq::<T>::empty() =~= filter_by_mask(
                s.take(i),
                keep.take(i),
            ));
        }
    }
}

/// The filtered sequence is exactly as long as the count of kept
/// positions.
pub proof fn lemma_filter_by_mask_len<T>(s: Seq<T>, keep: Seq<bool>, i: int)
    requires
        0 <= i <= s.len(),
        s.len() == keep.len(),
    ensures
        filter_by_mask(s.take(i), keep.take(i)).len() == rank_below(keep, i),
    decreases i,
{
    if i == 0 {
        assert(s.take(0) =~= Seq::<T>::empty());
    } else {
        lemma_filter_by_mask_len(s, keep, i - 1);
        lemma_filter_by_mask_take_snoc(s, keep, i - 1);
    }
}

/// A kept element lands at its rank in the filtered sequence.
pub proof fn lemma_filter_by_mask_index<T>(s: Seq<T>, keep: Seq<bool>, i: int)
    requires
        0 <= i < s.len(),
        s.len() == keep.len(),
        keep[i],
    ensures
        rank_below(keep, i) < filter_by_mask(s, keep).len(),
        filter_by_mask(s, keep)[rank_below(keep, i) as int] == s[i],
    decreases i,
{
    lemma_filter_by_mask_len(s, keep, keep.len() as int);
    assert(s.take(s.len() as int) =~= s);
    assert(keep.take(keep.len() as int) =~= keep);
    lemma_rank_below_lt_count(keep, i);
    lemma_filter_by_mask_index_rec(s, keep, i);
}

proof fn lemma_filter_by_mask_index_rec<T>(s: Seq<T>, keep: Seq<bool>, i: int)
    requires
        0 <= i < s.len(),
        s.len() == keep.len(),
        keep[i],
        rank_below(keep, i) < filter_by_mask(s, keep).len(),
    ensures
        filter_by_mask(s, keep)[rank_below(keep, i) as int] == s[i],
    decreases i,
{
    if i == 0 {
        assert(filter_by_mask(s, keep)[0] == s[0]);
    } else {
        let st = s.drop_first();
        let kt = keep.drop_first();
        assert(st[i - 1] == s[i]);
        assert(kt[i - 1] == keep[i]);
        assert(rank_below(kt, i - 1) + (if keep[0] {
            1nat
        } else {
            0nat
        }) == rank_below(keep, i)) by {
            lemma_rank_below_shift(keep, i);
        }
        lemma_filter_by_mask_len(st, kt, (i - 1) as int);
        lemma_filter_by_mask_len(st, kt, st.len() as int);
        lemma_rank_below_monotone(kt, i - 1, kt.len() as int);
        assert(filter_by_mask(s, keep).len() == (if keep[0] {
            1int
        } else {
            0int
        }) + filter_by_mask(st, kt).len());
        lemma_filter_by_mask_index_rec(st, kt, i - 1);
    }
}

proof fn lemma_rank_below_shift(keep: Seq<bool>, i: int)
    requires
        1 <= i <= keep.len(),
    ensures
        rank_below(keep, i) == (if keep[0] {
            1nat
        } else {
            0nat
        }) + rank_below(keep.drop_first(), i - 1),
    decreases i,
{
    if i == 1 {
        assert(rank_below(keep.drop_first(), 0) == 0);
        assert(rank_below(keep, 1) == rank_below(keep, 0) + (if keep[0] {
            1nat
        } else {
            0nat
        }));
    } else {
        lemma_rank_below_shift(keep, i - 1);
        assert(keep.drop_first()[i - 2] == keep[i - 1]);
    }
}

/// When every position is kept, ranks are the identity.
pub proof fn lemma_rank_below_all_kept(keep: Seq<bool>, i: int)
    requires
        0 <= i <= keep.len(),
        forall|k: int| 0 <= k < i ==> keep[k],
    ensures
        rank_below(keep, i) == i,
    decreases i,
{
    if i > 0 {
        lemma_rank_below_all_kept(keep, i - 1);
    }
}

pub proof fn lemma_rank_below_le(keep: Seq<bool>, i: int)
    requires
        0 <= i,
    ensures
        rank_below(keep, i) <= i,
    decreases i,
{
    if i > 0 {
        lemma_rank_below_le(keep, i - 1);
    }
}

pub proof fn lemma_rank_below_diff_le(keep: Seq<bool>, i: int, j: int)
    requires
        0 <= i <= j,
    ensures
        rank_below(keep, j) <= rank_below(keep, i) + (j - i),
    decreases j - i,
{
    if i < j {
        lemma_rank_below_diff_le(keep, i, j - 1);
    }
}

pub proof fn lemma_count_lt_if_dropped(keep: Seq<bool>, i: int)
    requires
        0 <= i < keep.len(),
        !keep[i],
    ensures
        count_kept(keep) < keep.len(),
{
    lemma_rank_below_le(keep, i);
    lemma_rank_below_diff_le(keep, i + 1, keep.len() as int);
}

/// The table of new indices: entry `i` holds the rank of position `i`.
pub fn build_renumber(keep: &Vec<bool>) -> (r: Vec<u32>)
    requires
        keep@.len() <= 0xffff_ffff,
    ensures
        r@.len() == keep@.len(),
        forall|i: int| 0 <= i < keep@.len() ==> r@[i] == rank_below(keep@, i) as u32,
{
    let mut r: Vec<u32> = Vec::new();
    let mut count: u32 = 0;
    let mut i: usize = 0;
    while i < keep.len()
        invariant
            i <= keep.len(),
            keep@.len() <= 0xffff_ffff,
            r@.len() == i,
            count == rank_below(keep@, i as int),
            forall|j: int| 0 <= j < i ==> r@[j] == rank_below(keep@, j) as u32,
        decreases keep.len() - i,
    {
        r.push(count);
        if keep[i] {
            proof {
                lemma_rank_below_le(keep@, i as int);
            }
            count = count + 1;
        }
        i += 1;
    }
    r
}

} // verus!
