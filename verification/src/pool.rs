//! Positional diffing of per-processor samples against the baseline sweep,
//! and the ordered assembly of rendered per-processor blocks.

use vstd::prelude::*;
use vstd::multiset::Multiset;
use vstd::seq_lib::group_to_multiset_ensures;

use crate::raw_cpuid::result_zero;
use crate::raw_cpuid::RawCpuid;

verus! {

/// The entries of a probed sweep that survive zero-skip filtering: with
/// filtering on, the entries whose registers are not all zero; with it
/// off, the whole sweep.
pub open spec fn kept_pool(skip_zero: bool, probed: Seq<RawCpuid>) -> Seq<RawCpuid> {
    if skip_zero {
        probed.filter(|rc: RawCpuid| !result_zero(rc))
    } else {
        probed
    }
}

/// Applies zero-skip filtering to one probed sweep: an all-zero entry is
/// excluded exactly when `skip_zero` is set.
pub fn filter_pool(skip_zero: bool, probed: Vec<RawCpuid>) -> (r: Vec<RawCpuid>)
    ensures
        r@ == kept_pool(skip_zero, probed@),
{
    if !skip_zero {
        return probed;
    }
    let mut kept: Vec<RawCpuid> = Vec::new();
    let mut i: usize = 0;
    proof {
        reveal(Seq::filter);
        assert(kept@ =~= probed@.take(0).filter(|rc: RawCpuid| !result_zero(rc)));
    }
    while i < probed.len()
        invariant
            i <= probed@.len(),
            kept@ == probed@.take(i as int).filter(|rc: RawCpuid| !result_zero(rc)),
        decreases probed@.len() - i,
    {
        let cpuid = probed[i];
        if !cpuid.check_result_zero() {
            kept.push(cpuid);
        }
        proof {
            reveal(Seq::filter);
            let p = |rc: RawCpuid| !result_zero(rc);
            assert(probed@.take(i + 1).drop_last() =~= probed@.take(i as int));
            assert(probed@.take(i + 1).last() == cpuid);
            assert(kept@ =~= probed@.take(i + 1).filter(p));
        }
        i += 1;
    }
    proof {
        assert(probed@.take(probed@.len() as int) =~= probed@);
    }
    kept
}

/// The positional diff of the first `n` entries: the entries of `s` that
/// differ from the baseline entry at the same position, in order.
pub open spec fn diff_upto(base: Seq<RawCpuid>, s: Seq<RawCpuid>, n: int) -> Seq<RawCpuid>
    decreases n,
{
    if n <= 0 {
        Seq::empty()
    } else {
        diff_upto(base, s, n - 1) + (if base[n - 1] != s[n - 1] {
            seq![s[n - 1]]
        } else {
            Seq::empty()
        })
    }
}

/// The positional diff of a sample against the baseline: the subsequence
/// of sample entries that differ, in at least one register, from the
/// baseline entry at the same index.
pub open spec fn diff_spec(base: Seq<RawCpuid>, s: Seq<RawCpuid>) -> Seq<RawCpuid> {
    diff_upto(base, s, s.len() as int)
}

/// Computes the sample retained for one non-baseline processor: with
/// diffing enabled, the positional diff against the baseline; with it
/// disabled, the sample unchanged.
pub fn diff_sample(diff: bool, baseline: &Vec<RawCpuid>, sample: Vec<RawCpuid>) -> (r: Vec<
    RawCpuid,
>)
    requires
        diff ==> sample@.len() <= baseline@.len(),
    ensures
        r@ == (if diff {
            diff_spec(baseline@, sample@)
        } else {
            sample@
        }),
{
    if !diff {
        return sample;
    }
    let mut kept: Vec<RawCpuid> = Vec::new();
    let mut i: usize = 0;
    while i < sample.len()
        invariant
            i <= sample@.len() <= baseline@.len(),
            kept@ == diff_upto(baseline@, sample@, i as int),
        decreases sample@.len() - i,
    {
        if !(baseline[i] == sample[i]) {
            kept.push(sample[i]);
        }
        proof {
            assert(kept@ =~= diff_upto(baseline@, sample@, i + 1));
        }
        i += 1;
    }
    kept
}

/// Law: the positional diff keeps exactly the positions that differ. The
/// diff of `s` against `base` is the sequence of entries `s[i]`, in
/// ascending `i`, over exactly those indices `i` where the two samples
/// disagree.
pub proof fn lemma_diff_exact(base: Seq<RawCpuid>, s: Seq<RawCpuid>, n: int)
    requires
        0 <= n <= s.len() <= base.len(),
    ensures
        diff_upto(base, s, n) == Seq::new(n as nat, |i: int| i).filter(
            |i: int| base[i] != s[i],
        ).map_values(|i: int| s[i]),
    decreases n,
{
    reveal(Seq::filter);
    let idx = |m: int| Seq::new(m as nat, |i: int| i);
    let p = |i: int| base[i] != s[i];
    let f = |i: int| s[i];
    if n == 0 {
        assert(idx(0).filter(p).map_values(f) =~= Seq::<RawCpuid>::empty());
    } else {
        lemma_diff_exact(base, s, n - 1);
        assert(idx(n).drop_last() =~= idx(n - 1));
        assert(idx(n).last() == n - 1);
        if p(n - 1) {
            assert(idx(n).filter(p) =~= idx(n - 1).filter(p).push(n - 1));
            assert(idx(n).filter(p).map_values(f) =~= idx(n - 1).filter(p).map_values(f).push(
                s[n - 1],
            ));
            assert(diff_upto(base, s, n) =~= idx(n).filter(p).map_values(f));
        } else {
            assert(idx(n).filter(p) =~= idx(n - 1).filter(p));
            assert(diff_upto(base, s, n) =~= idx(n).filter(p).map_values(f));
        }
    }
}

/// Law: with diffing enabled, a sample positionally equal to the baseline
/// leaves nothing; and each retained entry differs from the baseline.
pub proof fn lemma_diff_of_equal_is_empty(base: Seq<RawCpuid>, s: Seq<RawCpuid>, n: int)
    requires
        0 <= n <= s.len() <= base.len(),
        forall|i: int| 0 <= i < s.len() ==> base[i] == s[i],
    ensures
        diff_upto(base, s, n) == Seq::<RawCpuid>::empty(),
    decreases n,
{
    if n > 0 {
        lemma_diff_of_equal_is_empty(base, s, n - 1);
        assert(diff_upto(base, s, n) =~= Seq::<RawCpuid>::empty());
    }
}

/// The id/content views of a sequence of rendered blocks.
pub open spec fn block_views(bs: Seq<(usize, Vec<u8>)>) -> Seq<(usize, Seq<u8>)> {
    Seq::new(bs.len(), |i: int| (bs[i].0, bs[i].1@))
}

/// True when the blocks stand in ascending processor-id order.
pub open spec fn sorted_by_id(bs: Seq<(usize, Seq<u8>)>) -> bool {
    forall|i: int, j: int|
        0 <= i < j < bs.len() ==> (#[trigger] bs[i]).0 <= (#[trigger] bs[j]).0
}

/// True when no two blocks carry the same processor id.
pub open spec fn distinct_ids(bs: Seq<(usize, Seq<u8>)>) -> bool {
    forall|i: int, j: int|
        0 <= i < j < bs.len() ==> (#[trigger] bs[i]).0 != (#[trigger] bs[j]).0
}

/// The concatenation of the first `n` block contents, in order.
pub open spec fn concat_blocks_upto(bs: Seq<(usize, Seq<u8>)>, n: int) -> Seq<u8>
    decreases n,
{
    if n <= 0 {
        Seq::empty()
    } else {
        concat_blocks_upto(bs, n - 1) + bs[n - 1].1
    }
}

/// The concatenation of all block contents, in order.
pub open spec fn concat_blocks(bs: Seq<(usize, Seq<u8>)>) -> Seq<u8> {
    concat_blocks_upto(bs, bs.len() as int)
}

/// Sorts rendered blocks into ascending processor-id order; the result is
/// a permutation of the input.
fn sort_blocks(blocks: Vec<(usize, Vec<u8>)>) -> (r: Vec<(usize, Vec<u8>)>)
    ensures
        sorted_by_id(block_views(r@)),
        block_views(r@).to_multiset() == block_views(blocks@).to_multiset(),
{
    broadcast use group_to_multiset_ensures;

    let ghost orig = block_views(blocks@);
    let mut rem = blocks;
    let mut out: Vec<(usize, Vec<u8>)> = Vec::new();
    while rem.len() > 0
        invariant
            sorted_by_id(block_views(out@)),
            block_views(out@).to_multiset().add(block_views(rem@).to_multiset()) =~= orig
                .to_multiset(),
            forall|i: int, j: int|
                0 <= i < out@.len() && 0 <= j < rem@.len() ==> (#[trigger] block_views(out@)[i]).0
                    <= (#[trigger] block_views(rem@)[j]).0,
        decreases rem@.len(),
    {
        let mut m: usize = 0;
        let mut k: usize = 1;
        while k < rem.len()
            invariant
                m < k <= rem@.len(),
                rem@.len() > 0,
                forall|i: int| 0 <= i < k ==> rem@[m as int].0 <= (#[trigger] rem@[i]).0,
            decreases rem@.len() - k,
        {
            if rem[k].0 < rem[m].0 {
                m = k;
            }
            k += 1;
        }
        let ghost rem_before = block_views(rem@);
        let ghost out_before = block_views(out@);
        let ghost picked = block_views(rem@)[m as int];
        let item = rem.remove(m);
        out.push(item);
        proof {
            assert(block_views(rem@) =~= rem_before.remove(m as int));
            assert(block_views(out@) =~= out_before.push(picked));
            vstd::seq_lib::to_multiset_remove(rem_before, m as int);
            vstd::seq_lib::to_multiset_build(out_before, picked);
            vstd::seq_lib::to_multiset_contains(rem_before, picked);
            broadcast use vstd::multiset::group_multiset_axioms;
            assert(rem_before.remove(m as int).to_multiset() == rem_before.to_multiset().remove(
                picked,
            ));
            assert(out_before.push(picked).to_multiset() == out_before.to_multiset().insert(
                picked,
            ));
            assert(rem_before.contains(picked));
            assert(rem_before.to_multiset().count(picked) > 0);
            assert(out_before.to_multiset().insert(picked).add(
                rem_before.to_multiset().remove(picked),
            ) =~= out_before.to_multiset().add(rem_before.to_multiset()));
            assert(block_views(out@).to_multiset().add(block_views(rem@).to_multiset()) =~= orig
                .to_multiset());
            assert forall|j: int| 0 <= j < block_views(rem@).len() implies picked.0 <= (
            #[trigger] block_views(rem@)[j]).0 by {
                if j < m {
                    assert(block_views(rem@)[j] == rem_before[j]);
                } else {
                    assert(block_views(rem@)[j] == rem_before[j + 1]);
                }
            }
            assert forall|i: int| 0 <= i < out_before.len() implies (#[trigger] out_before[i]).0
                <= picked.0 by {
                assert(out_before[i].0 <= rem_before[m as int].0);
            }
            assert(sorted_by_id(block_views(out@)));
        }
    }
    proof {
        assert(block_views(rem@).to_multiset() =~= Multiset::<(usize, Seq<u8>)>::empty());
        assert(block_views(out@).to_multiset() =~= orig.to_multiset());
    }
    out
}

/// Concatenates rendered per-processor blocks in ascending processor-id
/// order, whatever order they were gathered in: the result is the
/// concatenation of some ascending-id arrangement of exactly the given
/// blocks.
pub fn assemble_blocks(blocks: Vec<(usize, Vec<u8>)>) -> (r: Vec<u8>)
    ensures
        exists|s: Seq<(usize, Seq<u8>)>|
            sorted_by_id(s) && s.to_multiset() == block_views(blocks@).to_multiset() && r@
                == concat_blocks(s),
{
    let sorted = sort_blocks(blocks);
    let ghost s = block_views(sorted@);
    let mut out: Vec<u8> = Vec::new();
    let mut i: usize = 0;
    while i < sorted.len()
        invariant
            i <= sorted@.len(),
            s == block_views(sorted@),
            out@ == concat_blocks_upto(s, i as int),
        decreases sorted@.len() - i,
    {
        let block = &sorted[i].1;
        let mut j: usize = 0;
        while j < block.len()
            invariant
                j <= block@.len(),
                block@ == s[i as int].1,
                i < s.len(),
                out@ == concat_blocks_upto(s, i as int) + block@.take(j as int),
            decreases block@.len() - j,
        {
            out.push(block[j]);
            proof {
                assert(out@ =~= concat_blocks_upto(s, i as int) + block@.take(j + 1));
            }
            j += 1;
        }
        proof {
            assert(block@.take(block@.len() as int) =~= block@);
            assert(out@ =~= concat_blocks_upto(s, i + 1));
        }
        i += 1;
    }
    proof {
        assert(out@ == concat_blocks(s));
    }
    out
}

/// Law: the ordered assembly is independent of gathering order. Any two
/// ascending-id arrangements of the same blocks, with no processor id
/// repeated, are equal, so their concatenations are equal too.
pub proof fn lemma_ordered_blocks_unique(s1: Seq<(usize, Seq<u8>)>, s2: Seq<(usize, Seq<u8>)>)
    requires
        sorted_by_id(s1),
        sorted_by_id(s2),
        distinct_ids(s1),
        s1.to_multiset() == s2.to_multiset(),
    ensures
        s1 == s2,
    decreases s1.len(),
{
    broadcast use vstd::multiset::group_multiset_axioms;
    broadcast use group_to_multiset_ensures;

    if s1.len() == 0 || s2.len() == 0 {
        assert(s1.to_multiset().len() == s1.len());
        assert(s2.to_multiset().len() == s2.len());
        assert(s1 =~= s2);
    } else {
        assert(s1.to_multiset().contains(s1[0]));
        assert(s1.to_multiset().contains(s2[0]));
        assert(s2.to_multiset().contains(s1[0]));
        let i = choose|i: int| #![trigger s1.spec_index(i)] 0 <= i < s1.len() && s1[i] == s2[0];
        let j = choose|j: int| #![trigger s2.spec_index(j)] 0 <= j < s2.len() && s2[j] == s1[0];
        assert(s1[0].0 <= s1[i].0);
        assert(s2[0].0 <= s2[j].0);
        assert(s1[0].0 == s2[0].0);
        assert(s1[0] == s2[0]) by {
            if i != 0 {
                assert(s1[i].0 != s1[0].0);
            }
        }
        assert(s1.remove(0) =~= s1.drop_first());
        assert(s2.remove(0) =~= s2.drop_first());
        vstd::seq_lib::to_multiset_remove(s1, 0);
        vstd::seq_lib::to_multiset_remove(s2, 0);
        assert(s1.remove(0).to_multiset() == s1.to_multiset().remove(s1[0]));
        assert(s2.remove(0).to_multiset() == s2.to_multiset().remove(s2[0]));
        assert(sorted_by_id(s1.drop_first()));
        assert(sorted_by_id(s2.drop_first()));
        assert(distinct_ids(s1.drop_first()));
        lemma_ordered_blocks_unique(s1.drop_first(), s2.drop_first());
        assert(s1 =~= Seq::<(usize, Seq<u8>)>::empty().push(s1.first()).add(s1.drop_first()));
        assert(s1 =~= s2);
    }
}

} // verus!
