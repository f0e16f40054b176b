//! The deterministic leaf/sub-leaf enumeration plan, derived from the three
//! discovery values probed at run start.

use vstd::prelude::*;

verus! {

/// How many sub-leaves the plan queries for one standard leaf.
pub open spec fn std_sub_count(leaf: u32, leaf_07h_subc: u32) -> nat {
    if leaf == 0x4 {
        5
    } else if leaf == 0x7 {
        (leaf_07h_subc + 1) as nat
    } else if leaf == 0xB {
        2
    } else if leaf == 0xD {
        15
    } else {
        1
    }
}

/// How many sub-leaves the plan queries for one extended leaf.
pub open spec fn ext_sub_count(leaf: u32) -> nat {
    if leaf == 0x8000_001D {
        5
    } else if leaf == 0x8000_0020 {
        2
    } else {
        1
    }
}

/// The queries of one leaf: sub-leaves `0 .. count` in ascending order.
pub open spec fn leaf_entries(leaf: u32, count: nat) -> Seq<(u32, u32)> {
    Seq::new(count, |i: int| (leaf, i as u32))
}

/// The plan segment of the first `n` standard leaves, in ascending leaf
/// order.
pub open spec fn std_plan(n: nat, leaf_07h_subc: u32) -> Seq<(u32, u32)>
    decreases n,
{
    if n == 0 {
        Seq::empty()
    } else {
        std_plan((n - 1) as nat, leaf_07h_subc) + leaf_entries(
            (n - 1) as u32,
            std_sub_count((n - 1) as u32, leaf_07h_subc),
        )
    }
}

/// The plan segment of the first `n` extended leaves, starting at
/// 0x8000_0000, in ascending leaf order.
pub open spec fn ext_plan(n: nat) -> Seq<(u32, u32)>
    decreases n,
{
    if n == 0 {
        Seq::empty()
    } else {
        ext_plan((n - 1) as nat) + leaf_entries(
            (0x8000_0000 + (n - 1)) as u32,
            ext_sub_count((0x8000_0000 + (n - 1)) as u32),
        )
    }
}

/// The full enumeration plan, a total function of the three discovery
/// values: all standard leaves up to `max_std_leaf` with their sub-leaf
/// expansions, the fixed trailing block for leaf 0x1F, then all extended
/// leaves up to `max_ext_leaf`. A discovery value below its range start
/// degenerates to an empty or single-entry segment.
pub open spec fn leaf_pool_spec(max_std_leaf: u32, leaf_07h_subc: u32, max_ext_leaf: u32) -> Seq<
    (u32, u32),
> {
    std_plan((max_std_leaf + 1) as nat, leaf_07h_subc) + leaf_entries(0x1F, 5) + ext_plan(
        if max_ext_leaf < 0x8000_0000 {
            0
        } else {
            (max_ext_leaf - 0x8000_0000 + 1) as nat
        },
    )
}

/// Appends sub-leaves `0 .. count` of `leaf` to `pool`.
fn push_leaf_block(pool: &mut Vec<(u32, u32)>, leaf: u32, count: u32)
    ensures
        final(pool)@ == old(pool)@ + leaf_entries(leaf, count as nat),
{
    let mut sub: u32 = 0;
    while sub < count
        invariant
            sub <= count,
            pool@ == old(pool)@ + leaf_entries(leaf, sub as nat),
        decreases count - sub,
    {
        pool.push((leaf, sub));
        proof {
            assert(leaf_entries(leaf, (sub + 1) as nat) =~= leaf_entries(leaf, sub as nat).push(
                (leaf, sub),
            ));
            assert(pool@ =~= old(pool)@ + leaf_entries(leaf, (sub + 1) as nat));
        }
        sub += 1;
    }
}

/// Appends sub-leaves `0 ..= last` of `leaf` to `pool`.
fn push_leaf_block_inclusive(pool: &mut Vec<(u32, u32)>, leaf: u32, last: u32)
    ensures
        final(pool)@ == old(pool)@ + leaf_entries(leaf, last as nat + 1),
{
    let mut sub: u32 = 0;
    let mut done = false;
    while !done
        invariant
            pool@ == old(pool)@ + leaf_entries(leaf, (sub + (if done {
                1int
            } else {
                0
            })) as nat),
            done ==> sub == last,
            !done ==> sub <= last,
        decreases last + 1 - sub + (if done {
            0int
        } else {
            1
        }),
    {
        pool.push((leaf, sub));
        proof {
            assert(leaf_entries(leaf, (sub + 1) as nat) =~= leaf_entries(leaf, sub as nat).push(
                (leaf, sub),
            ));
            assert(pool@ =~= old(pool)@ + leaf_entries(leaf, (sub + 1) as nat));
        }
        if sub == last {
            done = true;
        } else {
            sub += 1;
        }
    }
}

/// Builds the full ordered enumeration plan from the three discovery
/// values: the eax of probing leaf 0, the eax of probing leaf 7 sub-leaf 0,
/// and the eax of probing leaf 0x8000_0000. The builder is pure and never
/// fails; degenerate discovery values simply shrink the ranges.
pub fn leaf_pool(max_std_leaf: u32, leaf_07h_subc: u32, max_ext_leaf: u32) -> (r: Vec<(u32, u32)>)
    ensures
        r@ == leaf_pool_spec(max_std_leaf, leaf_07h_subc, max_ext_leaf),
{
    let mut pool: Vec<(u32, u32)> = Vec::new();
    let ghost l7 = leaf_07h_subc;

    let mut leaf: u32 = 0;
    let mut done = false;
    proof {
        assert(pool@ =~= std_plan(0, l7));
    }
    while !done
        invariant
            pool@ == std_plan((leaf + (if done {
                1int
            } else {
                0
            })) as nat, l7),
            done ==> leaf == max_std_leaf,
            !done ==> leaf <= max_std_leaf,
            l7 == leaf_07h_subc,
        decreases max_std_leaf + 1 - leaf + (if done {
            0int
        } else {
            1
        }),
    {
        if leaf == 0x4 {
            push_leaf_block(&mut pool, leaf, 5);
        } else if leaf == 0x7 {
            push_leaf_block_inclusive(&mut pool, leaf, leaf_07h_subc);
        } else if leaf == 0xB {
            push_leaf_block(&mut pool, leaf, 2);
        } else if leaf == 0xD {
            push_leaf_block(&mut pool, leaf, 15);
        } else {
            push_leaf_block(&mut pool, leaf, 1);
        }
        proof {
            assert(pool@ =~= std_plan(leaf as nat + 1, l7));
        }
        if leaf == max_std_leaf {
            done = true;
        } else {
            leaf += 1;
        }
    }
    let ghost std_part = std_plan(max_std_leaf as nat + 1, l7);

    push_leaf_block(&mut pool, 0x1F, 5);
    proof {
        assert(pool@ =~= std_part + leaf_entries(0x1F, 5));
    }
    let ghost mid_part = std_part + leaf_entries(0x1F, 5);

    if max_ext_leaf >= 0x8000_0000 {
        let mut eleaf: u32 = 0x8000_0000;
        let mut edone = false;
        proof {
            assert(pool@ =~= mid_part + ext_plan(0));
        }
        while !edone
            invariant
                0x8000_0000 <= eleaf,
                pool@ == mid_part + ext_plan(
                    (eleaf - 0x8000_0000 + (if edone {
                        1int
                    } else {
                        0
                    })) as nat,
                ),
                edone ==> eleaf == max_ext_leaf,
                !edone ==> eleaf <= max_ext_leaf,
            decreases max_ext_leaf + 1 - eleaf + (if edone {
                0int
            } else {
                1
            }),
        {
            if eleaf == 0x8000_001D {
                push_leaf_block(&mut pool, eleaf, 5);
            } else if eleaf == 0x8000_0020 {
                push_leaf_block(&mut pool, eleaf, 2);
            } else {
                push_leaf_block(&mut pool, eleaf, 1);
            }
            proof {
                assert(pool@ =~= mid_part + ext_plan((eleaf - 0x8000_0000 + 1) as nat));
            }
            if eleaf == max_ext_leaf {
                edone = true;
            } else {
                eleaf += 1;
            }
        }
    }
    proof {
        assert(pool@ =~= leaf_pool_spec(max_std_leaf, leaf_07h_subc, max_ext_leaf));
    }
    pool
}

/// Law: the enumeration plan is deterministic. Any two plans derived from
/// identical discovery values are identical, entry for entry and in order.
pub proof fn lemma_leaf_plan_deterministic(
    p1: Seq<(u32, u32)>,
    p2: Seq<(u32, u32)>,
    max_std_leaf: u32,
    leaf_07h_subc: u32,
    max_ext_leaf: u32,
)
    requires
        p1 == leaf_pool_spec(max_std_leaf, leaf_07h_subc, max_ext_leaf),
        p2 == leaf_pool_spec(max_std_leaf, leaf_07h_subc, max_ext_leaf),
    ensures
        p1 == p2,
{
}

} // verus!
