//! Choosing among the places of a sequence by integer keys: the first place
//! with the least key, the last place with the greatest key, and the order
//! of the places by key in which equal keys keep their order.

use vstd::prelude::*;

verus! {

/// Whether `i` is the first place with the least key among the places that
/// are not skipped.
pub open spec fn is_first_least(keys: Seq<u32>, skip: Seq<bool>, i: int) -> bool {
    &&& 0 <= i < keys.len()
    &&& !skip[i]
    &&& forall|j: int| 0 <= j < keys.len() && !skip[j] ==> keys[i] <= #[trigger] keys[j]
    &&& forall|j: int| 0 <= j < i && !skip[j] ==> keys[i] < #[trigger] keys[j]
}

/// Whether `i` is the last place with the greatest key among the places
/// that are not skipped.
pub open spec fn is_last_greatest(keys: Seq<u32>, skip: Seq<bool>, i: int) -> bool {
    &&& 0 <= i < keys.len()
    &&& !skip[i]
    &&& forall|j: int| 0 <= j < keys.len() && !skip[j] ==> #[trigger] keys[j] <= keys[i]
    &&& forall|j: int| i < j < keys.len() && !skip[j] ==> #[trigger] keys[j] < keys[i]
}

/// Whether every place is skipped.
pub open spec fn all_skipped(skip: Seq<bool>) -> bool {
    forall|j: int| 0 <= j < skip.len() ==> #[trigger] skip[j]
}

/// The first place with the least key among the places that are not
/// skipped, if any place is not skipped.
pub fn first_least(keys: &Vec<u32>, skip: &Vec<bool>) -> (found: Option<usize>)
    requires
        keys@.len() == skip@.len(),
    ensures
        match found {
            Some(i) => is_first_least(keys@, skip@, i as int),
            None => all_skipped(skip@),
        },
{
    let mut found: Option<usize> = None;
    let mut j: usize = 0;
    while j < keys.len()
        invariant
            j <= keys@.len(),
            keys@.len() == skip@.len(),
            match found {
                Some(i) => is_first_least(keys@.take(j as int), skip@.take(j as int), i as int),
                None => all_skipped(skip@.take(j as int)),
            },
        decreases keys@.len() - j,
    {
        let ghost before = found;
        if !skip[j] {
            match found {
                Some(i) => {
                    if keys[j] < keys[i] {
                        found = Some(j);
                    }
                },
                None => {
                    found = Some(j);
                },
            }
        }
        j += 1;
        proof {
            let ks = keys@.take(j as int);
            let ss = skip@.take(j as int);
            let ks0 = keys@.take(j - 1);
            let ss0 = skip@.take(j - 1);
            assert forall|t: int| 0 <= t < j - 1 implies ks[t] == ks0[t] && ss[t] == ss0[t] by {}
            match found {
                Some(i) => {
                    assert forall|t: int| 0 <= t < ks.len() && !ss[t] implies ks[i as int]
                        <= #[trigger] ks[t] by {
                        if t < j - 1 {
                            assert(!ss0[t]);
                            if before is Some {
                                assert(ks0[before->0 as int] <= ks0[t]);
                            }
                        }
                    }
                    assert forall|t: int| 0 <= t < i && !ss[t] implies ks[i as int]
                        < #[trigger] ks[t] by {
                        assert(!ss0[t]);
                        if before is Some {
                            assert(ks0[before->0 as int] <= ks0[t]);
                        }
                    }
                },
                None => {
                    assert forall|t: int| 0 <= t < ss.len() implies #[trigger] ss[t] by {
                        if t < j - 1 {
                            assert(ss0[t]);
                        }
                    }
                },
            }
        }
    }
    proof {
        assert(keys@.take(keys@.len() as int) =~= keys@);
        assert(skip@.take(skip@.len() as int) =~= skip@);
    }
    found
}

/// The last place with the greatest key among the places that are not
/// skipped, if any place is not skipped.
pub fn last_greatest(keys: &Vec<u32>, skip: &Vec<bool>) -> (found: Option<usize>)
    requires
        keys@.len() == skip@.len(),
    ensures
        match found {
            Some(i) => is_last_greatest(keys@, skip@, i as int),
            None => all_skipped(skip@),
        },
{
    let mut found: Option<usize> = None;
    let mut j: usize = 0;
    while j < keys.len()
        invariant
            j <= keys@.len(),
            keys@.len() == skip@.len(),
            match found {
                Some(i) => is_last_greatest(keys@.take(j as int), skip@.take(j as int), i as int),
                None => all_skipped(skip@.take(j as int)),
            },
        decreases keys@.len() - j,
    {
        let ghost before = found;
        if !skip[j] {
            match found {
                Some(i) => {
                    if keys[j] >= keys[i] {
                        found = Some(j);
                    }
                },
                None => {
                    found = Some(j);
                },
            }
        }
        j += 1;
        proof {
            let ks = keys@.take(j as int);
            let ss = skip@.take(j as int);
            let ks0 = keys@.take(j - 1);
            let ss0 = skip@.take(j - 1);
            assert forall|t: int| 0 <= t < j - 1 implies ks[t] == ks0[t] && ss[t] == ss0[t] by {}
            match found {
                Some(i) => {
                    assert forall|t: int| 0 <= t < ks.len() && !ss[t] implies #[trigger] ks[t]
                        <= ks[i as int] by {
                        if t < j - 1 {
                            assert(!ss0[t]);
                            if before is Some {
                                assert(ks0[t] <= ks0[before->0 as int]);
                            }
                        }
                    }
                    assert forall|t: int| i < t < ks.len() && !ss[t] implies #[trigger] ks[t]
                        < ks[i as int] by {
                        if t < j - 1 {
                            assert(!ss0[t]);
                            if before is Some {
                                assert(ks0[t] <= ks0[before->0 as int]);
                            }
                        }
                    }
                },
                None => {
                    assert forall|t: int| 0 <= t < ss.len() implies #[trigger] ss[t] by {
                        if t < j - 1 {
                            assert(ss0[t]);
                        }
                    }
                },
            }
        }
    }
    proof {
        assert(keys@.take(keys@.len() as int) =~= keys@);
        assert(skip@.take(skip@.len() as int) =~= skip@);
    }
    found
}

/// Whether place `a` comes before place `b` by key, and by place where the
/// keys are equal.
pub open spec fn comes_before(keys: Seq<u64>, a: int, b: int) -> bool {
    keys[a] < keys[b] || (keys[a] == keys[b] && a < b)
}

/// Whether `order` lists the first `n` places of `keys` by key, with equal
/// keys in the order of their places.
pub open spec fn is_stable_order(keys: Seq<u64>, n: int, order: Seq<usize>) -> bool {
    &&& order.len() == n
    &&& forall|a: int| 0 <= a < order.len() ==> 0 <= #[trigger] order[a] < n
    &&& forall|a: int, b: int|
        0 <= a < b < order.len() ==> comes_before(
            keys,
            #[trigger] order[a] as int,
            #[trigger] order[b] as int,
        )
}

/// The places of `keys` by key, with equal keys in the order of their
/// places.
pub fn stable_order(keys: &Vec<u64>) -> (order: Vec<usize>)
    ensures
        is_stable_order(keys@, keys@.len() as int, order@),
{
    let mut order: Vec<usize> = Vec::new();
    let mut i: usize = 0;
    while i < keys.len()
        invariant
            i <= keys@.len(),
            is_stable_order(keys@, i as int, order@),
        decreases keys@.len() - i,
    {
        let key = keys[i];
        let mut p: usize = 0;
        while p < order.len() && keys[order[p]] <= key
            invariant
                p <= order@.len(),
                i < keys@.len(),
                key == keys@[i as int],
                is_stable_order(keys@, i as int, order@),
                forall|a: int| 0 <= a < p ==> keys@[#[trigger] order@[a] as int] <= key,
            decreases order@.len() - p,
        {
            p += 1;
        }
        let ghost before = order@;
        order.insert(p, i);
        proof {
            let after = order@;
            assert forall|a: int, b: int| 0 <= a < b < after.len() implies comes_before(
                keys@,
                #[trigger] after[a] as int,
                #[trigger] after[b] as int,
            ) by {
                if b < p {
                    assert(after[a] == before[a] && after[b] == before[b]);
                } else if b == p {
                    assert(after[a] == before[a]);
                    assert(keys@[before[a] as int] <= key);
                } else if a < p {
                    assert(after[a] == before[a] && after[b] == before[b - 1]);
                    if a < b - 1 {
                        assert(comes_before(keys@, before[a] as int, before[b - 1] as int));
                    }
                } else if a == p {
                    assert(after[b] == before[b - 1]);
                    if p < b - 1 {
                        assert(comes_before(keys@, before[p as int] as int, before[b - 1] as int));
                    }
                    assert(keys@[before[p as int] as int] > key);
                } else {
                    assert(after[a] == before[a - 1] && after[b] == before[b - 1]);
                }
            }
            assert forall|a: int| 0 <= a < after.len() implies 0 <= #[trigger] after[a] < i
                + 1 by {
                if a < p {
                    assert(after[a] == before[a]);
                } else if a > p {
                    assert(after[a] == before[a - 1]);
                }
            }
        }
        i += 1;
    }
    order
}

/// A stable order names every place once: places at different positions
/// differ.
pub proof fn lemma_stable_order_is_injective(keys: Seq<u64>, n: int, order: Seq<usize>)
    requires
        is_stable_order(keys, n, order),
    ensures
        forall|a: int, b: int|
            0 <= a < order.len() && 0 <= b < order.len() && a != b ==> #[trigger] order[a]
                != #[trigger] order[b],
{
    assert forall|a: int, b: int|
        0 <= a < order.len() && 0 <= b < order.len() && a != b implies #[trigger] order[a]
        != #[trigger] order[b] by {
        if a < b {
            assert(comes_before(keys, order[a] as int, order[b] as int));
        } else {
            assert(comes_before(keys, order[b] as int, order[a] as int));
        }
    }
}

} // verus!
