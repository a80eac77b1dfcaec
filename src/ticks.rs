use vstd::prelude::*;

verus! {

/// Each element is smaller than every later one.
pub open spec fn strictly_increasing(s: Seq<u32>) -> bool {
    forall|i: int, j: int| 0 <= i < j < s.len() ==> s[i] < s[j]
}

/// `new` is `old` with `t` added: ascending, each tick once, holding the
/// ticks of `old` and `t`.
pub open spec fn tick_added(old: Seq<u32>, new: Seq<u32>, t: u32) -> bool {
    &&& strictly_increasing(new)
    &&& forall|x: u32| new.contains(x) <==> (old.contains(x) || x == t)
}

/// Adds `t` to an ascending list of ticks, keeping it ascending and each
/// tick once.
pub fn insert_tick(ticks: &mut Vec<u32>, t: u32)
    requires
        strictly_increasing(old(ticks)@),
    ensures
        tick_added(old(ticks)@, final(ticks)@, t),
{
    let mut p: usize = 0;
    while p < ticks.len() && ticks[p] < t
        invariant
            p <= ticks.len(),
            ticks@ == old(ticks)@,
            strictly_increasing(ticks@),
            forall|j: int| 0 <= j < p ==> ticks@[j] < t,
        decreases ticks.len() - p,
    {
        p += 1;
    }
    let ghost before = ticks@;
    if p == ticks.len() || ticks[p] != t {
        ticks.insert(p, t);
        proof {
            assert forall|i: int, j: int|
                0 <= i < j < ticks@.len() implies ticks@[i] < ticks@[j] by {
                if j < p {
                    assert(ticks@[i] == before[i] && ticks@[j] == before[j]);
                } else if j == p {
                    assert(ticks@[i] == before[i]);
                } else if i < p {
                    assert(ticks@[i] == before[i] && ticks@[j] == before[j - 1]);
                    assert(before[p as int] >= t);
                    assert(before[p as int] <= before[j - 1]);
                } else if i == p {
                    assert(ticks@[j] == before[j - 1]);
                    assert(before[p as int] >= t);
                    assert(before[p as int] <= before[j - 1]);
                } else {
                    assert(ticks@[i] == before[i - 1] && ticks@[j] == before[j - 1]);
                }
            }
            assert forall|x: u32| ticks@.contains(x) <==> (before.contains(x) || x == t) by {
                if ticks@.contains(x) {
                    let i = choose|i: int| 0 <= i < ticks@.len() && ticks@[i] == x;
                    if i < p {
                        assert(before[i] == x);
                    } else if i > p {
                        assert(before[i - 1] == x);
                    }
                }
                if before.contains(x) {
                    let i = choose|i: int| 0 <= i < before.len() && before[i] == x;
                    if i < p {
                        assert(ticks@[i] == x);
                    } else {
                        assert(ticks@[i + 1] == x);
                    }
                }
                if x == t {
                    assert(ticks@[p as int] == x);
                }
            }
        }
    } else {
        assert(before.contains(t)) by {
            assert(before[p as int] == t);
        }
    }
}

/// The ticks of a candidate in ascending order, each once.
pub fn sorted_unique_ticks(ticks: &Vec<u32>) -> (r: Vec<u32>)
    ensures
        strictly_increasing(r@),
        forall|t: u32| r@.contains(t) <==> ticks@.contains(t),
{
    let mut out: Vec<u32> = Vec::new();
    let mut k: usize = 0;
    while k < ticks.len()
        invariant
            k <= ticks.len(),
            strictly_increasing(out@),
            forall|t: u32| out@.contains(t) <==> ticks@.subrange(0, k as int).contains(t),
        decreases ticks.len() - k,
    {
        let t = ticks[k];
        let ghost before = out@;
        insert_tick(&mut out, t);
        proof {
            let prefix = ticks@.subrange(0, k as int);
            assert(ticks@.subrange(0, k + 1) =~= prefix.push(t));
            assert forall|x: u32|
                prefix.push(t).contains(x) <==> (prefix.contains(x) || x == t) by {
                if prefix.push(t).contains(x) {
                    let i = choose|i: int| 0 <= i < prefix.len() + 1 && prefix.push(t)[i] == x;
                    if i < prefix.len() {
                        assert(prefix[i] == x);
                    }
                }
                if prefix.contains(x) {
                    let i = choose|i: int| 0 <= i < prefix.len() && prefix[i] == x;
                    assert(prefix.push(t)[i] == x);
                }
                if x == t {
                    assert(prefix.push(t)[prefix.len() as int] == x);
                }
            }
            assert forall|x: u32| out@.contains(x) <==> ticks@.subrange(0, k + 1).contains(x) by {
                assert(out@.contains(x) <==> (before.contains(x) || x == t));
                assert(before.contains(x) <==> prefix.contains(x));
            }
        }
        k += 1;
    }
    assert(ticks@.subrange(0, ticks@.len() as int) =~= ticks@);
    out
}

/// A table over the ticks from zero up to the largest of `ticks`, true
/// exactly at the ticks that `ticks` holds; empty when `ticks` is.
pub fn tick_mask(ticks: &Vec<u32>) -> (r: Vec<bool>)
    ensures
        forall|t: u32| ticks@.contains(t) ==> t < r@.len(),
        r@.len() == 0 || ticks@.contains((r@.len() - 1) as u32),
        ticks@.len() == 0 ==> r@.len() == 0,
        forall|i: int| 0 <= i < r@.len() ==> r@[i] == ticks@.contains(i as u32),
{
    let mut mask: Vec<bool> = Vec::new();
    if ticks.len() == 0 {
        return mask;
    }
    let mut max: u32 = ticks[0];
    let mut k: usize = 1;
    assert(ticks@.subrange(0, 1)[0] == max);
    while k < ticks.len()
        invariant
            1 <= k <= ticks.len(),
            ticks@.subrange(0, k as int).contains(max),
            forall|j: int| 0 <= j < k ==> ticks@[j] <= max,
        decreases ticks.len() - k,
    {
        if ticks[k] > max {
            max = ticks[k];
            assert(ticks@.subrange(0, k + 1)[k as int] == max);
        } else {
            assert(ticks@.subrange(0, k + 1)[k as int] == ticks@[k as int]);
            let ghost w = choose|w: int| 0 <= w < k && ticks@.subrange(0, k as int)[w] == max;
            assert(ticks@.subrange(0, k + 1)[w] == max);
        }
        k += 1;
    }
    assert(ticks@.subrange(0, ticks@.len() as int) =~= ticks@);
    while (mask.len() as u64) <= (max as u64)
        invariant
            mask@.len() <= max as int + 1,
            forall|i: int| 0 <= i < mask@.len() ==> !mask@[i],
        decreases max as int + 1 - mask@.len(),
    {
        mask.push(false);
    }
    let mut k: usize = 0;
    while k < ticks.len()
        invariant
            k <= ticks.len(),
            mask@.len() == max as int + 1,
            forall|j: int| 0 <= j < ticks@.len() ==> ticks@[j] <= max,
            ticks@.contains(max),
            forall|i: int|
                0 <= i < mask@.len() ==> mask@[i] == ticks@.subrange(0, k as int).contains(
                    i as u32,
                ),
        decreases ticks.len() - k,
    {
        let t = ticks[k];
        mask.set(t as usize, true);
        proof {
            let prefix = ticks@.subrange(0, k as int);
            let next = ticks@.subrange(0, k + 1);
            assert(next =~= prefix.push(t));
            assert forall|i: int| 0 <= i < mask@.len() implies mask@[i] == next.contains(
                i as u32,
            ) by {
                if next.contains(i as u32) {
                    let w = choose|w: int| 0 <= w < next.len() && next[w] == i as u32;
                    if w < prefix.len() {
                        assert(prefix[w] == i as u32);
                    }
                }
                if prefix.contains(i as u32) {
                    let w = choose|w: int| 0 <= w < prefix.len() && prefix[w] == i as u32;
                    assert(next[w] == i as u32);
                }
                if i == t as int {
                    assert(next[k as int] == t);
                }
            }
        }
        k += 1;
    }
    assert(ticks@.subrange(0, ticks@.len() as int) =~= ticks@);
    proof {
        assert forall|t: u32| ticks@.contains(t) implies t < mask@.len() by {
            let w = choose|w: int| 0 <= w < ticks@.len() && ticks@[w] == t;
        }
    }
    mask
}

} // verus!
