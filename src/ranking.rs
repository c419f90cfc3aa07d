//! Choosing the processes to list: the busiest first.
use vstd::prelude::*;

verus! {

/// Processes listed on the dashboard.
pub const TOP_PROCESSES: usize = 20;

/// `r` lists the `min(k, |load|)` busiest positions of `load`, without repeats,
/// busiest first: no position left out is busier than one listed.
pub open spec fn is_top(load: Seq<u64>, k: nat, r: Seq<usize>) -> bool {
    &&& r.len() == if k < load.len() { k } else { load.len() }
    &&& forall|i: int| 0 <= i < r.len() ==> r[i] < load.len()
    &&& forall|i: int, j: int| 0 <= i < j < r.len() ==> r[i] != r[j]
    &&& forall|i: int, j: int| 0 <= i < j < r.len() ==> load[r[i] as int] >= load[r[j] as int]
    &&& forall|x: int, i: int|
        0 <= x < load.len() && 0 <= i < r.len() && !r.contains(x as usize) ==> #[trigger] load[x] <= load[#[trigger] r[i] as int]
}

/// The positions of the `k` largest loads, largest first (all positions when
/// there are fewer than `k`). Among equal loads, the earlier position comes first.
pub fn top_by_load(load: &Vec<u64>, k: usize) -> (r: Vec<usize>)
    ensures
        is_top(load@, k as nat, r@),
{
    let n = load.len();
    let want = if k < n {
        k
    } else {
        n
    };
    let mut rest: Vec<usize> = Vec::new();
    let mut i: usize = 0;
    while i < n
        invariant
            i <= n,
            n == load@.len(),
            rest@.len() == i,
            forall|j: int| 0 <= j < i ==> rest@[j] == j,
        decreases n - i,
    {
        rest.push(i);
        i = i + 1;
    }
    let mut r: Vec<usize> = Vec::new();
    assert forall|x: usize| x < n implies rest@.contains(x) by {
        assert(rest@[x as int] == x);
    }
    while r.len() < want
        invariant
            n == load@.len(),
            want <= n,
            want == if k < n { k } else { n },
            r@.len() <= want,
            r@.len() + rest@.len() == n,
            forall|x: usize| x < n ==> (#[trigger] r@.contains(x) <==> !rest@.contains(x)),
            forall|j: int| 0 <= j < rest@.len() ==> rest@[j] < n,
            forall|a: int, b: int| 0 <= a < b < rest@.len() ==> rest@[a] != rest@[b],
            forall|j: int| 0 <= j < r@.len() ==> r@[j] < n,
            forall|a: int, b: int| 0 <= a < b < r@.len() ==> r@[a] != r@[b],
            forall|a: int, b: int| 0 <= a < b < r@.len() ==> load@[r@[a] as int] >= load@[r@[b] as int],
            forall|a: int, j: int|
                0 <= a < r@.len() && 0 <= j < rest@.len() ==> load@[rest@[j] as int] <= load@[r@[a] as int],
        decreases want - r@.len(),
    {
        let mut best: usize = 0;
        let mut j: usize = 1;
        while j < rest.len()
            invariant
                n == load@.len(),
                rest@.len() > 0,
                best < rest@.len(),
                1 <= j <= rest@.len(),
                forall|q: int| 0 <= q < rest@.len() ==> rest@[q] < n,
                forall|q: int| 0 <= q < j ==> load@[rest@[q] as int] <= load@[rest@[best as int] as int],
            decreases rest@.len() - j,
        {
            if load[rest[j]] > load[rest[best]] {
                best = j;
            }
            j = j + 1;
        }
        let ghost old_r = r@;
        let ghost old_rest = rest@;
        let chosen = rest.remove(best);
        r.push(chosen);
        proof {
            assert(old_rest[best as int] == chosen);
            assert forall|x: usize| #[trigger] rest@.contains(x) implies old_rest.contains(x) && x
                != chosen by {
                let q = choose|q: int| 0 <= q < rest@.len() && rest@[q] == x;
                if q < best {
                    assert(old_rest[q] == x);
                } else {
                    assert(old_rest[q + 1] == x);
                }
            }
            assert forall|x: usize| old_rest.contains(x) && x != chosen implies #[trigger] rest@.contains(
                x,
            ) by {
                let q = choose|q: int| 0 <= q < old_rest.len() && old_rest[q] == x;
                if q < best {
                    assert(rest@[q] == x);
                } else {
                    assert(rest@[q - 1] == x);
                }
            }
            assert forall|x: usize| #[trigger] r@.contains(x) <==> (old_r.contains(x) || x == chosen) by {
                if r@.contains(x) {
                    let p = choose|p: int| 0 <= p < r@.len() && r@[p] == x;
                    if p < old_r.len() {
                        assert(old_r[p] == x);
                    }
                }
                if old_r.contains(x) {
                    let p = choose|p: int| 0 <= p < old_r.len() && old_r[p] == x;
                    assert(r@[p] == x);
                }
                if x == chosen {
                    assert(r@[old_r.len() as int] == x);
                }
            }
            assert forall|a: int, b: int| 0 <= a < b < rest@.len() implies rest@[a] != rest@[b] by {
                let a2 = if a < best { a } else { a + 1 };
                let b2 = if b < best { b } else { b + 1 };
                assert(rest@[a] == old_rest[a2]);
                assert(rest@[b] == old_rest[b2]);
            }
            assert forall|a: int, b: int| 0 <= a < b < r@.len() implies r@[a] != r@[b] by {
                if b == old_r.len() {
                    assert(old_r.contains(old_r[a]));
                    assert(old_rest.contains(chosen));
                }
            }
            assert forall|a: int, j: int|
                0 <= a < r@.len() && 0 <= j < rest@.len() implies load@[rest@[j] as int]
                <= load@[r@[a] as int] by {
                if j < best {
                    assert(rest@[j] == old_rest[j]);
                } else {
                    assert(rest@[j] == old_rest[j + 1]);
                }
                assert(load@[rest@[j] as int] <= load@[chosen as int]);
            }
            assert forall|a: int, b: int| 0 <= a < b < r@.len() implies load@[r@[a] as int]
                >= load@[r@[b] as int] by {
                if b == old_r.len() {
                    assert(old_rest[best as int] == chosen);
                }
            }
        }
    }
    proof {
        assert forall|x: int, a: int|
            0 <= x < load@.len() && 0 <= a < r@.len() && !r@.contains(x as usize) implies #[trigger] load@[x]
            <= load@[#[trigger] r@[a] as int] by {
            assert(rest@.contains(x as usize)) by {
                assert(!r@.contains(x as usize));
            }
            let q = choose|q: int| 0 <= q < rest@.len() && rest@[q] == x as usize;
            assert(load@[rest@[q] as int] <= load@[r@[a] as int]);
        }
    }
    r
}

} // verus!
