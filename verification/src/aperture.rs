//! The integer side of aperture loss: which dimensions were dark.
use vstd::prelude::*;

verus! {

broadcast use vstd::seq_lib::group_to_multiset_ensures;

/// Every element is at most the ones after it.
pub open spec fn sorted(s: Seq<usize>) -> bool {
    forall|i: int, j: int| 0 <= i < j < s.len() ==> s[i] <= s[j]
}

/// `acc` followed by each element of `incoming`, in order, that is not yet
/// present when its turn comes.
pub open spec fn with_new_dims(acc: Seq<usize>, incoming: Seq<usize>) -> Seq<usize>
    decreases incoming.len(),
{
    if incoming.len() == 0 {
        acc
    } else {
        let prev = with_new_dims(acc, incoming.drop_last());
        if prev.contains(incoming.last()) {
            prev
        } else {
            prev.push(incoming.last())
        }
    }
}

/// An element is in `with_new_dims(acc, incoming)` exactly when it is in
/// `acc` or in `incoming`.
pub proof fn lemma_with_new_dims_contains(acc: Seq<usize>, incoming: Seq<usize>, d: usize)
    ensures
        with_new_dims(acc, incoming).contains(d) <==> acc.contains(d) || incoming.contains(d),
    decreases incoming.len(),
{
    if incoming.len() > 0 {
        let init = incoming.drop_last();
        lemma_with_new_dims_contains(acc, init, d);
        let prev = with_new_dims(acc, init);
        assert(incoming == init.push(incoming.last()));
        if init.contains(d) {
            let k: int = choose|k: int| 0 <= k < init.len() && init[k] == d;
            assert(incoming[k] == d);
        }
        if incoming.contains(d) && !init.contains(d) {
            let k: int = choose|k: int| 0 <= k < incoming.len() && incoming[k] == d;
            if k < init.len() {
                assert(init[k] == d);
            }
            assert(d == incoming.last());
        }
        if !prev.contains(incoming.last()) {
            let next = prev.push(incoming.last());
            if prev.contains(d) {
                let k: int = choose|k: int| 0 <= k < prev.len() && prev[k] == d;
                assert(next[k] == d);
            }
            if next.contains(d) && d != incoming.last() {
                let k: int = choose|k: int| 0 <= k < next.len() && next[k] == d;
                assert(prev[k] == d);
            }
            assert(next[prev.len() as int] == incoming.last());
        }
    }
}

/// How often a dimension occurs in `with_new_dims(acc, incoming)`: as often
/// as in `acc` when `acc` has it, once when only `incoming` has it, and
/// otherwise not at all.
pub proof fn lemma_with_new_dims_count(acc: Seq<usize>, incoming: Seq<usize>, d: usize)
    ensures
        with_new_dims(acc, incoming).to_multiset().count(d) == if acc.contains(d) {
            acc.to_multiset().count(d)
        } else if incoming.contains(d) {
            1
        } else {
            0
        },
    decreases incoming.len(),
{
    broadcast use vstd::multiset::group_multiset_axioms;

    if incoming.len() == 0 {
        vstd::seq_lib::to_multiset_contains(acc, d);
    } else {
        let init = incoming.drop_last();
        let x = incoming.last();
        lemma_with_new_dims_count(acc, init, d);
        lemma_with_new_dims_contains(acc, init, d);
        lemma_with_new_dims_contains(acc, init, x);
        lemma_with_new_dims_contains(acc, incoming, d);
        let prev = with_new_dims(acc, init);
        vstd::seq_lib::to_multiset_contains(prev, d);
        vstd::seq_lib::to_multiset_contains(acc, d);
        assert(incoming == init.push(x));
        assert(incoming.contains(d) <==> init.contains(d) || d == x) by {
            if init.contains(d) {
                let k: int = choose|k: int| 0 <= k < init.len() && init[k] == d;
                assert(incoming[k] == d);
            }
            if incoming.contains(d) && d != x {
                let k: int = choose|k: int| 0 <= k < incoming.len() && incoming[k] == d;
                assert(k < init.len());
                assert(init[k] == d);
            }
            assert(incoming[incoming.len() - 1] == x);
        }
        if !prev.contains(x) {
            assert(prev.push(x).to_multiset() =~= prev.to_multiset().insert(x));
        }
    }
}

/// Whether `d` occurs in `dims`.
fn contains_dim(dims: &Vec<usize>, d: usize) -> (b: bool)
    ensures
        b == dims@.contains(d),
{
    let mut i: usize = 0;
    while i < dims.len()
        invariant
            i <= dims.len(),
            forall|k: int| 0 <= k < i ==> dims@[k] != d,
        decreases dims.len() - i,
    {
        if dims[i] == d {
            return true;
        }
        i = i + 1;
    }
    false
}

/// The elements of `dims` in ascending order.
fn sort_dims(dims: Vec<usize>) -> (r: Vec<usize>)
    ensures
        sorted(r@),
        r@.to_multiset() == dims@.to_multiset(),
{
    let mut out: Vec<usize> = Vec::new();
    let mut i: usize = 0;
    while i < dims.len()
        invariant
            i <= dims.len(),
            sorted(out@),
            out@.to_multiset() == dims@.take(i as int).to_multiset(),
        decreases dims.len() - i,
    {
        let x: usize = dims[i];
        let mut j: usize = 0;
        while j < out.len() && out[j] <= x
            invariant
                j <= out.len(),
                forall|k: int| 0 <= k < j ==> out@[k] <= x,
            decreases out.len() - j,
        {
            j = j + 1;
        }
        let ghost before = out@;
        out.insert(j, x);
        proof {
            assert forall|a: int, b: int| 0 <= a < b < out@.len() implies out@[a] <= out@[b] by {
                if b < j {
                } else if b == j {
                    assert(out@[a] == before[a]);
                } else if a < j {
                    assert(out@[b] == before[b - 1]);
                    if j < before.len() {
                        assert(before[a] <= before[j as int]);
                        assert(before[j as int] <= before[b - 1]);
                    }
                } else if a == j {
                    assert(out@[b] == before[b - 1]);
                    assert(before[j as int] > x);
                    assert(before[j as int] <= before[b - 1]);
                } else {
                    assert(out@[a] == before[a - 1]);
                    assert(out@[b] == before[b - 1]);
                }
            }
            assert(dims@.take(i + 1) == dims@.take(i as int).push(x));
        }
        i = i + 1;
    }
    assert(dims@.take(dims.len() as int) == dims@);
    out
}

/// The dark dimensions of two observations together. When one side has none,
/// the other side unchanged; otherwise `dims`, then each dimension of
/// `other` not yet present, all in ascending order.
pub fn merge_dark_dims(dims: Vec<usize>, other: Vec<usize>) -> (r: Vec<usize>)
    ensures
        dims@.len() == 0 ==> r@ == other@,
        other@.len() == 0 ==> r@ == dims@,
        dims@.len() > 0 && other@.len() > 0 ==> sorted(r@) && r@.to_multiset()
            == with_new_dims(dims@, other@).to_multiset(),
        dims@.len() > 0 && other@.len() > 0 ==> forall|d: usize|
            #[trigger] r@.to_multiset().count(d) == if dims@.contains(d) {
                dims@.to_multiset().count(d)
            } else if other@.contains(d) {
                1
            } else {
                0
            },
        forall|d: usize| r@.contains(d) <==> dims@.contains(d) || other@.contains(d),
{
    if dims.len() == 0 {
        return other;
    }
    if other.len() == 0 {
        return dims;
    }
    let mut all = dims;
    let mut i: usize = 0;
    while i < other.len()
        invariant
            i <= other.len(),
            all@ == with_new_dims(dims@, other@.take(i as int)),
        decreases other.len() - i,
    {
        let d: usize = other[i];
        proof {
            assert(other@.take(i + 1).drop_last() == other@.take(i as int));
            assert(other@.take(i + 1).last() == d);
        }
        if !contains_dim(&all, d) {
            all.push(d);
        }
        i = i + 1;
    }
    assert(other@.take(other.len() as int) == other@);
    let r = sort_dims(all);
    proof {
        assert forall|d: usize| r@.contains(d) <==> dims@.contains(d) || other@.contains(d) by {
            lemma_with_new_dims_contains(dims@, other@, d);
            vstd::seq_lib::to_multiset_contains(r@, d);
            vstd::seq_lib::to_multiset_contains(with_new_dims(dims@, other@), d);
        }
        assert forall|d: usize| #[trigger] r@.to_multiset().count(d) == if dims@.contains(d) {
            dims@.to_multiset().count(d)
        } else if other@.contains(d) {
            1
        } else {
            0
        } by {
            lemma_with_new_dims_count(dims@, other@, d);
        }
    }
    r
}

} // verus!
