//! Quadratic in-place sorting routines.
use vstd::prelude::*;
use core::cmp::Ordering;
use vstd::std_specs::cmp::PartialOrdSpec;
use vstd::seq_lib::{to_multiset_contains, to_multiset_update};

verus! {

broadcast use vstd::multiset::group_multiset_axioms;

/// Every element is at most every later one.
pub open spec fn sorted_u32(s: Seq<u32>) -> bool {
    forall|a: int, b: int| 0 <= a < b < s.len() ==> s[a] <= s[b]
}

/// Exchanging two positions keeps the elements, counted with their multiplicity.
proof fn lemma_swap_keeps_multiset<A>(s: Seq<A>, i: int, j: int)
    requires
        0 <= i < s.len(),
        0 <= j < s.len(),
    ensures
        s.update(i, s[j]).update(j, s[i]).to_multiset() == s.to_multiset(),
{
    if i != j {
        let t = s.update(i, s[j]);
        let m = s.to_multiset();
        to_multiset_update(s, i, s[j]);
        to_multiset_update(t, j, s[i]);
        assert(t[j] == s[j]);
        assert(s.contains(s[i]));
        to_multiset_contains(s, s[i]);
        let m1 = m.insert(s[j]).remove(s[i]);
        assert(m1.insert(s[i]).remove(s[j]) =~= m);
    } else {
        assert(s.update(i, s[j]).update(j, s[i]) =~= s);
    }
}

/// Whether `a` does not come after `b` under `T`'s comparison.
pub open spec fn not_after<T: PartialOrd>(a: T, b: T) -> bool {
    a.partial_cmp_spec(&b) != Some(Ordering::Greater)
}

/// `T`'s comparison is a total order: any two values compare, `a` comes before `b` exactly when
/// `b` comes after `a`, only equal values compare equal, and coming before is transitive.
pub open spec fn total_order<T: PartialOrd>() -> bool {
    &&& T::obeys_partial_cmp_spec()
    &&& forall|x: T, y: T| #[trigger] x.partial_cmp_spec(&y) is Some
    &&& forall|x: T, y: T|
        #[trigger] x.partial_cmp_spec(&y) == Some(Ordering::Less) <==> y.partial_cmp_spec(&x) == Some(
            Ordering::Greater,
        )
    &&& forall|x: T, y: T| #[trigger] x.partial_cmp_spec(&y) == Some(Ordering::Equal) ==> x == y
    &&& forall|x: T, y: T, z: T|
        #![trigger x.partial_cmp_spec(&y), y.partial_cmp_spec(&z)]
        x.partial_cmp_spec(&y) == Some(Ordering::Less) && y.partial_cmp_spec(&z) == Some(
            Ordering::Less,
        ) ==> x.partial_cmp_spec(&z) == Some(Ordering::Less)
}

/// No element comes after a later one.
pub open spec fn sorted_by_cmp<T: PartialOrd>(s: Seq<T>) -> bool {
    forall|a: int, b: int| 0 <= a < b < s.len() ==> not_after(s[a], s[b])
}

/// The comparison of `i32` is a total order.
pub proof fn lemma_i32_total_order()
    ensures
        total_order::<i32>(),
{
}

proof fn lemma_not_after_transitive<T: PartialOrd>(a: T, b: T, c: T)
    requires
        total_order::<T>(),
        not_after(a, b),
        not_after(b, c),
    ensures
        not_after(a, c),
{
    assert(a.partial_cmp_spec(&b) is Some);
    assert(b.partial_cmp_spec(&c) is Some);
    assert(a.partial_cmp_spec(&c) is Some);
    if a.partial_cmp_spec(&c) == Some(Ordering::Greater) {
        assert(c.partial_cmp_spec(&a) == Some(Ordering::Less));
        if a.partial_cmp_spec(&b) == Some(Ordering::Equal) {
            assert(a == b);
        } else if b.partial_cmp_spec(&c) == Some(Ordering::Equal) {
            assert(b == c);
        } else {
            assert(a.partial_cmp_spec(&b) == Some(Ordering::Less));
            assert(b.partial_cmp_spec(&c) == Some(Ordering::Less));
        }
    }
}

proof fn lemma_not_after_reflexive<T: PartialOrd>(a: T)
    requires
        total_order::<T>(),
    ensures
        not_after(a, a),
{
    assert(a.partial_cmp_spec(&a) is Some);
    if a.partial_cmp_spec(&a) == Some(Ordering::Greater) {
        assert(a.partial_cmp_spec(&a) == Some(Ordering::Less));
    }
}

proof fn lemma_after_flips<T: PartialOrd>(a: T, b: T)
    requires
        total_order::<T>(),
        a.partial_cmp_spec(&b) == Some(Ordering::Greater),
    ensures
        not_after(b, a),
{
    assert(b.partial_cmp_spec(&a) == Some(Ordering::Less));
}

/// Pairwise order of neighbours up to `hi` gives order of every pair up to `hi`.
proof fn lemma_neighbours_sorted<T: PartialOrd>(s: Seq<T>, hi: int)
    requires
        total_order::<T>(),
        0 <= hi < s.len(),
        forall|k: int| 0 <= k < hi ==> #[trigger] not_after(s[k], s[k + 1]),
    ensures
        forall|a: int, b: int| 0 <= a < b <= hi ==> not_after(s[a], s[b]),
    decreases hi,
{
    if hi > 0 {
        lemma_neighbours_sorted(s, hi - 1);
        assert forall|a: int, b: int| 0 <= a < b <= hi implies not_after(s[a], s[b]) by {
            if b == hi {
                assert(not_after(s[hi - 1], s[(hi - 1) + 1]));
                if a < hi - 1 {
                    lemma_not_after_transitive(s[a], s[hi - 1], s[hi]);
                }
            }
        }
    }
}

/// Exchanges the elements at `i` and `i + 1`.
fn swap_next<T>(v: &mut [T], i: usize)
    requires
        i + 1 < old(v)@.len(),
    ensures
        final(v)@ == old(v)@.update(i as int, old(v)@[i + 1]).update(i + 1, old(v)@[i as int]),
{
    let n = v.len();
    let (left, right) = v.split_at_mut(i + 1);
    std::mem::swap(&mut left[i], &mut right[0]);
}

/// Sorts `eles` by exchanging neighbours that are out of order; stops after a pass with no
/// exchange. The elements are kept, and when `T`'s comparison is a total order no element ends
/// up after a later one.
pub fn bubble_sort<T: PartialOrd>(eles: &mut [T])
    ensures
        final(eles)@.len() == old(eles)@.len(),
        final(eles)@.to_multiset() == old(eles)@.to_multiset(),
        total_order::<T>() ==> sorted_by_cmp(final(eles)@),
{
    let ghost total = total_order::<T>();
    let n: usize = eles.len();
    let mut o: usize = 0;
    while o < n
        invariant
            n == eles@.len(),
            n == old(eles)@.len(),
            o <= n,
            total == total_order::<T>(),
            eles@.to_multiset() == old(eles)@.to_multiset(),
            total ==> forall|a: int, b: int|
                n - o <= a < b < n ==> not_after(eles@[a], eles@[b]),
            total ==> forall|a: int, b: int|
                0 <= a < n - o <= b < n ==> not_after(eles@[a], eles@[b]),
        decreases n - o,
    {
        let mut sorted = true;
        let m: usize = (n - 1) - o;
        let mut i: usize = 0;
        while i < m
            invariant
                n == eles@.len(),
                n == old(eles)@.len(),
                o < n,
                m == n - 1 - o,
                i <= m,
                total == total_order::<T>(),
                eles@.to_multiset() == old(eles)@.to_multiset(),
                total ==> forall|a: int, b: int|
                    n - o <= a < b < n ==> not_after(eles@[a], eles@[b]),
                total ==> forall|a: int, b: int|
                    0 <= a < n - o <= b < n ==> not_after(eles@[a], eles@[b]),
                total ==> forall|k: int| 0 <= k <= i ==> not_after(eles@[k], eles@[i as int]),
                total && sorted ==> forall|k: int|
                    0 <= k < i ==> #[trigger] not_after(eles@[k], eles@[k + 1]),
            decreases m - i,
        {
            let ghost before = eles@;
            if eles[i] > eles[i + 1] {
                swap_next(eles, i);
                sorted = false;
                proof {
                    lemma_swap_keeps_multiset(before, i as int, i + 1);
                    if total {
                        lemma_after_flips(before[i as int], before[i + 1]);
                        assert forall|k: int| #![trigger eles@[k]] 0 <= k <= i + 1 implies not_after(
                            eles@[k],
                            eles@[i + 1],
                        ) by {
                            if k == i + 1 {
                                lemma_not_after_reflexive(eles@[k]);
                            }
                        }
                    }
                }
            } else {
                proof {
                    if total {
                        assert(not_after(before[i as int], before[i + 1]));
                        assert forall|k: int| #![trigger eles@[k]] 0 <= k <= i + 1 implies not_after(
                            eles@[k],
                            eles@[i + 1],
                        ) by {
                            if k < i {
                                lemma_not_after_transitive(before[k], before[i as int], before[i + 1]);
                            } else if k == i + 1 {
                                lemma_not_after_reflexive(eles@[k]);
                            }
                        }
                    }
                }
            }
            i = i + 1;
        }
        if sorted {
            proof {
                if total {
                    lemma_neighbours_sorted(eles@, m as int);
                }
            }
            return;
        }
        o = o + 1;
    }
}

/// Sorts `list` in ascending order: each element in turn moves towards the front past the
/// larger ones before it.
pub fn insert_sort(list: &mut Vec<u32>)
    ensures
        final(list)@.to_multiset() == old(list)@.to_multiset(),
        sorted_u32(final(list)@),
{
    let n: usize = list.len();
    let mut i: usize = 1;
    while i < n
        invariant
            n == list@.len(),
            1 <= i,
            i <= n || n == 0,
            list@.to_multiset() == old(list)@.to_multiset(),
            forall|a: int, b: int| 0 <= a < b < i && b < n ==> list@[a] <= list@[b],
        decreases n - i,
    {
        let mut flag: usize = i;
        while flag > 0 && list[flag] < list[flag - 1]
            invariant
                n == list@.len(),
                i < n,
                flag <= i,
                list@.to_multiset() == old(list)@.to_multiset(),
                forall|a: int, b: int|
                    0 <= a < b <= i && a != flag && b != flag ==> list@[a] <= list@[b],
                forall|b: int| flag < b <= i ==> list@[flag as int] <= list@[b],
            decreases flag,
        {
            let x = list[flag];
            let y = list[flag - 1];
            proof {
                lemma_swap_keeps_multiset(list@, flag as int, flag - 1);
            }
            list[flag] = y;
            list[flag - 1] = x;
            flag = flag - 1;
        }
        i = i + 1;
    }
}

/// Sorts `list` in ascending order: each position in turn receives the least of the elements
/// from there on.
pub fn select_sort(list: &mut Vec<u32>)
    ensures
        final(list)@.to_multiset() == old(list)@.to_multiset(),
        sorted_u32(final(list)@),
{
    let n: usize = list.len();
    if n == 0 {
        return;
    }
    let mut i: usize = 0;
    while i < n - 1
        invariant
            n == list@.len(),
            n > 0,
            i <= n - 1,
            list@.to_multiset() == old(list)@.to_multiset(),
            forall|a: int, b: int| 0 <= a < b < i ==> list@[a] <= list@[b],
            forall|a: int, b: int| 0 <= a < i <= b < n ==> list@[a] <= list@[b],
        decreases n - i,
    {
        let mut smaller_index: usize = i;
        let mut smaller: u32 = list[i];
        let mut j: usize = i + 1;
        while j < n
            invariant
                n == list@.len(),
                i < j <= n,
                i <= smaller_index < j,
                smaller == list@[smaller_index as int],
                forall|k: int| i <= k < j ==> smaller <= list@[k],
            decreases n - j,
        {
            if smaller >= list[j] {
                smaller_index = j;
                smaller = list[j];
            }
            j = j + 1;
        }
        let x = list[i];
        proof {
            lemma_swap_keeps_multiset(list@, i as int, smaller_index as int);
        }
        list[i] = smaller;
        list[smaller_index] = x;
        i = i + 1;
    }
}

} // verus!
