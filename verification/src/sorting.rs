//! Sorting of small result lists.
use vstd::prelude::*;

verus! {

broadcast use vstd::seq_lib::group_to_multiset_ensures;

/// `s` is in ascending order.
pub open spec fn is_ascending(s: Seq<u32>) -> bool {
    forall|i: int, j: int| 0 <= i < j < s.len() ==> s[i] <= s[j]
}

/// The position at which `x` goes into the ascending `s`, after every element
/// not greater than it.
fn upper_bound(s: &Vec<u32>, x: u32) -> (p: usize)
    requires
        is_ascending(s@),
    ensures
        p <= s@.len(),
        forall|j: int| 0 <= j < p ==> s@[j] <= x,
        forall|j: int| p <= j < s@.len() ==> s@[j] > x,
{
    let mut p: usize = 0;
    while p < s.len() && s[p] <= x
        invariant
            p <= s@.len(),
            is_ascending(s@),
            forall|j: int| 0 <= j < p ==> s@[j] <= x,
        decreases s@.len() - p,
    {
        p = p + 1;
    }
    p
}

/// The values of `v` in ascending order.
pub fn sort_ascending(v: Vec<u32>) -> (r: Vec<u32>)
    ensures
        is_ascending(r@),
        r@.to_multiset() == v@.to_multiset(),
{
    let mut r: Vec<u32> = Vec::new();
    let mut i: usize = 0;
    while i < v.len()
        invariant
            i <= v@.len(),
            is_ascending(r@),
            r@.to_multiset() == v@.take(i as int).to_multiset(),
        decreases v@.len() - i,
    {
        let x = v[i];
        let p = upper_bound(&r, x);
        let ghost r0 = r@;
        r.insert(p, x);
        proof {
            vstd::seq_lib::to_multiset_insert(r0, p as int, x);
            vstd::seq_lib::to_multiset_build(v@.take(i as int), x);
            assert(v@.take(i + 1) =~= v@.take(i as int).push(x));
            assert forall|a: int, b: int| 0 <= a < b < r@.len() implies r@[a] <= r@[b] by {
                if a < p && b > p {
                    assert(r@[a] == r0[a] && r@[b] == r0[b - 1]);
                } else if a == p {
                    assert(r@[b] == r0[b - 1]);
                } else if b == p {
                    assert(r@[a] == r0[a]);
                } else if a > p {
                    assert(r@[a] == r0[a - 1] && r@[b] == r0[b - 1]);
                }
            }
        }
        i = i + 1;
    }
    proof {
        assert(v@.take(v@.len() as int) =~= v@);
    }
    r
}

} // verus!
