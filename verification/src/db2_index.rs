//! Indexing of table rows by their record id.
//!
//! Every id-keyed store of this crate is built the same way: rows are taken in
//! table order and inserted into a hash map under their id, so a later row with
//! an id that was already seen replaces the earlier one.
use std::collections::HashMap;
use vstd::prelude::*;
use vstd::std_specs::iter::IteratorSpec;

verus! {

broadcast use vstd::std_specs::hash::group_hash_axioms;

/// A table row that carries its own record id.
pub trait Keyed: Sized {
    /// The record id of the row, as a mathematical value.
    spec fn spec_key(&self) -> u32;

    /// The record id of the row.
    fn key(&self) -> (k: u32)
        ensures
            k == self.spec_key(),
    ;
}

/// The map that inserting the rows of `rows`, in order, under their ids gives.
pub open spec fn index_by_key<E: Keyed>(rows: Seq<E>) -> Map<u32, E>
    decreases rows.len(),
{
    if rows.len() == 0 {
        Map::empty()
    } else {
        index_by_key(rows.drop_last()).insert(rows.last().spec_key(), rows.last())
    }
}

/// `i` is the position of the last row of `rows` whose id is `k`.
pub open spec fn is_last_with_key<E: Keyed>(rows: Seq<E>, k: u32, i: int) -> bool {
    &&& 0 <= i < rows.len()
    &&& rows[i].spec_key() == k
    &&& forall|j: int| i < j < rows.len() ==> rows[j].spec_key() != k
}

/// Indexing rows by id keeps exactly the ids that occur, each with the last row
/// that carries it.
pub proof fn lemma_index_by_key_last_wins<E: Keyed>(rows: Seq<E>, k: u32)
    ensures
        index_by_key(rows).contains_key(k) <==> exists|i: int|
            0 <= i < rows.len() && rows[i].spec_key() == k,
        forall|i: int| is_last_with_key(rows, k, i) ==> index_by_key(rows)[k] == rows[i],
        index_by_key(rows).dom().finite(),
    decreases rows.len(),
{
    if rows.len() > 0 {
        let init = rows.drop_last();
        lemma_index_by_key_last_wins(init, k);
        let n = rows.len() - 1;
        if rows.last().spec_key() != k {
            if index_by_key(rows).contains_key(k) {
                let i = choose|i: int| 0 <= i < init.len() && init[i].spec_key() == k;
                assert(rows[i].spec_key() == k);
            }
            if exists|i: int| 0 <= i < rows.len() && rows[i].spec_key() == k {
                let i = choose|i: int| 0 <= i < rows.len() && rows[i].spec_key() == k;
                assert(i != n);
                assert(init[i].spec_key() == k);
            }
            assert forall|i: int| is_last_with_key(rows, k, i) implies index_by_key(rows)[k]
                == rows[i] by {
                assert(i != n);
                assert(is_last_with_key(init, k, i));
            }
        } else {
            assert(rows[n].spec_key() == k);
            assert forall|i: int| is_last_with_key(rows, k, i) implies index_by_key(rows)[k]
                == rows[i] by {
                if i != n {
                    assert(rows[n].spec_key() != k);
                }
            }
        }
    }
}

/// Every row kept by the index sits under its own id.
pub proof fn lemma_index_by_key_consistent<E: Keyed>(rows: Seq<E>)
    ensures
        forall|k: u32| #[trigger] index_by_key(rows).contains_key(k) ==> index_by_key(rows)[k].spec_key() == k,
        index_by_key(rows).dom().finite(),
    decreases rows.len(),
{
    if rows.len() > 0 {
        lemma_index_by_key_consistent(rows.drop_last());
    }
}

/// Builds the id index of `rows`, later rows replacing earlier ones with the
/// same id.
pub fn build_index<E: Keyed>(rows: Vec<E>) -> (m: HashMap<u32, E>)
    ensures
        m@ == index_by_key(rows@),
{
    let ghost all = rows@;
    let mut m: HashMap<u32, E> = HashMap::new();
    for row in it: rows
        invariant
            all == it.seq(),
            m@ == index_by_key(all.take(it.index() as int)),
    {
        proof {
            assert(all.take(it.index() + 1).drop_last() =~= all.take(it.index() as int));
        }
        let k = row.key();
        m.insert(k, row);
    }
    proof {
        assert(all.take(all.len() as int) =~= all);
    }
    m
}

/// The map that inserting the pairs of `pairs`, in order, gives.
pub open spec fn pairs_to_map<V>(pairs: Seq<(u32, V)>) -> Map<u32, V>
    decreases pairs.len(),
{
    if pairs.len() == 0 {
        Map::empty()
    } else {
        pairs_to_map(pairs.drop_last()).insert(pairs.last().0, pairs.last().1)
    }
}

/// Builds a map from id/value pairs, later pairs replacing earlier ones with
/// the same id.
pub fn map_from_pairs<V>(pairs: Vec<(u32, V)>) -> (m: HashMap<u32, V>)
    ensures
        m@ == pairs_to_map(pairs@),
{
    let ghost all = pairs@;
    let mut m: HashMap<u32, V> = HashMap::new();
    for pair in it: pairs
        invariant
            all == it.seq(),
            m@ == pairs_to_map(all.take(it.index() as int)),
    {
        proof {
            assert(all.take(it.index() + 1).drop_last() =~= all.take(it.index() as int));
        }
        let (k, v) = pair;
        m.insert(k, v);
    }
    proof {
        assert(all.take(all.len() as int) =~= all);
    }
    m
}

/// Whether `e` is stored in `m` under some key.
pub open spec fn is_stored_value<E>(m: Map<u32, E>, e: E) -> bool {
    exists|k: u32| m.contains_key(k) && m[k] == e
}

/// All values of a map, each once, in the map's iteration order.
pub fn index_values<E>(m: &HashMap<u32, E>) -> (r: Vec<&E>)
    ensures
        r@.len() == m@.len(),
        forall|i: int| #![trigger r@[i]] 0 <= i < r@.len() ==> is_stored_value(m@, *r@[i]),
        forall|k: u32| #[trigger] m@.contains_key(k) ==> exists|i: int|
            0 <= i < r@.len() && *r@[i] == m@[k],
{
    let mut r: Vec<&E> = Vec::new();
    let ghost pairs = vstd::std_specs::hash::spec_hash_map_iter(m).remaining();
    for pair in it: m.iter()
        invariant
            r@.len() == it.index(),
            it.seq() == pairs,
            forall|i: int| 0 <= i < r@.len() ==> r@[i] == pairs[i].1,
    {
        let (_k, e) = pair;
        r.push(e);
    }
    proof {
        assert forall|i: int| #![trigger r@[i]] 0 <= i < r@.len() implies is_stored_value(
            m@,
            *r@[i],
        ) by {
            let k = *pairs[i].0;
            assert(m@.contains_key(k) && m@[k] == *pairs[i].1);
        }
        assert forall|k: u32| #[trigger] m@.contains_key(k) implies exists|i: int|
            0 <= i < r@.len() && *r@[i] == m@[k] by {
            assert(pairs.contains((&k, &m@[k])));
            let i = choose|i: int| 0 <= i < pairs.len() && pairs[i] == (&k, &m@[k]);
            assert(*r@[i] == m@[k]);
        }
    }
    r
}

/// `ks` names, each once, the keys of `m` whose values `r` lists in the same
/// order, and every key whose value satisfies `pred` is among them.
pub open spec fn lists_keys_where<E>(
    m: Map<u32, E>,
    ks: Seq<u32>,
    r: Seq<&E>,
    pred: spec_fn(E) -> bool,
) -> bool {
    &&& ks.len() == r.len()
    &&& ks.no_duplicates()
    &&& forall|i: int| #![trigger ks[i]]
        0 <= i < ks.len() ==> m.contains_key(ks[i]) && m[ks[i]] == *r[i] && pred(*r[i])
    &&& forall|k: u32| #[trigger] m.contains_key(k) && pred(m[k]) ==> ks.contains(k)
}

/// `r` lists, each stored value once and in some order, exactly the values of
/// `m` that satisfy `pred`.
pub open spec fn lists_values_where<E>(m: Map<u32, E>, r: Seq<&E>, pred: spec_fn(E) -> bool) -> bool {
    exists|ks: Seq<u32>| lists_keys_where(m, ks, r, pred)
}

/// `r` lists every stored value of `m` once, in some order.
pub open spec fn lists_all_values<E>(m: Map<u32, E>, r: Seq<&E>) -> bool {
    lists_values_where(m, r, |e: E| true)
}

/// The values of `m` that `keep` accepts, in the map's iteration order.
pub(crate) fn index_values_where<E, F: Fn(&E) -> bool>(
    m: &HashMap<u32, E>,
    keep: F,
    Ghost(pred): Ghost<spec_fn(E) -> bool>,
) -> (r: Vec<&E>)
    requires
        forall|e: &E| call_requires(keep, (e,)),
        forall|e: &E, b: bool| call_ensures(keep, (e,), b) ==> b == pred(*e),
    ensures
        lists_values_where(m@, r@, pred),
{
    let mut r: Vec<&E> = Vec::new();
    let ghost mut ks: Seq<u32> = Seq::empty();
    let ghost mut is: Seq<int> = Seq::empty();
    let ghost pairs = vstd::std_specs::hash::spec_hash_map_iter(m).remaining();
    for pair in it: m.iter()
        invariant
            it.seq() == pairs,
            pairs.no_duplicates(),
            forall|e: &E| call_requires(keep, (e,)),
            forall|e: &E, b: bool| call_ensures(keep, (e,), b) ==> b == pred(*e),
            ks.len() == r@.len(),
            is.len() == r@.len(),
            forall|i: int| #![trigger is[i]] 0 <= i < is.len() ==> 0 <= is[i] < it.index()
                && ks[i] == *pairs[is[i]].0 && r@[i] == pairs[is[i]].1 && pred(*pairs[is[i]].1),
            forall|i: int, j: int| 0 <= i < j < is.len() ==> is[i] < is[j],
            forall|j: int| #![trigger pairs[j]] 0 <= j < it.index() && pred(*pairs[j].1) ==> exists|
                i: int,
            | 0 <= i < is.len() && is[i] == j,
    {
        let (k, e) = pair;
        let ghost j = it.index() as int;
        let ghost is0 = is;
        let wanted = keep(e);
        proof {
            assert(wanted == pred(*e));
            assert(pair == pairs[j]);
        }
        if wanted {
            r.push(e);
            proof {
                ks = ks.push(*k);
                is = is.push(j);
            }
        }
        proof {
            assert forall|j2: int| #![trigger pairs[j2]] 0 <= j2 < j + 1 && pred(*pairs[j2].1)
                implies exists|i: int| 0 <= i < is.len() && is[i] == j2 by {
                if j2 == j {
                    assert(wanted);
                    assert(is[is.len() - 1] == j);
                } else {
                    let i = choose|i: int| 0 <= i < is0.len() && is0[i] == j2;
                    assert(is[i] == j2);
                }
            }
        }
    }
    proof {
        assert forall|i: int| #![trigger ks[i]] 0 <= i < ks.len() implies m@.contains_key(ks[i])
            && m@[ks[i]] == *r@[i] && pred(*r@[i]) by {
            assert(is[i] < pairs.len());
            assert(m@.contains_key(*pairs[is[i]].0));
        }
        assert forall|a: int, b: int| 0 <= a < ks.len() && 0 <= b < ks.len() && a != b implies ks[a]
            != ks[b] by {
            if ks[a] == ks[b] {
                let pa = pairs[is[a]];
                let pb = pairs[is[b]];
                assert(m@.contains_key(*pa.0) && m@[*pa.0] == *pa.1);
                assert(m@.contains_key(*pb.0) && m@[*pb.0] == *pb.1);
                assert(pa == pb);
                if a < b {
                    assert(is[a] < is[b]);
                } else {
                    assert(is[b] < is[a]);
                }
            }
        }
        assert forall|k: u32| #[trigger] m@.contains_key(k) && pred(m@[k]) implies ks.contains(k) by {
            assert(pairs.contains((&k, &m@[k])));
            let j = choose|j: int| 0 <= j < pairs.len() && pairs[j] == (&k, &m@[k]);
            assert(pred(*pairs[j].1));
            let i = choose|i: int| 0 <= i < is.len() && is[i] == j;
            assert(ks[i] == k);
        }
        assert(lists_keys_where(m@, ks, r@, pred));
    }
    r
}

/// Inserts `rows`, in order, under their ids, each replacing the stored row
/// with its id; gives the number of rows.
pub fn apply_rows<E: Keyed>(m: &mut HashMap<u32, E>, rows: Vec<E>) -> (n: usize)
    ensures
        n == rows@.len(),
        final(m)@ == old(m)@.union_prefer_right(index_by_key(rows@)),
{
    let ghost m0 = m@;
    let ghost all = rows@;
    let n = rows.len();
    for row in it: rows
        invariant
            all == it.seq(),
            m@ == m0.union_prefer_right(index_by_key(all.take(it.index() as int))),
    {
        let ghost i = it.index() as int;
        proof {
            assert(all.take(i + 1).drop_last() =~= all.take(i));
        }
        let k = row.key();
        m.insert(k, row);
        proof {
            assert(m@ =~= m0.union_prefer_right(index_by_key(all.take(i + 1))));
        }
    }
    proof {
        assert(all.take(all.len() as int) =~= all);
    }
    n
}

/// Copies of all values of a map, each once, in the map's iteration order.
pub fn all_values_copied<E: Copy>(m: &HashMap<u32, E>) -> (r: Vec<E>)
    ensures
        exists|vs: Seq<&E>| #[trigger] lists_all_values(m@, vs) && r@ == vs.map_values(|e: &E| *e),
{
    let keep = |e: &E| -> (b: bool)
        ensures
            b,
        { true };
    let refs = index_values_where(m, keep, Ghost(|e: E| true));
    let mut r: Vec<E> = Vec::new();
    let mut i: usize = 0;
    while i < refs.len()
        invariant
            i <= refs.len(),
            r@.len() == i,
            forall|j: int| 0 <= j < i ==> r@[j] == *refs@[j],
        decreases refs.len() - i,
    {
        r.push(*refs[i]);
        i = i + 1;
    }
    proof {
        assert(r@ =~= refs@.map_values(|e: &E| *e));
        assert(lists_all_values(m@, refs@));
    }
    r
}

} // verus!
