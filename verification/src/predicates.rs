//! Caller-supplied predicates.
//!
//! Several loaders and lookups consult the rest of the world through a
//! predicate closure ("does this item exist?", "does the player have this
//! aura?"). Their contracts speak of what such a predicate answers.
use vstd::prelude::*;

verus! {

/// `f` can be called on every argument and answers each argument in one way.
pub open spec fn is_predicate<A, F: Fn(A) -> bool>(f: F) -> bool {
    &&& forall|a: A| call_requires(f, (a,))
    &&& forall|a: A, b1: bool, b2: bool|
        call_ensures(f, (a,), b1) && call_ensures(f, (a,), b2) ==> b1 == b2
}

/// The predicate `f` answers yes for `a`.
pub open spec fn holds<A, F: Fn(A) -> bool>(f: F, a: A) -> bool {
    exists|b: bool| call_ensures(f, (a,), b) && b
}

/// What a call of a predicate returned is what the predicate answers.
pub proof fn lemma_predicate_answer<A, F: Fn(A) -> bool>(f: F, a: A, b: bool)
    requires
        is_predicate(f),
        call_ensures(f, (a,), b),
    ensures
        holds(f, a) == b,
{
}

/// `f` can be called on every pair of arguments and answers each pair in one
/// way.
pub open spec fn is_predicate2<A, B, F: Fn(A, B) -> bool>(f: F) -> bool {
    &&& forall|a: A, b: B| call_requires(f, (a, b))
    &&& forall|a: A, b: B, r1: bool, r2: bool|
        call_ensures(f, (a, b), r1) && call_ensures(f, (a, b), r2) ==> r1 == r2
}

/// The two-argument predicate `f` answers yes for `(a, b)`.
pub open spec fn holds2<A, B, F: Fn(A, B) -> bool>(f: F, a: A, b: B) -> bool {
    exists|r: bool| call_ensures(f, (a, b), r) && r
}

/// What a call of a two-argument predicate returned is what the predicate
/// answers.
pub proof fn lemma_predicate2_answer<A, B, F: Fn(A, B) -> bool>(f: F, a: A, b: B, r: bool)
    requires
        is_predicate2(f),
        call_ensures(f, (a, b), r),
    ensures
        holds2(f, a, b) == r,
{
}

/// `c` is a value that `R::default()` gives: for a type whose default is
/// specified (an integer, `bool`, ...) it is that default.
pub open spec fn is_default_value<R: Default>(c: R) -> bool {
    call_ensures(R::default, (), c)
}

} // verus!
