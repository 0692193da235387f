//! Laws that relate the operations on tagged values.
use crate::taint::{Clean, Dirty};
use core::ops::Add;
use vstd::prelude::*;
use vstd::std_specs::convert::FromSpec;
use vstd::std_specs::ops::AddSpec;

verus! {

/// Taint is contagious: adding two clean values gives a clean sum, and adding with at least
/// one dirty operand gives a dirty sum, whichever operand it is. The sum itself is always
/// the inner values' own sum, and each combination may be made exactly when the inner
/// addition may.
pub proof fn lemma_add_taint<A: Add>(a: A, b: A)
    ensures
        Clean(a).add_spec(Clean(b)) == Clean(a.add_spec(b)),
        Clean(a).add_spec(Dirty(b)) == Dirty(a.add_spec(b)),
        Dirty(a).add_spec(Clean(b)) == Dirty(a.add_spec(b)),
        Dirty(a).add_spec(Dirty(b)) == Dirty(a.add_spec(b)),
        Clean(a).add_req(Clean(b)) == a.add_req(b),
        Clean(a).add_req(Dirty(b)) == a.add_req(b),
        Dirty(a).add_req(Clean(b)) == a.add_req(b),
        Dirty(a).add_req(Dirty(b)) == a.add_req(b),
        <Clean<A> as AddSpec<Clean<A>>>::obeys_add_spec() == A::obeys_add_spec(),
        <Clean<A> as AddSpec<Dirty<A>>>::obeys_add_spec() == A::obeys_add_spec(),
        <Dirty<A> as AddSpec<Clean<A>>>::obeys_add_spec() == A::obeys_add_spec(),
        <Dirty<A> as AddSpec<Dirty<A>>>::obeys_add_spec() == A::obeys_add_spec(),
{
}

/// Chaining clean computations is associative: where `h` is `|x| f(x).and_then(g)`, that
/// is, `h` may be called wherever `f` and then `g` may, and each result of `h` is a result of
/// `f` followed by `g`, then `w.and_then(h)` may be called wherever
/// `w.and_then(f).and_then(g)` may, and each of its results is one that the two-step chain
/// may give.
pub proof fn lemma_clean_and_then_assoc<T, U, V, F, G, H>(w: Clean<T>, f: F, g: G, h: H) where
    F: FnOnce(T) -> Clean<U>,
    G: FnOnce(U) -> Clean<V>,
    H: FnOnce(T) -> Clean<V>,

    requires
        forall|x: T|
            f.requires((x,)) && (forall|m: Clean<U>| f.ensures((x,), m) ==> g.requires((m.0,)))
                ==> #[trigger] h.requires((x,)),
        forall|x: T, r: Clean<V>|
            #[trigger] h.ensures((x,), r) ==> exists|m: Clean<U>|
                f.ensures((x,), m) && g.ensures((m.0,), r),
    ensures
        f.requires((w.0,)) && (forall|m: Clean<U>| f.ensures((w.0,), m) ==> g.requires((m.0,)))
            ==> h.requires((w.0,)),
        forall|r: Clean<V>|
            #[trigger] h.ensures((w.0,), r) ==> exists|m: Clean<U>|
                f.ensures((w.0,), m) && g.ensures((m.0,), r),
{
}

/// Chaining dirty computations is associative, in the same sense as for clean ones.
pub proof fn lemma_dirty_and_then_assoc<T, U, V, F, G, H>(w: Dirty<T>, f: F, g: G, h: H) where
    F: FnOnce(T) -> Dirty<U>,
    G: FnOnce(U) -> Dirty<V>,
    H: FnOnce(T) -> Dirty<V>,

    requires
        forall|x: T|
            f.requires((x,)) && (forall|m: Dirty<U>| f.ensures((x,), m) ==> g.requires((m.0,)))
                ==> #[trigger] h.requires((x,)),
        forall|x: T, r: Dirty<V>|
            #[trigger] h.ensures((x,), r) ==> exists|m: Dirty<U>|
                f.ensures((x,), m) && g.ensures((m.0,), r),
    ensures
        f.requires((w.0,)) && (forall|m: Dirty<U>| f.ensures((w.0,), m) ==> g.requires((m.0,)))
            ==> h.requires((w.0,)),
        forall|r: Dirty<V>|
            #[trigger] h.ensures((w.0,), r) ==> exists|m: Dirty<U>|
                f.ensures((w.0,), m) && g.ensures((m.0,), r),
{
}

/// Wrapping a raw value with either tag and unwrapping it again gives back the same value.
pub proof fn lemma_wrap_unwrap<T>(v: T)
    ensures
        <Clean<T> as FromSpec<T>>::obeys_from_spec(),
        <Clean<T> as FromSpec<T>>::from_spec(v).0 == v,
        <Dirty<T> as FromSpec<T>>::obeys_from_spec(),
        <Dirty<T> as FromSpec<T>>::from_spec(v).0 == v,
{
}

} // verus!
