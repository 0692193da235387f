//! A taint tag decided at run time, for storing clean and dirty data side by side.
use crate::taint;
use vstd::prelude::*;
use vstd::std_specs::convert::FromSpecImpl;

verus! {

/// A value with its taintedness as a run-time tag. Converting into it forgets the static
/// distinction; there is deliberately no conversion back.
#[derive(Clone, Copy, PartialEq, Eq, PartialOrd, Ord, Debug, Hash)]
pub enum Dyn<A> {
    Clean(A),
    Dirty(A),
}

impl<A> From<taint::Clean<A>> for Dyn<A> {
    fn from(data: taint::Clean<A>) -> (r: Dyn<A>)
        ensures
            r == Dyn::Clean(data.0),
    {
        let taint::Clean(a) = data;
        Dyn::Clean(a)
    }
}

impl<A> FromSpecImpl<taint::Clean<A>> for Dyn<A> {
    open spec fn obeys_from_spec() -> bool {
        true
    }

    open spec fn from_spec(data: taint::Clean<A>) -> Dyn<A> {
        Dyn::Clean(data.0)
    }
}

impl<A> From<taint::Dirty<A>> for Dyn<A> {
    fn from(data: taint::Dirty<A>) -> (r: Dyn<A>)
        ensures
            r == Dyn::Dirty(data.0),
    {
        let taint::Dirty(a) = data;
        Dyn::Dirty(a)
    }
}

impl<A> FromSpecImpl<taint::Dirty<A>> for Dyn<A> {
    open spec fn obeys_from_spec() -> bool {
        true
    }

    open spec fn from_spec(data: taint::Dirty<A>) -> Dyn<A> {
        Dyn::Dirty(data.0)
    }
}

} // verus!
