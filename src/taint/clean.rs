use super::dirty::Dirty;
use core::ops::Add;
use vstd::prelude::*;
use vstd::std_specs::convert::FromSpecImpl;
use vstd::std_specs::ops::{AddSpec, AddSpecImpl};

verus! {

/// A value known to be safe: it has passed validation or sanitization.
#[derive(Clone, Copy, PartialEq, Eq, PartialOrd, Ord, Debug, Hash)]
pub struct Clean<T>(pub T);

impl<T> Clean<T> {
    /// Maps a `Clean<T>` to a `Clean<U>` by applying `f` to the contained value.
    pub fn map<U, F>(self, f: F) -> (r: Clean<U>) where F: FnOnce(T) -> U
        requires
            f.requires((self.0,)),
        ensures
            f.ensures((self.0,), r.0),
    {
        let Clean(a) = self;
        Clean(f(a))
    }

    /// Maps a `Clean<T>` to a `Clean<U>` by applying `f`, which itself returns a `Clean<U>`
    /// (also called "flatMap" or "bind").
    pub fn and_then<U, F>(self, f: F) -> (r: Clean<U>) where F: FnOnce(T) -> Clean<U>
        requires
            f.requires((self.0,)),
        ensures
            f.ensures((self.0,), r),
    {
        let Clean(a) = self;
        f(a)
    }
}

/// Wraps a raw value as clean.
impl<T> From<T> for Clean<T> {
    fn from(data: T) -> (r: Clean<T>)
        ensures
            r.0 == data,
    {
        Clean(data)
    }
}

impl<T> FromSpecImpl<T> for Clean<T> {
    open spec fn obeys_from_spec() -> bool {
        true
    }

    open spec fn from_spec(data: T) -> Clean<T> {
        Clean(data)
    }
}

/// Turns a `Clean` value into the success/failure form: clean data is the success case,
/// dirty data the failure case.
impl<T> From<Clean<T>> for Result<Clean<T>, Dirty<T>> {
    fn from(data: Clean<T>) -> (r: Result<Clean<T>, Dirty<T>>)
        ensures
            r == Ok::<Clean<T>, Dirty<T>>(data),
    {
        Ok(data)
    }
}

impl<T> FromSpecImpl<Clean<T>> for Result<Clean<T>, Dirty<T>> {
    open spec fn obeys_from_spec() -> bool {
        true
    }

    open spec fn from_spec(data: Clean<T>) -> Result<Clean<T>, Dirty<T>> {
        Ok(data)
    }
}

/// `Clean + Clean` is clean: the inner values are added by `A`'s own addition.
impl<A: Add> Add<Clean<A>> for Clean<A> {
    type Output = Clean<A::Output>;

    fn add(self, other: Clean<A>) -> (r: Clean<A::Output>)
        ensures
            A::obeys_add_spec() ==> r == Clean(self.0.add_spec(other.0)),
    {
        Clean(self.0 + other.0)
    }
}

impl<A: Add> AddSpecImpl<Clean<A>> for Clean<A> {
    open spec fn obeys_add_spec() -> bool {
        A::obeys_add_spec()
    }

    open spec fn add_req(self, other: Clean<A>) -> bool {
        self.0.add_req(other.0)
    }

    open spec fn add_spec(self, other: Clean<A>) -> Clean<A::Output> {
        Clean(self.0.add_spec(other.0))
    }
}

/// `Clean + Dirty` is dirty: taint spreads to whatever it is combined with.
impl<A: Add> Add<Dirty<A>> for Clean<A> {
    type Output = Dirty<A::Output>;

    fn add(self, other: Dirty<A>) -> (r: Dirty<A::Output>)
        ensures
            A::obeys_add_spec() ==> r == Dirty(self.0.add_spec(other.0)),
    {
        Dirty(self.0 + other.0)
    }
}

impl<A: Add> AddSpecImpl<Dirty<A>> for Clean<A> {
    open spec fn obeys_add_spec() -> bool {
        A::obeys_add_spec()
    }

    open spec fn add_req(self, other: Dirty<A>) -> bool {
        self.0.add_req(other.0)
    }

    open spec fn add_spec(self, other: Dirty<A>) -> Dirty<A::Output> {
        Dirty(self.0.add_spec(other.0))
    }
}

} // verus!
