use super::clean::Clean;
use core::ops::Add;
use vstd::prelude::*;
use vstd::std_specs::convert::FromSpecImpl;
use vstd::std_specs::ops::{AddSpec, AddSpecImpl};

verus! {

/// A value that has not been validated: it comes from the outside world.
#[derive(Clone, Copy, PartialEq, Eq, PartialOrd, Ord, Debug, Hash)]
pub struct Dirty<T>(pub T);

impl<T> Dirty<T> {
    /// Maps a `Dirty<T>` to a `Dirty<U>` by applying `f` to the contained value.
    pub fn map<U, F>(self, f: F) -> (r: Dirty<U>) where F: FnOnce(T) -> U
        requires
            f.requires((self.0,)),
        ensures
            f.ensures((self.0,), r.0),
    {
        let Dirty(a) = self;
        Dirty(f(a))
    }

    /// Maps a `Dirty<T>` to a `Dirty<U>` by applying `f`, which itself returns a `Dirty<U>`
    /// (also called "flatMap" or "bind").
    pub fn and_then<U, F>(self, f: F) -> (r: Dirty<U>) where F: FnOnce(T) -> Dirty<U>
        requires
            f.requires((self.0,)),
        ensures
            f.ensures((self.0,), r),
    {
        let Dirty(a) = self;
        f(a)
    }
}

/// Wraps a raw value as dirty.
impl<T> From<T> for Dirty<T> {
    fn from(data: T) -> (r: Dirty<T>)
        ensures
            r.0 == data,
    {
        Dirty(data)
    }
}

impl<T> FromSpecImpl<T> for Dirty<T> {
    open spec fn obeys_from_spec() -> bool {
        true
    }

    open spec fn from_spec(data: T) -> Dirty<T> {
        Dirty(data)
    }
}

/// Clean data may always be treated as dirty; the other way needs a `Sanitizer`.
impl<T> From<Clean<T>> for Dirty<T> {
    fn from(data: Clean<T>) -> (r: Dirty<T>)
        ensures
            r.0 == data.0,
    {
        let Clean(a) = data;
        Dirty(a)
    }
}

impl<T> FromSpecImpl<Clean<T>> for Dirty<T> {
    open spec fn obeys_from_spec() -> bool {
        true
    }

    open spec fn from_spec(data: Clean<T>) -> Dirty<T> {
        Dirty(data.0)
    }
}

/// Turns a `Dirty` value into the success/failure form: clean data is the success case,
/// dirty data the failure case.
impl<T> From<Dirty<T>> for Result<Clean<T>, Dirty<T>> {
    fn from(data: Dirty<T>) -> (r: Result<Clean<T>, Dirty<T>>)
        ensures
            r == Err::<Clean<T>, Dirty<T>>(data),
    {
        Err(data)
    }
}

impl<T> FromSpecImpl<Dirty<T>> for Result<Clean<T>, Dirty<T>> {
    open spec fn obeys_from_spec() -> bool {
        true
    }

    open spec fn from_spec(data: Dirty<T>) -> Result<Clean<T>, Dirty<T>> {
        Err(data)
    }
}

/// `Dirty + Dirty` is dirty.
impl<A: Add> Add<Dirty<A>> for Dirty<A> {
    type Output = Dirty<A::Output>;

    fn add(self, other: Dirty<A>) -> (r: Dirty<A::Output>)
        ensures
            A::obeys_add_spec() ==> r == Dirty(self.0.add_spec(other.0)),
    {
        Dirty(self.0 + other.0)
    }
}

impl<A: Add> AddSpecImpl<Dirty<A>> for Dirty<A> {
    open spec fn obeys_add_spec() -> bool {
        A::obeys_add_spec()
    }

    open spec fn add_req(self, other: Dirty<A>) -> bool {
        self.0.add_req(other.0)
    }

    open spec fn add_spec(self, other: Dirty<A>) -> Dirty<A::Output> {
        Dirty(self.0.add_spec(other.0))
    }
}

/// `Dirty + Clean` is dirty: taint spreads to whatever it is combined with.
impl<A: Add> Add<Clean<A>> for Dirty<A> {
    type Output = Dirty<A::Output>;

    fn add(self, other: Clean<A>) -> (r: Dirty<A::Output>)
        ensures
            A::obeys_add_spec() ==> r == Dirty(self.0.add_spec(other.0)),
    {
        Dirty(self.0 + other.0)
    }
}

impl<A: Add> AddSpecImpl<Clean<A>> for Dirty<A> {
    open spec fn obeys_add_spec() -> bool {
        A::obeys_add_spec()
    }

    open spec fn add_req(self, other: Clean<A>) -> bool {
        self.0.add_req(other.0)
    }

    open spec fn add_spec(self, other: Clean<A>) -> Dirty<A::Output> {
        Dirty(self.0.add_spec(other.0))
    }
}

} // verus!
