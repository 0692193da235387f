//! The taintedness tags and the capability that crosses from one to the other.
//!
//! Data is either [`Clean`], known to be safe, or [`Dirty`], coming from the outside world.
mod clean;
mod dirty;

pub use self::clean::Clean;
pub use self::dirty::Dirty;

use vstd::prelude::*;

verus! {

/// The one sanctioned way from dirty to clean data.
///
/// What counts as sanitizing (escaping, validating, parsing and rejecting) depends on the
/// data, so the library gives no implementation and places no constraint on it: each
/// program implements it for the types it needs to downgrade, and must call it on purpose.
pub trait Sanitizer<T> {
    fn sanitize(input: Dirty<T>) -> Clean<T>;
}

} // verus!
