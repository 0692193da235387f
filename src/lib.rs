//! Static taint tracking.
//!
//! Data is either [`Clean`](taint::Clean), known to be safe, or [`Dirty`](taint::Dirty),
//! coming from the outside world. The two are distinct types, so a program cannot pass
//! untrusted data where sanitized data is required: the only way from `Dirty` to `Clean`
//! is an explicit [`Sanitizer`](taint::Sanitizer).
pub mod dynamic;
pub mod laws;
pub mod taint;

pub use self::dynamic::Dyn;
