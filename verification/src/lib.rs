//! Reference-to-reference conversion with the target named at the call site.
//!
//! `std::convert` turns a reference to one type into a reference to another
//! through `AsRef` and `AsMut`. Both carry the target as a parameter of the
//! trait, so the compiler has to infer it, and it cannot always do so. The
//! two traits of this crate put the target on the method instead:
//!
//! * [`Reffed`]: `value.reffed::<T>()` for a shared reference;
//! * [`RefMuted`]: `value.ref_muted::<T>()` for an exclusive one.
//!
//! Every type has both methods, one for each target that it converts to.
//! Neither adds anything to the conversion: the contracts say that the result
//! is the one that the conversion declared by the type gives.

pub mod exclusive;
pub mod shared;

pub use exclusive::RefMuted;
pub use shared::Reffed;
