//! Redirection of a shared reference.

use vstd::prelude::*;

verus! {

/// Makes the call of `AsRef::as_ref`, the shared conversion that `S` declares
/// towards `U`.
///
/// What comes back is decided by that impl alone, which can be any code, so
/// nothing is promised of it here. [`seen_as`] is the relation between the
/// argument and the outcome of this call.
#[verifier::external_body]
fn shared_view<S, U>(s: &S) -> (r: &U)
    where
        S: AsRef<U> + ?Sized,
        U: ?Sized,
{
    s.as_ref()
}

/// The shared conversion that `S` declares towards `U`, as a relation:
/// `seen_as(s, r)` holds where that conversion, applied to `s`, can yield `r`.
pub closed spec fn seen_as<S, U>(s: &S, r: &U) -> bool
    where
        S: AsRef<U> + ?Sized,
        U: ?Sized,
{
    call_ensures(shared_view::<S, U>, (s,), r)
}

/// The conversion of `s` towards `U` has one outcome: whatever it yields for
/// `s`, it yields every time.
pub open spec fn single_valued<S, U>(s: &S) -> bool
    where
        S: AsRef<U> + ?Sized,
        U: ?Sized,
{
    forall|a: &U, b: &U|
        #[trigger] seen_as::<S, U>(s, a) && #[trigger] seen_as::<S, U>(s, b) ==> a == b
}

/// `AsRef` with the target on the method.
///
/// Implemented for every type, sized or not. The method can be called for
/// each target `T` that the type converts to by `AsRef<T>`, and for no other.
pub trait Reffed {
    /// Converts a reference to `Self` into a reference to `T`.
    ///
    /// The result is what the conversion that `Self` declares towards `T`
    /// yields for `self`, and it lives as long as `self` is borrowed.
    ///
    /// ```
    /// use reffed::Reffed;
    ///
    /// let word = String::from("abc");
    /// assert_eq!(word.reffed::<[u8]>(), &[97, 98, 99]);
    /// assert_eq!(word.reffed::<str>(), "abc");
    /// ```
    fn reffed<T>(&self) -> (r: &T)
        where
            Self: AsRef<T>,
            T: ?Sized,
        ensures
            seen_as::<Self, T>(self, r),
    {
        shared_view::<Self, T>(self)
    }
}

impl<S> Reffed for S
    where
        S: ?Sized,
{
}

/// Redirecting the same value twice shows the same thing both times, as long
/// as the conversion that `S` declares has one outcome for that value.
pub proof fn lemma_reffed_repeatable<S, U>(s: &S, first: &U, second: &U)
    where
        S: AsRef<U> + ?Sized,
        U: ?Sized,
    requires
        single_valued::<S, U>(s),
        seen_as::<S, U>(s, first),
        seen_as::<S, U>(s, second),
    ensures
        first == second,
{
}

} // verus!
