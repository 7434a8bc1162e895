//! Redirection of an exclusive reference.

use crate::shared::seen_as;
use vstd::prelude::*;

verus! {

/// Makes the call of `AsMut::as_mut`, the exclusive conversion that `S`
/// declares towards `U`.
///
/// What comes back, and what the lender holds once the borrow has ended, is
/// decided by that impl alone, which can be any code, so nothing is promised
/// of either here. [`lent_as`] is the relation between the argument and the
/// outcome of this call.
#[verifier::external_body]
fn exclusive_view<S, U>(s: &mut S) -> (r: &mut U)
    where
        S: AsMut<U> + ?Sized,
        U: ?Sized,
{
    s.as_mut()
}

/// The exclusive conversion that `S` declares towards `U`, as a relation:
/// `lent_as(lender, lent)` holds where that conversion, handed the borrow
/// `lender`, can lend `lent`.
///
/// Each borrow stands for two values: the one behind it when the conversion
/// is made, and the one behind it when it ends. The relation therefore also
/// says what becomes of the lender for each value that the borrower leaves.
pub closed spec fn lent_as<S, U>(lender: &mut S, lent: &mut U) -> bool
    where
        S: AsMut<U> + ?Sized,
        U: ?Sized,
{
    call_ensures(exclusive_view::<S, U>, (lender,), lent)
}

/// `AsMut` with the target on the method.
///
/// Implemented for every type, sized or not. The method can be called for
/// each target `T` that the type converts to by `AsMut<T>`, and for no
/// other; whether the type also converts to `T` by `AsRef<T>` plays no part.
pub trait RefMuted {
    /// Converts an exclusive reference to `Self` into an exclusive reference
    /// to `T`.
    ///
    /// The conversion that `Self` declares towards `T` is made on a borrow of
    /// `self` as it stands at the call, and the result is what it lends. Once
    /// the result is given up, `self` holds what that conversion makes of the
    /// value left behind the result: a change made through the result reaches
    /// `self` exactly as it would through `as_mut`.
    ///
    /// ```
    /// use reffed::RefMuted;
    ///
    /// let mut levels = vec![3, 1, 2];
    /// levels.ref_muted::<[i32]>().sort();
    /// assert_eq!(levels, [1, 2, 3]);
    /// ```
    fn ref_muted<T>(&mut self) -> (r: &mut T)
        where
            Self: AsMut<T>,
            T: ?Sized,
        ensures
            exists|lender: &mut Self|
                &*lender == &*old(self) && &*final(lender) == &*final(self)
                    && #[trigger] lent_as::<Self, T>(lender, r),
    {
        proof {
            assert forall|x: &mut Self, y: &mut T| #[trigger]
                call_ensures(exclusive_view::<Self, T>, (x,), y) implies lent_as::<Self, T>(
                x,
                y,
            ) by {}
        }
        exclusive_view::<Self, T>(self)
    }
}

impl<S> RefMuted for S
    where
        S: ?Sized,
{
}

/// A change made through the result of `ref_muted` is what `reffed` shows
/// afterwards, for a type whose two conversions towards `U` agree: whose
/// shared conversion shows the value that its exclusive conversion was given
/// back.
pub proof fn lemma_change_is_seen<S, U>(lender: &mut S, lent: &mut U, seen: &U)
    where
        S: AsMut<U> + AsRef<U> + ?Sized,
        U: ?Sized,
    requires
        forall|x: &mut S, y: &mut U, z: &U|
            #[trigger] lent_as::<S, U>(x, y) && #[trigger] seen_as::<S, U>(&*final(x), z) ==> z
                == &*final(y),
        lent_as::<S, U>(lender, lent),
        seen_as::<S, U>(&*final(lender), seen),
    ensures
        seen == &*final(lent),
{
}

} // verus!
