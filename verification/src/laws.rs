//! Laws that relate several operations of [`Fallible`](crate::Fallible) to
//! one another, stated over the same spec functions that the operations'
//! own contracts use.

use vstd::prelude::*;

use crate::mapped;
use crate::Fallible;

verus! {

/// Converting a companion result to an outcome and back is the identity:
/// `Ok(())` comes back as `Ok(())`, and `Err(e)` comes back as `Err(e)`.
pub proof fn lemma_result_round_trip<E>(r: Result<(), E>)
    ensures
        Fallible::spec_from_result(r).spec_result() == r,
{
    match r {
        Ok(u) => {
            assert(u == ());
        },
        Err(_) => {},
    }
}

/// `take` is destructive-once: whatever the prior state, one `take` leaves
/// `Success` behind, and a second `take` then yields `None` and leaves
/// `Success` untouched.
pub proof fn lemma_take_destructive_once<E>(x: Fallible<E>)
    ensures
        x.spec_take().1 is Success,
        x.spec_take().1.spec_take() == (None::<E>, Fallible::<E>::Success),
{
}

/// `map` with an identity function is the identity: if `op` can only hand
/// its argument back unchanged, then whatever `x.map(op)` returned is equal
/// to `x`.
pub proof fn lemma_map_identity<E, F: FnOnce(E) -> E>(x: Fallible<E>, op: F, r: Fallible<E>)
    requires
        mapped(x, op, r),
        forall|a: E, b: E| #[trigger] call_ensures(op, (a,), b) ==> b == a,
    ensures
        r == x,
{
}

} // verus!
