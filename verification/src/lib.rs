//! `Fallible<E>` is the outcome of an operation that either succeeds without
//! producing a value, or fails with an error of type `E`.
//!
//! It is an `Option` with the polarity of its two variants flipped: a present
//! value (`Fail`) is the exceptional case, and the absent one (`Success`) is
//! the ordinary case.  It thereby fills the gap left by `Result<T, E>` and
//! `Option<T>`: a function that can only signal errors, and never produces
//! output, can say so directly in its return type.
//!
//! Early-return propagation is spelled out with [`Fallible::branch`],
//! [`Fallible::from_residual`] and [`Fallible::from_output`]: inspecting a
//! `Fallible` continues execution when it is `Success` and short-circuits
//! carrying the error when it is `Fail`, converting the error type at the
//! propagation boundary through `From`.

use vstd::prelude::*;

pub mod laws;

verus! {

use core::convert::Infallible;
use core::ops::ControlFlow;
use vstd::std_specs::cmp::PartialEqSpec;
use vstd::std_specs::convert::FromSpec;

use Fallible::{Fail, Success};

/// Outcome of an operation that does not produce a value on success.
#[must_use]
#[derive(Copy, PartialEq, Eq, PartialOrd, Ord, Debug, Hash)]
pub enum Fallible<E> {
    /// No error was produced.
    Success,
    /// An error was produced.
    Fail(E),
}

impl<E> Fallible<E> {
    /// The `Result<(), E>` with the same meaning: `Success` is `Ok(())` and
    /// `Fail(e)` is `Err(e)`.
    pub open spec fn spec_result(self) -> Result<(), E> {
        match self {
            Success => Ok(()),
            Fail(e) => Err(e),
        }
    }

    /// Returns true if the value is a `Success`, otherwise false.
    pub fn is_successful(&self) -> (r: bool)
        ensures
            r <==> self is Success,
    {
        matches!(self, Success)
    }

    /// Returns true if the value is a `Fail`, otherwise false.
    pub fn is_fail(&self) -> (r: bool)
        ensures
            r <==> self is Fail,
    {
        matches!(self, Fail(_))
    }

    /// The contained error, if any: `Success` holds none and `Fail(e)` holds
    /// `e`.  This is what [`Fallible::err`] borrows and [`Fallible::take`]
    /// extracts.
    pub open spec fn spec_err(self) -> Option<E> {
        match self {
            Success => None,
            Fail(e) => Some(e),
        }
    }

    /// What one `take` does: the extracted error paired with the value left
    /// behind, which is always `Success`.
    pub open spec fn spec_take(self) -> (Option<E>, Fallible<E>) {
        (self.spec_err(), Success)
    }

    /// The `Fallible<E>` a `Result<T, E>` converts to: `Err(e)` becomes
    /// `Fail(e)`, and `Ok` becomes `Success`, discarding the success payload.
    pub open spec fn spec_from_result<T>(r: Result<T, E>) -> Fallible<E> {
        match r {
            Ok(_) => Success,
            Err(e) => Fail(e),
        }
    }

    /// Transforms the `Fallible<E>` into a `Result<(), E>`, where `Fail(e)`
    /// becomes `Err(e)` and `Success` becomes `Ok(())`.
    pub fn result(self) -> (r: Result<(), E>)
        ensures
            r == self.spec_result(),
    {
        match self {
            Success => Ok(()),
            Fail(e) => Err(e),
        }
    }

    /// Unwrap the contained error.  The value must be a `Fail`: calling this
    /// on a `Success` is a contract violation.
    pub fn unwrap_fail(self) -> (e: E)
        requires
            self is Fail,
        ensures
            e == self->0,
    {
        match self {
            Success => vstd::pervasive::unreached(),
            Fail(err) => err,
        }
    }

    /// Borrows the `Fallible<E>` as an `Option<&E>`, yielding `None` if no
    /// error occurred.
    pub fn err(&self) -> (r: Option<&E>)
        ensures
            match *self {
                Success => r is None,
                Fail(e) => r matches Some(x) && *x == e,
            },
    {
        match self {
            Success => None,
            Fail(err) => Some(err),
        }
    }

    /// Constructs a `Result<T, E>` from self: `Fail(e)` becomes `Err(e)` and
    /// `Success` becomes `Ok(value)`.
    pub fn err_or<T>(self, value: T) -> (r: Result<T, E>)
        ensures
            r == match self {
                Success => Ok::<T, E>(value),
                Fail(e) => Err::<T, E>(e),
            },
    {
        match self {
            Success => Ok(value),
            Fail(e) => Err(e),
        }
    }

    /// Replaces the value with `Success` in place and returns the previously
    /// contained error, if any.  This is a destructive read: whatever the
    /// prior state, the value afterwards is `Success`, so the error can be
    /// consumed at most once.
    pub fn take(&mut self) -> (r: Option<E>)
        ensures
            (r, *final(self)) == old(self).spec_take(),
    {
        let mut out = Success;
        core::mem::swap(self, &mut out);
        match out {
            Success => None,
            Fail(e) => Some(e),
        }
    }
}

impl<E> Fallible<E> {
    /// Converts from `&Fallible<E>` to `Fallible<&E>`, leaving the original
    /// in place.
    pub fn as_ref(&self) -> (r: Fallible<&E>)
        ensures
            match *self {
                Success => r is Success,
                Fail(e) => r matches Fail(x) && *x == e,
            },
    {
        match self {
            Success => Success,
            Fail(e) => Fail(e),
        }
    }

    /// Converts from `&mut Fallible<E>` to `Fallible<&mut E>`: the returned
    /// value borrows the contained error, so writing through it writes into
    /// the original.
    pub fn as_mut(&mut self) -> (r: Fallible<&mut E>)
        ensures
            match *old(self) {
                Success => r is Success && *final(self) is Success,
                Fail(e) => r matches Fail(m) && *m == e && *final(self) == Fallible::Fail(*final(m)),
            },
    {
        match self {
            Success => Success,
            Fail(e) => Fail(e),
        }
    }

    /// Returns `true` if the `Fallible` is a `Fail` value containing an error
    /// equivalent to `x`.
    pub fn contains<U: PartialEq<E>>(&self, x: &U) -> (r: bool)
        ensures
            U::obeys_eq_spec() ==> (r <==> (self matches Fail(e) && x.eq_spec(&e))),
            self is Success ==> !r,
            self matches Fail(e) ==> call_ensures(U::eq, (x, &e), r),
    {
        match self {
            Success => false,
            Fail(e) => x.eq(e),
        }
    }

    /// Maps a `Fallible<E>` to `Fallible<U>` by applying a function to the
    /// contained error, passing `Success` through unchanged.
    pub fn map<U, F: FnOnce(E) -> U>(self, op: F) -> (r: Fallible<U>)
        requires
            self matches Fail(e) ==> call_requires(op, (e,)),
        ensures
            mapped(self, op, r),
    {
        match self {
            Success => Success,
            Fail(e) => Fail(op(e)),
        }
    }
}

/// Predicate indicating that `r` could be the result of `x.map(op)`:
/// variants correspond, and a contained error is an output of `op` on the
/// error contained in `x`.
pub open spec fn mapped<E, U, F: FnOnce(E) -> U>(x: Fallible<E>, op: F, r: Fallible<U>) -> bool {
    match x {
        Success => r is Success,
        Fail(e) => r matches Fail(u) && call_ensures(op, (e,), u),
    }
}

impl<E> Fallible<&E> {
    /// Maps a `Fallible<&E>` to a `Fallible<E>` by cloning the contents of
    /// the error.
    pub fn cloned(self) -> (r: Fallible<E>) where E: Clone
        ensures
            match self {
                Success => r is Success,
                Fail(e) => r matches Fail(c) && vstd::pervasive::cloned::<E>(*e, c),
            },
    {
        match self {
            Success => Success,
            Fail(e) => Fail(e.clone()),
        }
    }

    /// Maps a `Fallible<&E>` to a `Fallible<E>` by copying the contents of
    /// the error.
    pub fn copied(self) -> (r: Fallible<E>) where E: Copy
        ensures
            match self {
                Success => r is Success,
                Fail(e) => r == Fallible::<E>::Fail(*e),
            },
    {
        match self {
            Success => Success,
            Fail(e) => Fail(*e),
        }
    }
}

impl<E> Fallible<&mut E> {
    /// Maps a `Fallible<&mut E>` to a `Fallible<E>` by cloning the contents
    /// of the error, leaving the borrowed error unchanged.
    pub fn cloned(self) -> (r: Fallible<E>) where E: Clone
        ensures
            match self {
                Success => r is Success,
                Fail(m) => r matches Fail(c) && vstd::pervasive::cloned::<E>(*m, c)
                    && *final(m) == *m,
            },
    {
        match self {
            Success => Success,
            Fail(e) => Fail(e.clone()),
        }
    }

    /// Maps a `Fallible<&mut E>` to a `Fallible<E>` by copying the contents
    /// of the error, leaving the borrowed error unchanged.
    pub fn copied(self) -> (r: Fallible<E>) where E: Copy
        ensures
            match self {
                Success => r is Success,
                Fail(m) => r == Fallible::<E>::Fail(*m) && *final(m) == *m,
            },
    {
        match self {
            Success => Success,
            Fail(e) => Fail(*e),
        }
    }
}

impl<E: core::ops::Deref> Fallible<E> {
    /// Converts from `&Fallible<E>` to `Fallible<&E::Target>`, borrowing the
    /// contained error through one level of indirection and leaving the
    /// original in place.
    pub fn as_deref(&self) -> (r: Fallible<&E::Target>)
        ensures
            match *self {
                Success => r is Success,
                Fail(e) => r matches Fail(t) && call_ensures(<E as core::ops::Deref>::deref, (&e,), t),
            },
    {
        match self {
            Success => Success,
            Fail(e) => Fail(e.deref()),
        }
    }
}

impl<E: core::ops::DerefMut> Fallible<E> {
    /// Converts from `&mut Fallible<E>` to `Fallible<&mut E::Target>`,
    /// borrowing the contained error mutably through one level of
    /// indirection.  Which variant is active does not change.
    pub fn as_deref_mut(&mut self) -> (r: Fallible<&mut E::Target>)
        ensures
            *old(self) is Success <==> r is Success,
            *old(self) is Success <==> *final(self) is Success,
    {
        match self {
            Success => Success,
            Fail(e) => Fail(e.deref_mut()),
        }
    }
}

impl<E: core::fmt::Debug> Fallible<E> {
    /// Returns a unit value if the `Fallible` is not `Fail`.  The value must
    /// be a `Success`: calling this on a `Fail` is a contract violation.
    pub fn unwrap(self)
        requires
            self is Success,
    {
        match self {
            Success => (),
            Fail(_) => vstd::pervasive::unreached(),
        }
    }
}

impl<E> Fallible<E> {
    /// The completion step of propagation: a function that reaches its end
    /// without short-circuiting yields `Success`.
    pub fn from_output(output: ()) -> (r: Fallible<E>)
        ensures
            r == Fallible::<E>::Success,
    {
        Success
    }

    /// The inspection step of propagation: `Success` continues execution,
    /// and `Fail(e)` short-circuits, carrying `Fail(e)` as the residual.
    pub fn branch(self) -> (cf: ControlFlow<Fallible<E>, ()>)
        ensures
            cf == match self {
                Success => ControlFlow::<Fallible<E>, ()>::Continue(()),
                Fail(e) => ControlFlow::<Fallible<E>, ()>::Break(Fail(e)),
            },
    {
        match self {
            Success => ControlFlow::Continue(()),
            Fail(e) => ControlFlow::Break(Fail(e)),
        }
    }

    /// The re-wrapping step of propagation into a function that itself
    /// returns a `Fallible`: the error of a short-circuited residual is
    /// converted through `From` at the boundary.
    pub fn from_residual<U>(residual: Fallible<U>) -> (r: Fallible<E>) where E: From<U>
        ensures
            match residual {
                Success => r is Success,
                Fail(u) => r matches Fail(e) && call_ensures(<E as From<U>>::from, (u,), e),
            },
            E::obeys_from_spec() ==> r == match residual {
                Success => Fallible::<E>::Success,
                Fail(u) => Fail(E::from_spec(u)),
            },
    {
        match residual {
            Success => Success,
            Fail(u) => Fail(E::from(u)),
        }
    }

    /// The re-wrapping step of propagation for a `Result<(), U>` inspected
    /// inside a function that returns a `Fallible`: an `Err` residual becomes
    /// `Fail`, converting the error type through `From`.
    pub fn from_result_residual<U>(residual: Result<(), U>) -> (r: Fallible<E>) where E: From<U>
        ensures
            match residual {
                Ok(_) => r is Success,
                Err(u) => r matches Fail(e) && call_ensures(<E as From<U>>::from, (u,), e),
            },
            E::obeys_from_spec() ==> r == match residual {
                Ok(_) => Fallible::<E>::Success,
                Err(u) => Fail(E::from_spec(u)),
            },
    {
        match residual {
            Ok(()) => Success,
            Err(u) => Fail(E::from(u)),
        }
    }

    /// The re-wrapping step of propagation for the residual that a
    /// `Result<T, U>` leaves behind when it short-circuits inside a function
    /// that returns a `Fallible`: the `Err` becomes `Fail`, converting the
    /// error type through `From`.  The `Ok` case carries an `Infallible`
    /// value, so it never occurs.
    pub fn from_infallible_residual<U>(residual: Result<Infallible, U>) -> (r: Fallible<E>) where E: From<U>
        ensures
            match residual {
                Ok(_) => r is Success,
                Err(u) => r matches Fail(e) && call_ensures(<E as From<U>>::from, (u,), e),
            },
            E::obeys_from_spec() ==> (residual matches Err(u) ==> r == Fail(E::from_spec(u))),
    {
        match residual {
            Ok(_) => Success,
            Err(u) => Fail(E::from(u)),
        }
    }
}

/// The re-wrapping step of propagation into a function that returns
/// `Result<T, E>`: a short-circuited `Fail` residual becomes `Err`,
/// converting the error type through `From`.  Only a `Fail` residual ever
/// reaches this step, since `Success` continues execution instead of
/// short-circuiting.
pub fn result_from_residual<T, E: From<U>, U>(residual: Fallible<U>) -> (r: Result<T, E>)
    requires
        residual is Fail,
    ensures
        r matches Err(e) && call_ensures(<E as From<U>>::from, (residual->0,), e),
        E::obeys_from_spec() ==> r == Err::<T, E>(E::from_spec(residual->0)),
{
    match residual {
        Success => vstd::pervasive::unreached(),
        Fail(u) => Err(E::from(u)),
    }
}

impl<E> Fallible<Fallible<E>> {
    /// Flattens a `Fallible<Fallible<E>>` into a `Fallible<E>`: `Success`
    /// stays `Success`, and `Fail(inner)` yields `inner` itself, so
    /// `Fail(Success)` collapses to `Success` and `Fail(Fail(e))` to
    /// `Fail(e)`.
    pub fn flatten(self) -> (r: Fallible<E>)
        ensures
            r == match self {
                Success => Fallible::<E>::Success,
                Fail(inner) => inner,
            },
    {
        match self {
            Success => Success,
            Fail(inner) => inner,
        }
    }
}

/// Conversion from a bare error value: it always yields `Fail`, modelling
/// "an error occurred, of this concrete type".
impl<E> From<E> for Fallible<E> {
    fn from(value: E) -> (r: Self) {
        Fail(value)
    }
}

impl<E> vstd::std_specs::convert::FromSpecImpl<E> for Fallible<E> {
    open spec fn obeys_from_spec() -> bool {
        true
    }

    open spec fn from_spec(v: E) -> Self {
        Fail(v)
    }
}

/// Conversion from the companion `Result`: `Err(e)` becomes `Fail(e)`, and
/// `Ok` becomes `Success`, discarding the success payload.
impl<T, E> From<Result<T, E>> for Fallible<E> {
    fn from(value: Result<T, E>) -> (r: Self) {
        match value {
            Ok(_) => Success,
            Err(e) => Fail(e),
        }
    }
}

impl<T, E> vstd::std_specs::convert::FromSpecImpl<Result<T, E>> for Fallible<E> {
    open spec fn obeys_from_spec() -> bool {
        true
    }

    open spec fn from_spec(v: Result<T, E>) -> Self {
        Fallible::spec_from_result(v)
    }
}

/// The borrowing conversion, as [`Fallible::as_ref`] performs it.
impl<'a, E> From<&'a Fallible<E>> for Fallible<&'a E> {
    fn from(value: &'a Fallible<E>) -> (r: Self) {
        value.as_ref()
    }
}

impl<'a, E> vstd::std_specs::convert::FromSpecImpl<&'a Fallible<E>> for Fallible<&'a E> {
    open spec fn obeys_from_spec() -> bool {
        true
    }

    open spec fn from_spec(v: &'a Fallible<E>) -> Self {
        match v {
            Success => Success,
            Fail(e) => Fail(e),
        }
    }
}

/// Cloning preserves the variant and clones the contained error.
impl<E: Clone> Clone for Fallible<E> {
    fn clone(&self) -> (r: Self)
        ensures
            match *self {
                Success => r is Success,
                Fail(e) => r matches Fail(c) && vstd::pervasive::cloned::<E>(e, c),
            },
    {
        match self {
            Success => Success,
            Fail(e) => Fail(e.clone()),
        }
    }
}

/// The default value is `Success`: no error has occurred.
impl<E> Default for Fallible<E> {
    fn default() -> (r: Self)
        ensures
            r == Fallible::<E>::Success,
    {
        Success
    }
}

} // verus!
