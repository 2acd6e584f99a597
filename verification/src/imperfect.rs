//! `Imperfect`: a result extended with partial success.
use vstd::pervasive::cloned;
use vstd::prelude::*;
use vstd::std_specs::convert::IntoSpec;

use crate::loss::{clone_keeps_view, Loss};
use crate::model::{bind, conforms, incurred, mapped, propagated, recovered, Outcome};

verus! {

/// Result extended with partial success.
///
/// Three states:
/// - `Success(T)`: perfect result, zero loss.
/// - `Partial(T, L)`: value present, some information lost getting here.
/// - `Failure(E, L)`: failure, no value, but the cost of getting here is measured.
///
/// Follows `Result` conventions: `is_ok()` means "has a value" (Success or Partial).
#[must_use]
#[derive(Clone, Debug, PartialEq)]
pub enum Imperfect<T, E, L: Loss> {
    /// Perfect result, zero loss.
    Success(T),
    /// Value present, some information lost getting here.
    Partial(T, L),
    /// Failure, no value, but the cost of getting here is measured.
    Failure(E, L),
}

impl<T, E, L: Loss> View for Imperfect<T, E, L> {
    type V = Outcome<T, E, L::V>;

    open spec fn view(&self) -> Outcome<T, E, L::V> {
        match self {
            Imperfect::Success(t) => Outcome::Success(*t),
            Imperfect::Partial(t, l) => Outcome::Partial(*t, l@),
            Imperfect::Failure(e, l) => Outcome::Failure(*e, l@),
        }
    }
}

/// `f` may be called on the value that `m` holds, if it holds one.
pub open spec fn can_bind<T, U, E, L: Loss, F: FnOnce(T) -> Imperfect<U, E, L>>(
    m: Imperfect<T, E, L>,
    f: F,
) -> bool {
    match m {
        Imperfect::Success(t) => call_requires(f, (t,)),
        Imperfect::Partial(t, _) => call_requires(f, (t,)),
        Imperfect::Failure(_, _) => true,
    }
}

/// `r` is a result of binding `m` with `f`: a success is whatever `f`
/// returns for its value; a partial carries its loss in front of what `f`
/// returns; a failure comes through unchanged. For any model `k` that `f`
/// follows, `r` is `bind(m, k)`.
pub open spec fn binds_to<T, U, E, L: Loss, F: FnOnce(T) -> Imperfect<U, E, L>>(
    m: Imperfect<T, E, L>,
    f: F,
    r: Imperfect<U, E, L>,
) -> bool {
    &&& match m {
        Imperfect::Success(t) => call_ensures(f, (t,), r),
        Imperfect::Partial(t, l) => exists|n: Imperfect<U, E, L>|
            call_ensures(f, (t,), n) && conforms::<U, E, L>(r@, propagated::<U, E, L>(l@, n@)),
        Imperfect::Failure(e, l) => r == Imperfect::<U, E, L>::Failure(e, l),
    }
    &&& forall|k: spec_fn(T) -> Outcome<U, E, L::V>|
        (forall|t: T, n: Imperfect<U, E, L>| #[trigger] call_ensures(f, (t,), n) ==> n@ == k(t))
            ==> conforms::<U, E, L>(r@, #[trigger] bind::<T, U, E, L>(m@, k))
}

/// Propagate accumulated loss through the next step's result.
fn propagate_loss<T, E, L: Loss>(loss: L, next: Imperfect<T, E, L>) -> (r: Imperfect<T, E, L>)
    ensures
        conforms::<T, E, L>(r@, propagated::<T, E, L>(loss@, next@)),
{
    match next {
        Imperfect::Success(u) => Imperfect::Partial(u, loss),
        Imperfect::Partial(u, loss2) => Imperfect::Partial(u, loss.combine(loss2)),
        Imperfect::Failure(e, loss2) => Imperfect::Failure(e, loss.combine(loss2)),
    }
}

impl<T, E, L: Loss> Imperfect<T, E, L> {
    /// Construct a success. Alias for `Success(value)`.
    pub fn success(value: T) -> (r: Self)
        ensures
            r == Imperfect::<T, E, L>::Success(value),
    {
        Imperfect::Success(value)
    }

    /// Construct a partial result with measured loss. Alias for `Partial(value, loss)`.
    pub fn partial(value: T, loss: L) -> (r: Self)
        ensures
            r == Imperfect::<T, E, L>::Partial(value, loss),
    {
        Imperfect::Partial(value, loss)
    }

    /// Construct a failure with zero accumulated loss.
    pub fn failure(error: E) -> (r: Self)
        ensures
            r@ == Outcome::<T, E, L::V>::Failure(error, L::zero_spec()),
    {
        Imperfect::Failure(error, L::zero())
    }

    /// Construct a failure carrying accumulated loss from prior steps.
    pub fn failure_with_loss(error: E, loss: L) -> (r: Self)
        ensures
            r == Imperfect::<T, E, L>::Failure(error, loss),
    {
        Imperfect::Failure(error, loss)
    }

    /// Returns `true` if the result has a value (Success or Partial).
    pub fn is_ok(&self) -> (b: bool)
        ensures
            b == !(self is Failure),
    {
        !self.is_err()
    }

    /// Returns `true` if this is a Partial result.
    pub fn is_partial(&self) -> (b: bool)
        ensures
            b == (self is Partial),
    {
        match self {
            Imperfect::Partial(_, _) => true,
            _ => false,
        }
    }

    /// Returns `true` if this is a Failure.
    pub fn is_err(&self) -> (b: bool)
        ensures
            b == (self is Failure),
    {
        match self {
            Imperfect::Failure(_, _) => true,
            _ => false,
        }
    }

    /// Extract the value, discarding loss information. Returns `None` on Failure.
    pub fn ok(self) -> (r: Option<T>)
        ensures
            r == match self {
                Imperfect::Success(v) => Some(v),
                Imperfect::Partial(v, _) => Some(v),
                Imperfect::Failure(_, _) => None,
            },
    {
        match self {
            Imperfect::Success(v) => Some(v),
            Imperfect::Partial(v, _) => Some(v),
            Imperfect::Failure(_, _) => None,
        }
    }

    /// Extract the error. Returns `None` on Success or Partial.
    pub fn err(self) -> (r: Option<E>)
        ensures
            r == match self {
                Imperfect::Failure(e, _) => Some(e),
                _ => None,
            },
    {
        match self {
            Imperfect::Failure(e, _) => Some(e),
            _ => None,
        }
    }

    /// Extract the error and the loss accumulated before the failure.
    /// Returns `None` on Success or Partial.
    pub fn err_with_loss(self) -> (r: Option<(E, L)>)
        ensures
            r == match self {
                Imperfect::Failure(e, l) => Some((e, l)),
                _ => None,
            },
    {
        match self {
            Imperfect::Failure(e, l) => Some((e, l)),
            _ => None,
        }
    }

    /// The loss incurred. Zero for Success, a clone of the carried loss for
    /// Partial and Failure.
    pub fn loss(&self) -> (r: L) where L: Clone
        ensures
            match *self {
                Imperfect::Success(_) => r@ == L::zero_spec(),
                Imperfect::Partial(_, l) => cloned(l, r),
                Imperfect::Failure(_, l) => cloned(l, r),
            },
            clone_keeps_view::<L>() ==> r@ == match self@ {
                Outcome::Success(_) => L::zero_spec(),
                Outcome::Partial(_, l) => l,
                Outcome::Failure(_, l) => l,
            },
    {
        match self {
            Imperfect::Success(_) => L::zero(),
            Imperfect::Partial(_, l) => l.clone(),
            Imperfect::Failure(_, l) => l.clone(),
        }
    }

    /// Borrow the inner value and error without consuming `self`.
    pub fn as_ref(&self) -> (r: Imperfect<&T, &E, L>) where L: Clone
        ensures
            match (*self, r) {
                (Imperfect::Success(t), Imperfect::Success(rt)) => *rt == t,
                (Imperfect::Partial(t, l), Imperfect::Partial(rt, rl)) => *rt == t && cloned(l, rl),
                (Imperfect::Failure(e, l), Imperfect::Failure(re, rl)) => *re == e && cloned(l, rl),
                _ => false,
            },
            clone_keeps_view::<L>() ==> incurred(r@) == incurred(self@),
    {
        match self {
            Imperfect::Success(t) => Imperfect::Success(t),
            Imperfect::Partial(t, l) => {
                let c = l.clone();
                proof {
                    assert(cloned(*l, c));
                }
                Imperfect::Partial(t, c)
            },
            Imperfect::Failure(e, l) => {
                let c = l.clone();
                proof {
                    assert(cloned(*l, c));
                }
                Imperfect::Failure(e, c)
            },
        }
    }

    /// Transform the value, preserving loss and failure.
    pub fn map<U>(self, f: impl FnOnce(T) -> U) -> (r: Imperfect<U, E, L>)
        requires
            match self {
                Imperfect::Success(t) => call_requires(f, (t,)),
                Imperfect::Partial(t, _) => call_requires(f, (t,)),
                Imperfect::Failure(_, _) => true,
            },
        ensures
            match self {
                Imperfect::Success(t) => r matches Imperfect::Success(u) && call_ensures(f, (t,), u),
                Imperfect::Partial(t, l) => r matches Imperfect::Partial(u, rl) && rl == l
                    && call_ensures(f, (t,), u),
                Imperfect::Failure(e, l) => r == Imperfect::<U, E, L>::Failure(e, l),
            },
            forall|g: spec_fn(T) -> U|
                (forall|t: T, u: U| #[trigger] call_ensures(f, (t,), u) ==> u == g(t)) ==> r@
                    == #[trigger] mapped(self@, g),
    {
        match self {
            Imperfect::Success(t) => Imperfect::Success(f(t)),
            Imperfect::Partial(t, l) => Imperfect::Partial(f(t), l),
            Imperfect::Failure(e, l) => Imperfect::Failure(e, l),
        }
    }

    /// Transform the error, preserving value and loss.
    pub fn map_err<F>(self, f: impl FnOnce(E) -> F) -> (r: Imperfect<T, F, L>)
        requires
            self matches Imperfect::Failure(e, _) ==> call_requires(f, (e,)),
        ensures
            match self {
                Imperfect::Success(t) => r == Imperfect::<T, F, L>::Success(t),
                Imperfect::Partial(t, l) => r == Imperfect::<T, F, L>::Partial(t, l),
                Imperfect::Failure(e, l) => r matches Imperfect::Failure(re, rl) && rl == l
                    && call_ensures(f, (e,), re),
            },
    {
        match self {
            Imperfect::Success(t) => Imperfect::Success(t),
            Imperfect::Partial(t, l) => Imperfect::Partial(t, l),
            Imperfect::Failure(e, l) => Imperfect::Failure(f(e), l),
        }
    }

    /// Terni-functor bind. Chain an operation, accumulating loss.
    ///
    /// - Success: apply f, return its result
    /// - Partial: apply f, combine losses
    /// - Failure: short-circuit, f never called
    pub fn eh<U>(self, f: impl FnOnce(T) -> Imperfect<U, E, L>) -> (r: Imperfect<U, E, L>)
        requires
            can_bind(self, f),
        ensures
            binds_to(self, f, r),
    {
        match self {
            Imperfect::Success(t) => f(t),
            Imperfect::Partial(t, loss) => {
                let next = f(t);
                propagate_loss(loss, next)
            },
            Imperfect::Failure(e, loss) => Imperfect::Failure(e, loss),
        }
    }

    /// Alias for [`eh`](Self::eh).
    pub fn imp<U>(self, f: impl FnOnce(T) -> Imperfect<U, E, L>) -> (r: Imperfect<U, E, L>)
        requires
            can_bind(self, f),
        ensures
            binds_to(self, f, r),
    {
        self.eh(f)
    }

    /// Alias for [`eh`](Self::eh). Mathematical form: the terni-functor bind.
    pub fn tri<U>(self, f: impl FnOnce(T) -> Imperfect<U, E, L>) -> (r: Imperfect<U, E, L>)
        requires
            can_bind(self, f),
        ensures
            binds_to(self, f, r),
    {
        self.eh(f)
    }

    /// Attempt recovery from Failure. The loss carries forward.
    ///
    /// Success and Partial pass through unchanged. A Failure's error goes to
    /// the recovery function and the failure's loss is carried in front of
    /// whatever it returns, so recovery from Failure never produces Success.
    pub fn recover(self, f: impl FnOnce(E) -> Imperfect<T, E, L>) -> (r: Imperfect<T, E, L>)
        requires
            self matches Imperfect::Failure(e, _) ==> call_requires(f, (e,)),
        ensures
            match self {
                Imperfect::Failure(e, l) => exists|n: Imperfect<T, E, L>|
                    call_ensures(f, (e,), n) && conforms::<T, E, L>(
                        r@,
                        propagated::<T, E, L>(l@, n@),
                    ),
                _ => r == self,
            },
            self is Failure ==> !(r is Success),
            forall|k: spec_fn(E) -> Outcome<T, E, L::V>|
                (forall|e: E, n: Imperfect<T, E, L>| #[trigger]
                    call_ensures(f, (e,), n) ==> n@ == k(e)) ==> conforms::<T, E, L>(
                    r@,
                    #[trigger] recovered::<T, E, L>(self@, k),
                ),
    {
        match self {
            Imperfect::Success(v) => Imperfect::Success(v),
            Imperfect::Partial(v, l) => Imperfect::Partial(v, l),
            Imperfect::Failure(e, loss) => {
                let next = f(e);
                propagate_loss(loss, next)
            },
        }
    }

    /// Recover a value from Failure. Always produces Partial on Failure,
    /// carrying the failure's loss.
    pub fn unwrap_or_else(self, f: impl FnOnce(E) -> T) -> (r: Imperfect<T, E, L>)
        requires
            self matches Imperfect::Failure(e, _) ==> call_requires(f, (e,)),
        ensures
            match self {
                Imperfect::Failure(e, l) => r matches Imperfect::Partial(v, rl) && rl == l
                    && call_ensures(f, (e,), v),
                _ => r == self,
            },
    {
        match self {
            Imperfect::Success(v) => Imperfect::Success(v),
            Imperfect::Partial(v, l) => Imperfect::Partial(v, l),
            Imperfect::Failure(e, loss) => Imperfect::Partial(f(e), loss),
        }
    }

    /// Recover with a static default. Always produces Partial on Failure.
    pub fn unwrap_or(self, default: T) -> (r: Imperfect<T, E, L>)
        ensures
            match self {
                Imperfect::Failure(_, l) => r == Imperfect::<T, E, L>::Partial(default, l),
                _ => r == self,
            },
    {
        self.unwrap_or_else(|_e: E| -> (v: T)
            ensures
                v == default,
            { default })
    }

    /// Propagate accumulated loss from `self` through `next`.
    ///
    /// - Success + next: next (no loss to propagate)
    /// - Partial(_, loss) + next: next with `loss` carried in front
    /// - Failure(e, loss) + anything: Failure(e.into(), loss); `next` is discarded
    pub fn compose<T2, E2>(self, next: Imperfect<T2, E2, L>) -> (r: Imperfect<T2, E2, L>) where
        E: Into<E2>,
        ensures
            match self {
                Imperfect::Success(_) => r == next,
                Imperfect::Partial(_, l) => conforms::<T2, E2, L>(
                    r@,
                    propagated::<T2, E2, L>(l@, next@),
                ),
                Imperfect::Failure(e, l) => r matches Imperfect::Failure(re, rl) && rl == l
                    && (<E as IntoSpec<E2>>::obeys_into_spec() ==> re == <E as IntoSpec<
                    E2,
                >>::into_spec(e)),
            },
    {
        match self {
            Imperfect::Failure(e, loss) => Imperfect::Failure(e.into(), loss),
            Imperfect::Success(_) => next,
            Imperfect::Partial(_, loss) => propagate_loss(loss, next),
        }
    }
}

} // verus!
