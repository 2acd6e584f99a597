//! The mathematical model of an `Imperfect` value and of loss accumulation.
use vstd::prelude::*;

use crate::loss::Loss;

verus! {

/// The model of an `Imperfect<T, E, L>`: the same three states, with the loss
/// taken by its view.
pub enum Outcome<T, E, V> {
    /// Perfect result, zero loss.
    Success(T),
    /// Value present, some loss measured.
    Partial(T, V),
    /// No value; the loss accumulated before the failure.
    Failure(E, V),
}

/// Loss carried forward into the next step's outcome: a success becomes
/// partial with the carried loss, otherwise the carried loss is combined in
/// front of the step's own loss.
pub open spec fn propagated<T, E, L: Loss>(
    loss: L::V,
    next: Outcome<T, E, L::V>,
) -> Outcome<T, E, L::V> {
    match next {
        Outcome::Success(u) => Outcome::Partial(u, loss),
        Outcome::Partial(u, l2) => Outcome::Partial(u, L::combine_spec(loss, l2)),
        Outcome::Failure(e, l2) => Outcome::Failure(e, L::combine_spec(loss, l2)),
    }
}

/// The terni-functor bind: feed the value to `k` and accumulate loss;
/// a failure short-circuits with its loss.
pub open spec fn bind<T, U, E, L: Loss>(
    m: Outcome<T, E, L::V>,
    k: spec_fn(T) -> Outcome<U, E, L::V>,
) -> Outcome<U, E, L::V> {
    match m {
        Outcome::Success(t) => k(t),
        Outcome::Partial(t, l) => propagated::<U, E, L>(l, k(t)),
        Outcome::Failure(e, l) => Outcome::Failure(e, l),
    }
}

/// The unit of `bind`: a perfect result.
pub open spec fn unit<T, E, V>(t: T) -> Outcome<T, E, V> {
    Outcome::Success(t)
}

/// Recovery: a failure's error goes to `k`, and the failure's loss is carried
/// in front of whatever `k` gives; success and partial pass unchanged.
pub open spec fn recovered<T, E, L: Loss>(
    m: Outcome<T, E, L::V>,
    k: spec_fn(E) -> Outcome<T, E, L::V>,
) -> Outcome<T, E, L::V> {
    match m {
        Outcome::Failure(e, l) => propagated::<T, E, L>(l, k(e)),
        _ => m,
    }
}

/// Transform the value, keeping loss and failure.
pub open spec fn mapped<T, U, E, V>(m: Outcome<T, E, V>, g: spec_fn(T) -> U) -> Outcome<U, E, V> {
    match m {
        Outcome::Success(t) => Outcome::Success(g(t)),
        Outcome::Partial(t, l) => Outcome::Partial(g(t), l),
        Outcome::Failure(e, l) => Outcome::Failure(e, l),
    }
}

/// Two outcomes in the same state with the same value or error; their losses
/// may differ.
pub open spec fn same_payload<T, E, V>(a: Outcome<T, E, V>, b: Outcome<T, E, V>) -> bool {
    match (a, b) {
        (Outcome::Success(x), Outcome::Success(y)) => x == y,
        (Outcome::Partial(x, _), Outcome::Partial(y, _)) => x == y,
        (Outcome::Failure(x, _), Outcome::Failure(y, _)) => x == y,
        _ => false,
    }
}

/// `got` is what the model `want` describes: the same state and payload
/// always, and the same loss whenever `L`'s `combine` agrees with its model.
pub open spec fn conforms<T, E, L: Loss>(
    got: Outcome<T, E, L::V>,
    want: Outcome<T, E, L::V>,
) -> bool {
    &&& same_payload(got, want)
    &&& L::obeys_combine_spec() ==> got == want
}

/// The loss an outcome carries, if any: none for a success.
pub open spec fn incurred<T, E, V>(m: Outcome<T, E, V>) -> Option<V> {
    match m {
        Outcome::Success(_) => None,
        Outcome::Partial(_, l) => Some(l),
        Outcome::Failure(_, l) => Some(l),
    }
}

/// What an outcome hands on as a `Result`: the value of a success or a
/// partial, the error of a failure.
pub open spec fn extracted<T, E, V>(m: Outcome<T, E, V>) -> Result<T, E> {
    match m {
        Outcome::Success(t) => Ok(t),
        Outcome::Partial(t, _) => Ok(t),
        Outcome::Failure(e, _) => Err(e),
    }
}

/// Loss accumulated in a context after it absorbs `incoming`: unchanged when
/// nothing comes in, otherwise the new loss, combined behind any earlier one.
pub open spec fn accumulated<L: Loss>(acc: Option<L::V>, incoming: Option<L::V>) -> Option<L::V> {
    match incoming {
        None => acc,
        Some(l) => match acc {
            None => Some(l),
            Some(a) => Some(L::combine_spec(a, l)),
        },
    }
}

/// `acc2` is the accumulation that `accumulated` describes: present exactly
/// when it describes one, and equal to it whenever `L`'s `combine` agrees
/// with its model.
pub open spec fn accumulates<L: Loss>(
    acc2: Option<L::V>,
    acc: Option<L::V>,
    incoming: Option<L::V>,
) -> bool {
    &&& (acc2 is Some <==> accumulated::<L>(acc, incoming) is Some)
    &&& (acc is None || incoming is None || L::obeys_combine_spec()) ==> acc2
        == accumulated::<L>(acc, incoming)
}

/// The loss a context holds after absorbing each of `incoming` in order,
/// starting from `acc`.
pub open spec fn accumulated_all<L: Loss>(
    acc: Option<L::V>,
    incoming: Seq<Option<L::V>>,
) -> Option<L::V>
    decreases incoming.len(),
{
    if incoming.len() == 0 {
        acc
    } else {
        accumulated::<L>(accumulated_all::<L>(acc, incoming.drop_last()), incoming.last())
    }
}

/// The losses that are present in `incoming`, in order.
pub open spec fn present_losses<V>(incoming: Seq<Option<V>>) -> Seq<V>
    decreases incoming.len(),
{
    if incoming.len() == 0 {
        Seq::empty()
    } else {
        let prev = present_losses(incoming.drop_last());
        match incoming.last() {
            Some(l) => prev.push(l),
            None => prev,
        }
    }
}

/// The left fold by `combine` of a non-empty sequence of losses.
pub open spec fn combine_all<L: Loss>(ls: Seq<L::V>) -> L::V
    decreases ls.len(),
{
    if ls.len() <= 1 {
        ls[0]
    } else {
        L::combine_spec(combine_all::<L>(ls.drop_last()), ls.last())
    }
}

/// The model of converting a `Result` into an `Imperfect`.
pub open spec fn from_result<T, E, L: Loss>(r: Result<T, E>) -> Outcome<T, E, L::V> {
    match r {
        Ok(v) => Outcome::Success(v),
        Err(e) => Outcome::Failure(e, L::zero_spec()),
    }
}

/// The model of converting an `Option` into an `Imperfect`: absence is a
/// failure with no error to report and zero loss.
pub open spec fn from_option<T, L: Loss>(o: Option<T>) -> Outcome<T, (), L::V> {
    match o {
        Some(v) => Outcome::Success(v),
        None => Outcome::Failure((), L::zero_spec()),
    }
}

} // verus!
