//! Laws of the terni-functor, of recovery, of the context, and of the
//! conversions, stated over the model.
use vstd::prelude::*;

use crate::convergence::ConvergenceLoss;
use crate::loss::{clone_keeps_view, total_absorbs, Loss};
use crate::imperfect::{binds_to, Imperfect};
use crate::model::{
    accumulated, accumulated_all, accumulates, bind, combine_all, conforms, extracted,
    from_result, incurred, mapped, present_losses, propagated, recovered, unit, Outcome,
};

verus! {

/// Left identity: binding a perfect result is just applying the step.
pub proof fn lemma_bind_left_identity<T, U, E, L: Loss>(
    t: T,
    k: spec_fn(T) -> Outcome<U, E, L::V>,
)
    ensures
        bind::<T, U, E, L>(unit(t), k) == k(t),
{
}

/// Right identity: binding with the perfect-result step changes nothing.
pub proof fn lemma_bind_right_identity<T, E, L: Loss>(m: Outcome<T, E, L::V>)
    ensures
        bind::<T, T, E, L>(m, |t: T| unit::<T, E, L::V>(t)) == m,
{
}

/// Carrying a loss in front of a bound step equals binding the step after
/// the loss was carried: `propagated` and `bind` commute.
pub proof fn lemma_propagated_bind<U, W, E, L: Loss>(
    l: L::V,
    n: Outcome<U, E, L::V>,
    g: spec_fn(U) -> Outcome<W, E, L::V>,
)
    ensures
        bind::<U, W, E, L>(propagated::<U, E, L>(l, n), g) == propagated::<W, E, L>(
            l,
            bind::<U, W, E, L>(n, g),
        ),
{
    match n {
        Outcome::Partial(u, l2) => {
            match g(u) {
                Outcome::Partial(_, l3) => {
                    L::lemma_combine_assoc(l, l2, l3);
                },
                Outcome::Failure(_, l3) => {
                    L::lemma_combine_assoc(l, l2, l3);
                },
                Outcome::Success(_) => {},
            }
        },
        _ => {},
    }
}

/// Associativity: binding `f` then `g` equals binding the composite step.
pub proof fn lemma_bind_assoc<T, U, W, E, L: Loss>(
    m: Outcome<T, E, L::V>,
    f: spec_fn(T) -> Outcome<U, E, L::V>,
    g: spec_fn(U) -> Outcome<W, E, L::V>,
)
    ensures
        bind::<U, W, E, L>(bind::<T, U, E, L>(m, f), g) == bind::<T, W, E, L>(
            m,
            |t: T| bind::<U, W, E, L>(f(t), g),
        ),
{
    match m {
        Outcome::Partial(t, l) => {
            lemma_propagated_bind::<U, W, E, L>(l, f(t), g);
        },
        _ => {},
    }
}

/// `map` is `bind` with a step that always succeeds.
pub proof fn lemma_map_is_bind<T, U, E, L: Loss>(m: Outcome<T, E, L::V>, g: spec_fn(T) -> U)
    ensures
        mapped(m, g) == bind::<T, U, E, L>(m, |t: T| unit::<U, E, L::V>(g(t))),
{
}

/// Mapping the identity changes nothing.
pub proof fn lemma_map_identity<T, E, V>(m: Outcome<T, E, V>)
    ensures
        mapped(m, |t: T| t) == m,
{
}

/// Mapping twice equals mapping the composite.
pub proof fn lemma_map_compose<T, U, W, E, V>(
    m: Outcome<T, E, V>,
    g: spec_fn(T) -> U,
    h: spec_fn(U) -> W,
)
    ensures
        mapped(mapped(m, g), h) == mapped(m, |t: T| h(g(t))),
{
}

/// Recovery from a failure never yields a success, and it leaves successes
/// and partials as they are.
pub proof fn lemma_recover_never_success<T, E, L: Loss>(
    m: Outcome<T, E, L::V>,
    k: spec_fn(E) -> Outcome<T, E, L::V>,
)
    ensures
        m is Failure ==> !(recovered::<T, E, L>(m, k) is Success),
        !(m is Failure) ==> recovered::<T, E, L>(m, k) == m,
{
}

/// A failure short-circuits `bind`: its error and loss come through untouched.
pub proof fn lemma_bind_failure_short_circuits<T, U, E, L: Loss>(
    e: E,
    l: L::V,
    k: spec_fn(T) -> Outcome<U, E, L::V>,
)
    ensures
        bind::<T, U, E, L>(Outcome::Failure(e, l), k) == Outcome::<U, E, L::V>::Failure(e, l),
{
}

/// A context that absorbs `a` and then `b` holds the same as one that
/// absorbs `a` combined with `b`.
pub proof fn lemma_accumulate_twice<L: Loss>(acc: Option<L::V>, a: L::V, b: L::V)
    ensures
        accumulated::<L>(accumulated::<L>(acc, Some(a)), Some(b)) == accumulated::<L>(
            acc,
            Some(L::combine_spec(a, b)),
        ),
{
    if let Some(x) = acc {
        L::lemma_combine_assoc(x, a, b);
    }
}

/// A context that starts empty and absorbs a zero loss holds a zero loss,
/// and absorbing zero into a held loss leaves it as it was.
pub proof fn lemma_accumulate_zero<L: Loss>(acc: Option<L::V>)
    ensures
        accumulated::<L>(acc, Some(L::zero_spec())) == match acc {
            Some(a) => Some(a),
            None => Some(L::zero_spec()),
        },
{
    if let Some(a) = acc {
        L::lemma_zero_right(a);
    }
}

/// A `Result` turned into an `Imperfect` and back is the same `Result`.
pub proof fn lemma_result_round_trip<T, E, L: Loss>(r: Result<T, E>)
    ensures
        extracted(from_result::<T, E, L>(r)) == r,
{
}

/// An `Imperfect` turned into a `Result` and back keeps its value or error;
/// a success comes back unchanged.
pub proof fn lemma_imperfect_round_trip<T, E, L: Loss>(m: Outcome<T, E, L::V>)
    ensures
        m is Success ==> from_result::<T, E, L>(extracted(m)) == m,
        extracted(from_result::<T, E, L>(extracted(m))) == extracted(m),
{
}

/// For a list loss, `total` is the empty list, the same as `zero`, and it
/// does not absorb.
pub proof fn lemma_vec_total_is_zero<T: Clone>()
    ensures
        <Vec<T> as Loss>::total_spec() == <Vec<T> as Loss>::zero_spec(),
        !total_absorbs::<Vec<T>>(),
{
    let x = seq![vstd::pervasive::arbitrary::<T>()];
    assert(<Vec<T> as Loss>::combine_spec(x, <Vec<T> as Loss>::total_spec()) =~= x);
    assert(x.len() == 1);
}

/// For a message log, `total` is the empty text, the same as `zero`, and it
/// does not absorb.
pub proof fn lemma_string_total_is_zero()
    ensures
        <String as Loss>::total_spec() == <String as Loss>::zero_spec(),
        !total_absorbs::<String>(),
{
    let x = seq!['x'];
    assert(<String as Loss>::combine_spec(x, <String as Loss>::total_spec()) =~= x);
    assert(x.len() == 1);
}

/// For a hashed set loss, `total` is the empty set, the same as `zero`, and
/// it does not absorb.
pub proof fn lemma_hash_set_total_is_zero<T: Eq + std::hash::Hash + Clone>()
    ensures
        <std::collections::HashSet<T> as Loss>::total_spec() == <std::collections::HashSet<
            T,
        > as Loss>::zero_spec(),
        !total_absorbs::<std::collections::HashSet<T>>(),
{
    let t = vstd::pervasive::arbitrary::<T>();
    let x = Set::<T>::empty().insert(t);
    assert(<std::collections::HashSet<T> as Loss>::combine_spec(
        x,
        <std::collections::HashSet<T> as Loss>::total_spec(),
    ) =~= x);
    assert(x.contains(t));
}

/// For an ordered set loss, `total` is the empty set, the same as `zero`,
/// and it does not absorb.
pub proof fn lemma_btree_set_total_is_zero<T: Ord + Clone>()
    ensures
        <std::collections::BTreeSet<T> as Loss>::total_spec() == <std::collections::BTreeSet<
            T,
        > as Loss>::zero_spec(),
        !total_absorbs::<std::collections::BTreeSet<T>>(),
{
    let t = vstd::pervasive::arbitrary::<T>();
    let x = Set::<T>::empty().insert(t);
    assert(<std::collections::BTreeSet<T> as Loss>::combine_spec(
        x,
        <std::collections::BTreeSet<T> as Loss>::total_spec(),
    ) =~= x);
    assert(x.contains(t));
}

/// Cloning a `usize` loss keeps its value.
pub proof fn lemma_usize_clone_keeps_view()
    ensures
        clone_keeps_view::<usize>(),
{
}

/// Cloning a `u64` loss keeps its value.
pub proof fn lemma_u64_clone_keeps_view()
    ensures
        clone_keeps_view::<u64>(),
{
}

/// Cloning a `String` loss keeps its text.
pub proof fn lemma_string_clone_keeps_view()
    ensures
        clone_keeps_view::<String>(),
{
}

/// Cloning a `ConvergenceLoss` keeps its steps.
pub proof fn lemma_convergence_clone_keeps_view()
    ensures
        clone_keeps_view::<ConvergenceLoss>(),
{
}

/// Cloning an ordered set loss keeps its elements.
pub proof fn lemma_btree_set_clone_keeps_view<T: Ord + Clone>()
    ensures
        clone_keeps_view::<std::collections::BTreeSet<T>>(),
{
}

/// A context that starts empty and absorbs the losses `incoming` in order
/// holds nothing when no step carried a loss, and otherwise the left fold by
/// `combine` of the losses that were carried, in call order.
pub proof fn lemma_context_fold<L: Loss>(incoming: Seq<Option<L::V>>)
    ensures
        accumulated_all::<L>(None, incoming) == if present_losses(incoming).len() == 0 {
            None
        } else {
            Some(combine_all::<L>(present_losses(incoming)))
        },
    decreases incoming.len(),
{
    if incoming.len() > 0 {
        let init = incoming.drop_last();
        lemma_context_fold::<L>(init);
        let p = present_losses(init);
        if let Some(l) = incoming.last() {
            let q = p.push(l);
            assert(q.drop_last() =~= p);
            if p.len() == 0 {
                assert(q.len() == 1);
            }
        }
    }
}

/// One more call of `Eh::eh` (or `imp`, `tri`, `into_eh`) extends the fold:
/// a context that held the fold of the `earlier` losses, and absorbs
/// `incoming` in the way those calls promise, holds the fold of the losses
/// with `incoming` appended, whenever `combine` agrees with its model. So a
/// run of calls from an empty context ends in `accumulated_all(None, ..)` of
/// the losses its steps carried, which `lemma_context_fold` evaluates.
pub proof fn lemma_context_step<L: Loss>(
    start: Option<L::V>,
    earlier: Seq<Option<L::V>>,
    incoming: Option<L::V>,
    acc2: Option<L::V>,
)
    requires
        accumulates::<L>(acc2, accumulated_all::<L>(start, earlier), incoming),
        L::obeys_combine_spec(),
    ensures
        acc2 == accumulated_all::<L>(start, earlier.push(incoming)),
{
    assert(earlier.push(incoming).drop_last() =~= earlier);
}

/// `compose` is `bind` with a step that ignores the value: a success gives
/// `next`, a partial carries its loss in front of `next`, a failure stays.
pub proof fn lemma_compose_is_bind<T, T2, E, L: Loss>(
    m: Outcome<T, E, L::V>,
    next: Outcome<T2, E, L::V>,
)
    ensures
        bind::<T, T2, E, L>(m, |t: T| next) == match m {
            Outcome::Success(_) => next,
            Outcome::Partial(_, l) => propagated::<T2, E, L>(l, next),
            Outcome::Failure(e, l) => Outcome::Failure(e, l),
        },
{
}

/// Two results of binding the same value with the same step agree when the
/// step follows a model and `combine` agrees with its own: so `eh`, `imp`
/// and `tri`, whose contracts are all `binds_to`, give equal results.
pub proof fn lemma_binds_to_determined<T, U, E, L: Loss, F: FnOnce(T) -> Imperfect<U, E, L>>(
    m: Imperfect<T, E, L>,
    f: F,
    k: spec_fn(T) -> Outcome<U, E, L::V>,
    r1: Imperfect<U, E, L>,
    r2: Imperfect<U, E, L>,
)
    requires
        forall|t: T, n: Imperfect<U, E, L>| #[trigger] call_ensures(f, (t,), n) ==> n@ == k(t),
        L::obeys_combine_spec(),
        binds_to(m, f, r1),
        binds_to(m, f, r2),
    ensures
        r1@ == r2@,
        r1@ == bind::<T, U, E, L>(m@, k),
{
    assert(conforms::<U, E, L>(r1@, bind::<T, U, E, L>(m@, k)));
    assert(conforms::<U, E, L>(r2@, bind::<T, U, E, L>(m@, k)));
}

/// Left identity on executions: binding a success is the step's own result.
pub proof fn lemma_eh_left_identity<T, U, E, L: Loss, F: FnOnce(T) -> Imperfect<U, E, L>>(
    t: T,
    f: F,
    r: Imperfect<U, E, L>,
)
    requires
        binds_to(Imperfect::<T, E, L>::Success(t), f, r),
    ensures
        call_ensures(f, (t,), r),
{
}

/// Right identity on executions: binding with a step that just succeeds
/// gives back the value bound.
pub proof fn lemma_eh_right_identity<T, E, L: Loss, F: FnOnce(T) -> Imperfect<T, E, L>>(
    m: Imperfect<T, E, L>,
    f: F,
    r: Imperfect<T, E, L>,
)
    requires
        forall|t: T, n: Imperfect<T, E, L>| #[trigger] call_ensures(f, (t,), n) ==> n@ == unit::<
            T,
            E,
            L::V,
        >(t),
        L::obeys_combine_spec(),
        binds_to(m, f, r),
    ensures
        r@ == m@,
{
    let k = |t: T| unit::<T, E, L::V>(t);
    assert(conforms::<T, E, L>(r@, bind::<T, T, E, L>(m@, k)));
    lemma_bind_right_identity::<T, E, L>(m@);
}

/// Associativity on executions: binding `f` then `g` gives the same as
/// binding a step `h` that does `f` then `g`.
pub proof fn lemma_eh_assoc<
    T,
    U,
    W,
    E,
    L: Loss,
    F: FnOnce(T) -> Imperfect<U, E, L>,
    G: FnOnce(U) -> Imperfect<W, E, L>,
    H: FnOnce(T) -> Imperfect<W, E, L>,
>(
    x: Imperfect<T, E, L>,
    f: F,
    g: G,
    h: H,
    kf: spec_fn(T) -> Outcome<U, E, L::V>,
    kg: spec_fn(U) -> Outcome<W, E, L::V>,
    a: Imperfect<U, E, L>,
    r1: Imperfect<W, E, L>,
    r2: Imperfect<W, E, L>,
)
    requires
        L::obeys_combine_spec(),
        forall|t: T, n: Imperfect<U, E, L>| #[trigger] call_ensures(f, (t,), n) ==> n@ == kf(t),
        forall|u: U, n: Imperfect<W, E, L>| #[trigger] call_ensures(g, (u,), n) ==> n@ == kg(u),
        forall|t: T, n: Imperfect<W, E, L>| #[trigger]
            call_ensures(h, (t,), n) ==> n@ == bind::<U, W, E, L>(kf(t), kg),
        binds_to(x, f, a),
        binds_to(a, g, r1),
        binds_to(x, h, r2),
    ensures
        r1@ == r2@,
{
    let kh = |t: T| bind::<U, W, E, L>(kf(t), kg);
    assert(conforms::<U, E, L>(a@, bind::<T, U, E, L>(x@, kf)));
    assert(conforms::<W, E, L>(r1@, bind::<U, W, E, L>(a@, kg)));
    assert(conforms::<W, E, L>(r2@, bind::<T, W, E, L>(x@, kh)));
    lemma_bind_assoc::<T, U, W, E, L>(x@, kf, kg);
}

/// Binding a partial with a step that carries a loss of its own puts the
/// earlier loss first: the result's loss is `combine(earlier, later)`.
pub proof fn lemma_bind_earlier_loss_first<T, U, E, L: Loss>(
    t: T,
    l: L::V,
    k: spec_fn(T) -> Outcome<U, E, L::V>,
)
    ensures
        k(t) matches Outcome::Partial(u, l2) ==> bind::<T, U, E, L>(Outcome::Partial(t, l), k)
            == Outcome::<U, E, L::V>::Partial(u, L::combine_spec(l, l2)),
        k(t) matches Outcome::Failure(e, l2) ==> bind::<T, U, E, L>(Outcome::Partial(t, l), k)
            == Outcome::<U, E, L::V>::Failure(e, L::combine_spec(l, l2)),
{
}

/// Binding and the context agree: carrying `l` into the next outcome leaves
/// exactly the loss that a context holding `l` holds after absorbing that
/// outcome's loss.
pub proof fn lemma_bind_agrees_with_context<T, E, L: Loss>(l: L::V, n: Outcome<T, E, L::V>)
    ensures
        incurred(propagated::<T, E, L>(l, n)) == accumulated::<L>(Some(l), incurred(n)),
        accumulated::<L>(Some(l), incurred(n)) == Some(
            match n {
                Outcome::Success(_) => l,
                Outcome::Partial(_, l2) => L::combine_spec(l, l2),
                Outcome::Failure(_, l2) => L::combine_spec(l, l2),
            },
        ),
{
}

/// With message logs, binding a partial `a` with a step whose partial or
/// failure carries `b` leaves `a; b` (earlier message first) when both have
/// text, and whichever has text otherwise; a context joins the same way.
pub proof fn lemma_bind_string_order<U, E>(a: Seq<char>, b: Seq<char>, n: Outcome<U, E, Seq<char>>)
    requires
        (n matches Outcome::Partial(_, l2) && l2 == b) || (n matches Outcome::Failure(_, l2)
            && l2 == b),
    ensures
        incurred(propagated::<U, E, String>(a, n)) == Some(
            if a.len() > 0 && b.len() > 0 {
                a + seq![';', ' '] + b
            } else {
                a + b
            },
        ),
        accumulated::<String>(Some(a), Some(b)) == incurred(propagated::<U, E, String>(a, n)),
{
    lemma_string_combine_joins(a, b);
}

/// With lists of events, binding a partial `a` with a step whose partial or
/// failure carries `b` lists `a`'s events, then `b`'s.
pub proof fn lemma_bind_vec_order<U, E, X: Clone>(a: Seq<X>, b: Seq<X>, n: Outcome<U, E, Seq<X>>)
    requires
        (n matches Outcome::Partial(_, l2) && l2 == b) || (n matches Outcome::Failure(_, l2)
            && l2 == b),
    ensures
        incurred(propagated::<U, E, Vec<X>>(a, n)) matches Some(r) && r.len() == a.len() + b.len()
            && (forall|i: int| 0 <= i < a.len() ==> r[i] == a[i]) && (forall|j: int|
            0 <= j < b.len() ==> r[a.len() + j] == b[j]),
{
}

/// Two message logs combine into the first, `"; "`, then the second when
/// both have text, whatever characters they hold; an empty side leaves the
/// other as it is.
pub proof fn lemma_string_combine_joins(a: Seq<char>, b: Seq<char>)
    ensures
        a.len() > 0 && b.len() > 0 ==> <String as Loss>::combine_spec(a, b) == a + seq![';', ' ']
            + b,
        a.len() == 0 ==> <String as Loss>::combine_spec(a, b) == b,
        b.len() == 0 ==> <String as Loss>::combine_spec(a, b) == a,
{
    assert(a.len() == 0 ==> a + b =~= b);
    assert(b.len() == 0 ==> a + b =~= a);
}

/// A pair combines each component by that component's own `combine`, with
/// the left pair's component first.
pub proof fn lemma_pair_combine_componentwise<A: Loss, B: Loss>(a: (A::V, B::V), b: (A::V, B::V))
    ensures
        <(A, B) as Loss>::combine_spec(a, b).0 == A::combine_spec(a.0, b.0),
        <(A, B) as Loss>::combine_spec(a, b).1 == B::combine_spec(a.1, b.1),
{
}

/// Counting losses add: the sum when it fits, `MAX` when it does not.
pub proof fn lemma_counts_add(a: usize, b: usize, c: u64, d: u64)
    ensures
        a + b <= usize::MAX ==> <usize as Loss>::combine_spec(a, b) == a + b,
        a + b > usize::MAX ==> <usize as Loss>::combine_spec(a, b) == usize::MAX,
        c + d <= u64::MAX ==> <u64 as Loss>::combine_spec(c, d) == c + d,
        c + d > u64::MAX ==> <u64 as Loss>::combine_spec(c, d) == u64::MAX,
{
}

/// Distances to crystal combine to the larger of the two.
pub proof fn lemma_convergence_combine_is_max(a: usize, b: usize)
    ensures
        <ConvergenceLoss as Loss>::combine_spec(a, b) >= a,
        <ConvergenceLoss as Loss>::combine_spec(a, b) >= b,
        <ConvergenceLoss as Loss>::combine_spec(a, b) == a || <ConvergenceLoss as Loss>::combine_spec(
            a,
            b,
        ) == b,
{
}

/// Set losses combine to the elements of either side.
pub proof fn lemma_sets_combine_to_union<T: Eq + std::hash::Hash + Ord + Clone>(
    a: Set<T>,
    b: Set<T>,
    x: T,
)
    ensures
        <std::collections::HashSet<T> as Loss>::combine_spec(a, b).contains(x) <==> a.contains(x)
            || b.contains(x),
        <std::collections::BTreeSet<T> as Loss>::combine_spec(a, b).contains(x) <==> a.contains(x)
            || b.contains(x),
{
}

} // verus!
