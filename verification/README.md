# Imperfect outcomes, verified

A result type with three states, `Success(T)`, `Partial(T, L)` and
`Failure(E, L)`, where `L` is a loss that measures what did not survive a
step, written in Verus. Every function of the library is proved against its
contract, except two trusted wrappers around std's `HashSet::extend` and
`BTreeSet::extend`, whose contracts Verus takes on trust.

Layout of `src/`:

- `loss.rs`: the `Loss` trait. Each loss is modelled by its view; the trait
  states `zero`, `total` and `combine` over that model and makes every
  implementation prove that `zero` is an identity and `combine` associative.
- `std_losses.rs`: losses for `u64`, `Vec`, `String`, pairs, `HashSet` and
  `BTreeSet` (the `usize` one sits in `loss.rs`).
- `convergence.rs`: `ConvergenceLoss`, whose `combine` takes the maximum.
- `model.rs`: `Outcome`, the model of an `Imperfect`, and the spec functions
  (`propagated`, `bind`, `recovered`, `mapped`, `accumulated`) the contracts
  are written in.
- `imperfect.rs`: `Imperfect` and its constructors, queries and combinators.
- `context.rs`: the `Eh` context and the `IntoEh` trait.
- `interop.rs`: conversions from and to `Result` and `Option`.
- `laws.rs`: the terni-functor laws (identities, associativity), recovery,
  context accumulation, conversions, and which `total`s absorb.
- `aperture.rs`: the union of dark dimensions: the other side unchanged when
  one side has none, otherwise in ascending order.
- `transparency.rs`: `Diagnostic`.

`app/` holds the losses and verdicts whose measure is a floating-point number
(`ApertureLoss`, `RoutingLoss`, `PropertyVerdict`, `Transparency`), which
Verus does not take; `ApertureLoss` calls the verified union of dark
dimensions. These types do not implement `Loss`, whose model is a vstd
`View`, so they offer `zero`, `total`, `is_zero` and `combine` as their own
methods, and `Imperfect` cannot carry them. There is no `f64` loss.

The original's `eh!` block macro is not here: it is a procedural macro, and
this crate defines no macros. Its runtime part, the `Eh` context and the
`IntoEh` trait, is.
