//! The `Loss` monoid and its model.
use vstd::pervasive::cloned;
use vstd::prelude::*;

verus! {

/// A measure of what did not survive a transformation.
///
/// Each loss type is modelled by its view. `zero` is the identity of
/// `combine`, `combine` is associative, and for the numeric losses `total`
/// absorbs everything it is combined with.
pub trait Loss: Sized + Default + View {
    /// The model of `zero()`.
    spec fn zero_spec() -> Self::V;

    /// The model of `total()`.
    spec fn total_spec() -> Self::V;

    /// The model of `combine`.
    spec fn combine_spec(a: Self::V, b: Self::V) -> Self::V;

    /// Whether the executable `combine` agrees with `combine_spec`.
    /// It does for every loss of this crate whose elements behave; set
    /// losses need keys whose equality, hashing or ordering is lawful.
    open spec fn obeys_combine_spec() -> bool {
        true
    }

    /// The identity: no loss occurred.
    fn zero() -> (r: Self)
        ensures
            r@ == Self::zero_spec(),
    ;

    /// Total loss: the transformation destroyed everything.
    fn total() -> (r: Self)
        ensures
            r@ == Self::total_spec(),
    ;

    /// Whether this loss is zero (lossless).
    fn is_zero(&self) -> (b: bool)
        ensures
            b == (self@ == Self::zero_spec()),
    ;

    /// Accumulate two losses.
    fn combine(self, other: Self) -> (r: Self)
        ensures
            Self::obeys_combine_spec() ==> r@ == Self::combine_spec(self@, other@),
    ;

    /// `zero` is a left identity of `combine`.
    proof fn lemma_zero_left(x: Self::V)
        ensures
            Self::combine_spec(Self::zero_spec(), x) == x,
    ;

    /// `zero` is a right identity of `combine`.
    proof fn lemma_zero_right(x: Self::V)
        ensures
            Self::combine_spec(x, Self::zero_spec()) == x,
    ;

    /// `combine` is associative.
    proof fn lemma_combine_assoc(a: Self::V, b: Self::V, c: Self::V)
        ensures
            Self::combine_spec(Self::combine_spec(a, b), c) == Self::combine_spec(
                a,
                Self::combine_spec(b, c),
            ),
    ;
}

/// `total` is an absorbing element of `combine`, on both sides.
pub open spec fn total_absorbs<L: Loss>() -> bool {
    forall|x: L::V|
        #![trigger L::combine_spec(x, L::total_spec())]
        #![trigger L::combine_spec(L::total_spec(), x)]
        L::combine_spec(x, L::total_spec()) == L::total_spec() && L::combine_spec(
            L::total_spec(),
            x,
        ) == L::total_spec()
}

/// Every clone of a value of `L` has the same view as the value.
pub open spec fn clone_keeps_view<L: Clone + View>() -> bool {
    forall|a: L, b: L| #[trigger] cloned(a, b) ==> a@ == b@
}

/// The model of saturating addition on `usize`.
pub open spec fn saturating_usize(a: usize, b: usize) -> usize {
    if a + b > usize::MAX {
        usize::MAX
    } else {
        (a + b) as usize
    }
}

impl Loss for usize {
    open spec fn zero_spec() -> usize {
        0
    }

    open spec fn total_spec() -> usize {
        usize::MAX
    }

    open spec fn combine_spec(a: usize, b: usize) -> usize {
        saturating_usize(a, b)
    }

    fn zero() -> (r: usize) {
        0
    }

    fn total() -> (r: usize) {
        usize::MAX
    }

    fn is_zero(&self) -> (b: bool) {
        *self == 0
    }

    fn combine(self, other: usize) -> (r: usize) {
        self.saturating_add(other)
    }

    proof fn lemma_zero_left(x: usize) {
    }

    proof fn lemma_zero_right(x: usize) {
    }

    proof fn lemma_combine_assoc(a: usize, b: usize, c: usize) {
    }
}

/// Saturating addition on `usize` makes `usize::MAX` absorbing.
pub proof fn lemma_usize_total_absorbs()
    ensures
        total_absorbs::<usize>(),
{
}

} // verus!
