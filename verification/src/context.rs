//! `Eh`: a composition context that gathers loss across steps.
use vstd::prelude::*;

use crate::imperfect::Imperfect;
use crate::loss::Loss;
use crate::model::{accumulates, extracted, incurred, Outcome};

verus! {

/// Terni-functor composition context.
///
/// Accumulates loss across a sequence of `Imperfect` operations,
/// converting each to `Result` for use with `?`.
///
/// Call `.finish()` to wrap the final value with accumulated loss.
#[must_use]
pub struct Eh<L: Loss> {
    accumulated: Option<L>,
}

impl<L: Loss> View for Eh<L> {
    type V = Option<L::V>;

    /// The loss accumulated so far, or `None` if none was.
    closed spec fn view(&self) -> Option<L::V> {
        match self.accumulated {
            Some(l) => Some(l@),
            None => None,
        }
    }
}

impl<L: Loss> Eh<L> {
    /// Create a new composition context with zero accumulated loss.
    pub fn new() -> (r: Self)
        ensures
            r@ == None::<L::V>,
    {
        Eh { accumulated: None }
    }

    /// Extract value from Imperfect, accumulating loss.
    /// Returns `Result<T, E>` for use with `?`.
    pub fn eh<T, E>(&mut self, imp: Imperfect<T, E, L>) -> (r: Result<T, E>)
        ensures
            r == extracted(imp@),
            accumulates::<L>(final(self)@, old(self)@, incurred(imp@)),
    {
        match imp {
            Imperfect::Success(t) => Ok(t),
            Imperfect::Partial(t, loss) => {
                self.absorb(loss);
                Ok(t)
            },
            Imperfect::Failure(e, loss) => {
                self.absorb(loss);
                Err(e)
            },
        }
    }

    /// Combine `loss` behind whatever has accumulated.
    fn absorb(&mut self, loss: L)
        ensures
            accumulates::<L>(final(self)@, old(self)@, Some(loss@)),
    {
        let merged = match self.accumulated.take() {
            Some(existing) => existing.combine(loss),
            None => loss,
        };
        self.accumulated = Some(merged);
    }

    /// Alias for [`eh`](Self::eh).
    pub fn imp<T, E>(&mut self, imp: Imperfect<T, E, L>) -> (r: Result<T, E>)
        ensures
            r == extracted(imp@),
            accumulates::<L>(final(self)@, old(self)@, incurred(imp@)),
    {
        self.eh(imp)
    }

    /// Alias for [`eh`](Self::eh).
    pub fn tri<T, E>(&mut self, imp: Imperfect<T, E, L>) -> (r: Result<T, E>)
        ensures
            r == extracted(imp@),
            accumulates::<L>(final(self)@, old(self)@, incurred(imp@)),
    {
        self.eh(imp)
    }

    /// Wrap a final value with accumulated loss.
    /// Success if no loss accumulated. Partial if any did.
    pub fn finish<T, E>(self, value: T) -> (r: Imperfect<T, E, L>)
        ensures
            r@ == match self@ {
                Some(l) => Outcome::<T, E, L::V>::Partial(value, l),
                None => Outcome::<T, E, L::V>::Success(value),
            },
    {
        match self.accumulated {
            Some(loss) => Imperfect::Partial(value, loss),
            None => Imperfect::Success(value),
        }
    }

    /// Inspect accumulated loss without consuming the context.
    pub fn loss(&self) -> (r: Option<&L>)
        ensures
            match r {
                Some(l) => self@ == Some(l@),
                None => self@ is None,
            },
    {
        self.accumulated.as_ref()
    }

    /// Consume the context and return accumulated loss, if any.
    pub fn into_loss(self) -> (r: Option<L>)
        ensures
            match r {
                Some(l) => self@ == Some(l@),
                None => self@ is None,
            },
    {
        self.accumulated
    }
}

impl<L: Loss> Default for Eh<L> {
    /// A context with no accumulated loss.
    fn default() -> (r: Self)
        ensures
            r@ == None::<L::V>,
    {
        Self::new()
    }
}

/// Types that can be extracted through an [`Eh`] context.
///
/// Implemented for [`Imperfect`] (accumulates loss) and `Result`
/// (passes through).
pub trait IntoEh<T, E, L: Loss>: Sized {
    /// What extraction hands back.
    spec fn extracted_spec(self) -> Result<T, E>;

    /// The loss that extraction adds to the context, if any.
    spec fn incurred_spec(self) -> Option<L::V>;

    /// Extract the value, accumulating loss if applicable.
    fn into_eh(self, ctx: &mut Eh<L>) -> (r: Result<T, E>)
        ensures
            r == self.extracted_spec(),
            accumulates::<L>(final(ctx)@, old(ctx)@, self.incurred_spec()),
    ;
}

impl<T, E, L: Loss> IntoEh<T, E, L> for Imperfect<T, E, L> {
    open spec fn extracted_spec(self) -> Result<T, E> {
        extracted(self@)
    }

    open spec fn incurred_spec(self) -> Option<L::V> {
        incurred(self@)
    }

    fn into_eh(self, ctx: &mut Eh<L>) -> (r: Result<T, E>) {
        ctx.eh(self)
    }
}

impl<T, E, L: Loss> IntoEh<T, E, L> for Result<T, E> {
    open spec fn extracted_spec(self) -> Result<T, E> {
        self
    }

    open spec fn incurred_spec(self) -> Option<L::V> {
        None
    }

    fn into_eh(self, ctx: &mut Eh<L>) -> (r: Result<T, E>) {
        self
    }
}

} // verus!
