//! Conversions between `Imperfect` and std's `Result` and `Option`.
use vstd::prelude::*;
use vstd::std_specs::convert::FromSpecImpl;

use crate::imperfect::Imperfect;
use crate::loss::Loss;
use crate::model::{extracted, from_option, from_result};

verus! {

impl<T, E, L: Loss> From<Result<T, E>> for Imperfect<T, E, L> {
    /// `Ok(v)` becomes `Success(v)`; `Err(e)` becomes a failure with zero loss.
    fn from(r: Result<T, E>) -> (i: Self)
        ensures
            i@ == from_result::<T, E, L>(r),
    {
        match r {
            Ok(v) => Imperfect::Success(v),
            Err(e) => Imperfect::Failure(e, L::zero()),
        }
    }
}

impl<T, E, L: Loss> FromSpecImpl<Result<T, E>> for Imperfect<T, E, L> {
    open spec fn obeys_from_spec() -> bool {
        false
    }

    open spec fn from_spec(r: Result<T, E>) -> Self {
        vstd::pervasive::arbitrary()
    }
}

impl<T, E, L: Loss> From<Imperfect<T, E, L>> for Result<T, E> {
    /// Success and Partial become `Ok` with their value; Failure becomes
    /// `Err`. The loss is dropped.
    fn from(i: Imperfect<T, E, L>) -> (r: Self)
        ensures
            r == extracted(i@),
    {
        match i {
            Imperfect::Success(v) => Ok(v),
            Imperfect::Partial(v, _) => Ok(v),
            Imperfect::Failure(e, _) => Err(e),
        }
    }
}

impl<T, E, L: Loss> FromSpecImpl<Imperfect<T, E, L>> for Result<T, E> {
    open spec fn obeys_from_spec() -> bool {
        true
    }

    open spec fn from_spec(i: Imperfect<T, E, L>) -> Self {
        extracted(i@)
    }
}

impl<T, L: Loss> From<Option<T>> for Imperfect<T, (), L> {
    /// `Some(v)` becomes `Success(v)`. `None` becomes `Failure((), zero)`:
    /// absence has no value and no error to report.
    fn from(o: Option<T>) -> (i: Self)
        ensures
            i@ == from_option::<T, L>(o),
    {
        match o {
            Some(v) => Imperfect::Success(v),
            None => Imperfect::Failure((), L::zero()),
        }
    }
}

impl<T, L: Loss> FromSpecImpl<Option<T>> for Imperfect<T, (), L> {
    open spec fn obeys_from_spec() -> bool {
        false
    }

    open spec fn from_spec(o: Option<T>) -> Self {
        vstd::pervasive::arbitrary()
    }
}

} // verus!
