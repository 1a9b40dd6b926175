//! Small conversions of results.

use vstd::prelude::*;
use vstd::std_specs::convert::IntoSpec;

verus! {

/// Converts the error of a result.
pub trait ResultCExt<T, E2>: Sized {
    fn err_into(self) -> Result<T, E2>;
}

impl<T, E1: Into<E2>, E2> ResultCExt<T, E2> for Result<T, E1> {
    /// Keeps a value and converts an error with `Into`.
    fn err_into(self) -> (r: Result<T, E2>)
        ensures
            match self {
                Ok(v) => r == Ok::<T, E2>(v),
                Err(e) => r is Err && (<E1 as IntoSpec<E2>>::obeys_into_spec() ==> r == Err::<T, E2>(e.into_spec())),
            },
    {
        match self {
            Ok(v) => Ok(v),
            Err(e) => Err(e.into()),
        }
    }
}

} // verus!
