//! Results as mathematical values.

use vstd::prelude::*;

verus! {

/// The mathematical content of a result: that of its value, or that of its
/// error.
pub open spec fn outcome<T: View, E: View>(r: Result<T, E>) -> Result<T::V, E::V> {
    match r {
        Ok(value) => Ok(value@),
        Err(error) => Err(error@),
    }
}

} // verus!
