//! Mathematical values of what may be absent and of what may have failed.

use vstd::prelude::*;

verus! {

/// Mathematical value of an optional value.
pub open spec fn option_view<T: View>(value: Option<T>) -> Option<T::V> {
    match value {
        Some(v) => Some(v@),
        None => None,
    }
}

/// Mathematical value of a value or the error in its place.
pub open spec fn result_view<T: View, E: View>(value: Result<T, E>) -> Result<T::V, E::V> {
    match value {
        Ok(v) => Ok(v@),
        Err(e) => Err(e@),
    }
}

} // verus!
