//! Views of values that hold other values.

use vstd::prelude::*;

verus! {

/// The views of a list of values, one for one and in the same order.
pub open spec fn views<T: View>(items: Seq<T>) -> Seq<T::V> {
    items.map_values(|item: T| item@)
}

/// The view of a value that may be absent.
pub open spec fn view_of<T: View>(item: Option<T>) -> Option<T::V> {
    match item {
        Some(value) => Some(value@),
        None => None,
    }
}

/// Whether a result is the expected one: the same error, or a value with
/// the expected view.
pub open spec fn agrees<T: View, E>(result: Result<T, E>, expected: Result<T::V, E>) -> bool {
    match result {
        Ok(value) => expected == Ok::<T::V, E>(value@),
        Err(e) => expected == Err::<T::V, E>(e),
    }
}

} // verus!
