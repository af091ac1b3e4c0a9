use crate::utils::error::{DmAssistantError, ErrorView};
use vstd::prelude::*;

verus! {

/// The views of the items of a list, in their order.
pub open spec fn views_of<T: View>(items: Seq<T>) -> Seq<T::V> {
    Seq::new(items.len(), |i: int| items[i]@)
}

/// The view of what an optional value holds.
pub open spec fn view_of_option<T: View>(value: Option<T>) -> Option<T::V> {
    match value {
        Some(v) => Some(v@),
        None => None,
    }
}

/// The view of an outcome: that of the value, or that of the error.
pub open spec fn view_of_result<T: View>(outcome: Result<T, DmAssistantError>) -> Result<
    T::V,
    ErrorView,
> {
    match outcome {
        Ok(v) => Ok(v@),
        Err(e) => Err(e@),
    }
}

/// The outcome of an operation that hands back no value.
pub open spec fn view_of_unit_result(outcome: Result<(), DmAssistantError>) -> Result<
    (),
    ErrorView,
> {
    match outcome {
        Ok(_) => Ok(()),
        Err(e) => Err(e@),
    }
}

} // verus!
