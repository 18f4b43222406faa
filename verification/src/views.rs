//! What optional values and optional references hold, for use in contracts.
use vstd::prelude::*;

verus! {

/// The view of what an optional reference points at.
pub open spec fn spec_option_view<T: View>(value: Option<&T>) -> Option<T::V> {
    match value {
        Some(v) => Some(v@),
        None => None,
    }
}

/// The view of what an optional value holds.
pub open spec fn spec_owned_view<T: View>(value: Option<T>) -> Option<T::V> {
    match value {
        Some(v) => Some(v@),
        None => None,
    }
}

/// What an optional reference points at.
pub open spec fn spec_option_deref<T>(value: Option<&T>) -> Option<T> {
    match value {
        Some(v) => Some(*v),
        None => None,
    }
}

} // verus!
