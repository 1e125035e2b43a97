//! The mathematical values of optional results and of outcomes.

use vstd::prelude::*;

verus! {

/// The view of what an `Option` holds.
pub open spec fn option_view<T: View>(value: Option<T>) -> Option<T::V> {
    match value {
        Some(v) => Some(v@),
        None => None,
    }
}

/// The view of what a `Result` holds on success; its error as it is.
pub open spec fn ok_view<T: View, E>(outcome: Result<T, E>) -> Result<T::V, E> {
    match outcome {
        Ok(v) => Ok(v@),
        Err(e) => Err(e),
    }
}

/// The view of what a `Result` holds, on either side.
pub open spec fn result_view<T: View, E: View>(outcome: Result<T, E>) -> Result<T::V, E::V> {
    match outcome {
        Ok(v) => Ok(v@),
        Err(e) => Err(e@),
    }
}

/// The view of an outcome that holds nothing on success.
pub open spec fn unit_view<E: View>(outcome: Result<(), E>) -> Result<(), E::V> {
    match outcome {
        Ok(_) => Ok(()),
        Err(e) => Err(e@),
    }
}

/// The failure that an outcome holds, if it holds one.
pub open spec fn failure_of<T, E: View>(outcome: Result<T, E>) -> Option<E::V> {
    match outcome {
        Ok(_) => None,
        Err(e) => Some(e@),
    }
}

/// The error that an outcome holds, if it holds one.
pub open spec fn error_of<T, E>(outcome: Result<T, E>) -> Option<E> {
    match outcome {
        Ok(_) => None,
        Err(e) => Some(e),
    }
}

/// The view of an optional text.
pub open spec fn text_view(value: Option<&str>) -> Option<Seq<char>> {
    match value {
        Some(s) => Some(s@),
        None => None,
    }
}

} // verus!
