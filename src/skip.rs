//! The skip predicate shared by every field and query type.
use vstd::prelude::*;

verus! {

/// Answers whether a value is to be left out of the wire form.
pub trait ShouldSkip {
    /// Whether the value is left out.
    spec fn skips(&self) -> bool;

    fn should_skip(&self) -> (r: bool)
        ensures
            r == self.skips(),
    ;
}

/// An optional attribute slot is left out exactly when it is unset.
impl<T> ShouldSkip for Option<T> {
    open spec fn skips(&self) -> bool {
        self is None
    }

    fn should_skip(&self) -> (r: bool) {
        self.is_none()
    }
}

} // verus!
