//! Request extractors.
use vstd::prelude::*;

verus! {

/// A form decoded from a query string.
pub struct QsForm<T>(pub T);

/// How deeply nested a decoded form may be.
pub const QS_FORM_MAX_DEPTH: usize = 5;

} // verus!
