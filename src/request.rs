use vstd::prelude::*;

verus! {

/// A request body that has been decoded and has passed its validation rules.
#[derive(Debug, Clone, Copy, Default)]
pub struct ValidatedJson<T>(pub T);

} // verus!
