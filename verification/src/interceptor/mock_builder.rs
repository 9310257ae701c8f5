//! A builder that builds by calling the closure it was made with.
use vstd::prelude::*;

verus! {

/// A builder for tests: building calls `build` with the identifier.
pub struct MockBuilder<F> {
    pub build: F,
}

impl<F> MockBuilder<F> {
    /// A builder that builds with `f`.
    pub fn new(f: F) -> (r: MockBuilder<F>)
        ensures
            r.build == f,
    {
        MockBuilder { build: f }
    }

    /// Builds for `id` by calling the closure; its result is this result.
    pub fn build<R>(&self, id: &str) -> (r: R) where F: Fn(&str) -> R
        requires
            self.build.requires((id,)),
        ensures
            self.build.ensures((id,), r),
    {
        (self.build)(id)
    }
}

} // verus!
