//! The callable face of a pipeline.

use vstd::prelude::*;

verus! {

/// Something that is called with an `I` and gives an `O`: a fused pair of
/// stages, or a whole pipeline.
pub trait Middleware<I, O>: Send + Sync + 'static {
    /// Whether a call with `input` can be made.
    spec fn admits(&self, input: I) -> bool;

    /// Whether `output` is a value that a call with `input` may give.
    spec fn delivers(&self, input: I, output: O) -> bool;

    /// Performs the operation once on `input`.
    fn call(&self, input: I) -> (output: O)
        requires
            self.admits(input),
        ensures
            self.delivers(input, output),
    ;
}

} // verus!
