//! Assembly: a tuple of stages becomes a pipeline.

use crate::middleware::Middleware;
use crate::pied::Pied;
use crate::transform::Transform;
use vstd::prelude::*;

verus! {

/// A tuple of stages that can be assembled into a pipeline from `I` to `O`.
///
/// `T` is the tuple of the types that pass between the stages, the output
/// type last; `Args` is the tuple type itself; `M` is the chain that the
/// stages are fused into.
pub trait Piper<T, Args, I, O, M>: Sized where
    T: Send + Sync + 'static,
    Args: Send + Sync + 'static,
    I: Send + Sync + 'static,
    O: Send + Sync + 'static,
    M: Middleware<I, O>,
 {
    /// Whether each stage in turn accepts what reaches it when the first is
    /// given `input`.
    spec fn chain_accepts(&self, input: I) -> bool;

    /// Whether `output` may come out of the last stage when the first is given
    /// `input` and each stage is given what the one before it gave.
    spec fn chain_yields(&self, input: I, output: O) -> bool;

    /// Folds the stages from the left into one pipeline.
    fn pipe(self) -> (pied: Pied<T, Args, I, O, M>)
        ensures
            forall|input: I| #[trigger] pied.admits(input) <==> self.chain_accepts(input),
            forall|input: I, output: O| #[trigger]
                pied.delivers(input, output) <==> self.chain_yields(input, output),
            forall|input: I| #[trigger] pied.accepts(input) <==> self.chain_accepts(input),
            forall|input: I, output: O| #[trigger]
                pied.yields(input, output) <==> self.chain_yields(input, output),
    ;
}

/// Whether `pied` does what the stages of `stages` do one after the other,
/// called as a pipeline and run as a stage.
pub open spec fn assembled<T, Args, I, O, M, P>(
    stages: P,
    pied: Pied<T, Args, I, O, M>,
) -> bool where
    T: Send + Sync + 'static,
    Args: Send + Sync + 'static,
    I: Send + Sync + 'static,
    O: Send + Sync + 'static,
    M: Middleware<I, O>,
    P: Piper<T, Args, I, O, M>,
 {
    &&& forall|input: I| #[trigger] pied.admits(input) <==> stages.chain_accepts(input)
    &&& forall|input: I, output: O| #[trigger]
        pied.delivers(input, output) <==> stages.chain_yields(input, output)
    &&& forall|input: I| #[trigger] pied.accepts(input) <==> stages.chain_accepts(input)
    &&& forall|input: I, output: O| #[trigger]
        pied.yields(input, output) <==> stages.chain_yields(input, output)
}

/// Assembles the stages of `f` into a pipeline: what `f.pipe()` gives, which
/// does what the stages do one after the other.
pub fn pipe<T, Args, I, O, M, P>(f: P) -> (pied: Pied<T, Args, I, O, M>) where
    T: Send + Sync + 'static,
    Args: Send + Sync + 'static,
    I: Send + Sync + 'static,
    O: Send + Sync + 'static,
    M: Middleware<I, O>,
    P: Piper<T, Args, I, O, M>,

    ensures
        assembled(f, pied),
        call_ensures(P::pipe, (f,), pied),
{
    f.pipe()
}

} // verus!
