//! The pipeline: a chain of fused stages behind one callable.

use crate::middleware::Middleware;
use crate::transform::Transform;
use std::marker::PhantomData;
use vstd::prelude::*;

verus! {

/// A pipeline from `I` to `O`. `M` is the fused chain that it runs, `T` the
/// tuple of the types that pass between the stages and `Args` the tuple of
/// the stages that it was made of.
pub struct Pied<T, Args, I, O, M> {
    middleware: M,
    _phantom: PhantomData<T>,
    _phantom2: PhantomData<Args>,
    _phantom3: PhantomData<(I, O)>,
}

impl<T, Args, I, O, M> Pied<T, Args, I, O, M> {
    /// The fused chain that the pipeline runs.
    pub closed spec fn middleware(&self) -> M {
        self.middleware
    }

    /// The pipeline that runs `middleware`.
    pub(crate) fn new(middleware: M) -> (pied: Self)
        ensures
            pied.middleware() == middleware,
    {
        Pied {
            middleware,
            _phantom: PhantomData::default(),
            _phantom2: PhantomData::default(),
            _phantom3: PhantomData::default(),
        }
    }
}

/// A call of the pipeline is a call of its chain.
impl<T, Args, I, O, M> Middleware<I, O> for Pied<T, Args, I, O, M> where
    T: Send + Sync + 'static,
    Args: Send + Sync + 'static,
    I: Send + Sync + 'static,
    O: Send + Sync + 'static,
    M: Middleware<I, O>,
 {
    open spec fn admits(&self, input: I) -> bool {
        self.middleware().admits(input)
    }

    open spec fn delivers(&self, input: I, output: O) -> bool {
        self.middleware().delivers(input, output)
    }

    fn call(&self, input: I) -> (output: O) {
        self.middleware.call(input)
    }
}

/// A pipeline is a stage again: a mapper from `I` to `O` that calls its chain.
impl<T, Args, I, O, M> Transform<(I, O), I, O> for Pied<T, Args, I, O, M> where
    T: Send + Sync + 'static,
    Args: Send + Sync + 'static,
    I: Send + Sync + 'static,
    O: Send + Sync + 'static,
    M: Middleware<I, O>,
 {
    open spec fn accepts(&self, input: I) -> bool {
        self.middleware().admits(input)
    }

    open spec fn yields(&self, input: I, output: O) -> bool {
        self.middleware().delivers(input, output)
    }

    fn transform(&self, input: I) -> (output: O) {
        self.middleware.call(input)
    }
}

} // verus!
