//! The stage: one function from an input to an output, with its contract.

use vstd::prelude::*;

verus! {

/// A stage of a pipeline: it takes a `T` and gives an `O`.
///
/// `Args` only tells the kinds of stage apart: `()` marks a producer, which
/// takes no input, and `(T, O)` a mapper from `T` to `O`.
pub trait Transform<Args, T, O>: Send + Sync + 'static {
    /// Whether the stage can be run on `input`.
    spec fn accepts(&self, input: T) -> bool;

    /// Whether `output` is a value that a run on `input` may give.
    spec fn yields(&self, input: T, output: O) -> bool;

    /// Runs the stage once on `input`.
    fn transform(&self, input: T) -> (output: O)
        requires
            self.accepts(input),
        ensures
            self.yields(input, output),
    ;
}

/// A function of no argument is a producer: its contract is the stage's.
impl<Func, O> Transform<(), (), O> for Func where
    Func: Send + Sync + 'static + Fn() -> O,
    O: Send + Sync + 'static,
 {
    open spec fn accepts(&self, input: ()) -> bool {
        call_requires(*self, ())
    }

    open spec fn yields(&self, input: (), output: O) -> bool {
        call_ensures(*self, (), output)
    }

    fn transform(&self, _input: ()) -> (output: O) {
        (self)()
    }
}

/// A function of one argument is a mapper: its contract is the stage's.
impl<Func, T, O> Transform<(T, O), T, O> for Func where
    Func: Send + Sync + 'static + Fn(T) -> O,
    T: Send + Sync + 'static,
    O: Send + Sync + 'static,
 {
    open spec fn accepts(&self, input: T) -> bool {
        call_requires(*self, (input,))
    }

    open spec fn yields(&self, input: T, output: O) -> bool {
        call_ensures(*self, (input,), output)
    }

    fn transform(&self, input: T) -> (output: O) {
        (self)(input)
    }
}

/// As a stage, a function of no argument accepts and yields what its own
/// contract says. Where the function is a known item or closure, Verus does
/// not unfold this by itself: call the lemma there.
pub proof fn lemma_producer_contract<Func, O>(f: Func) where
    Func: Send + Sync + 'static + Fn() -> O,
    O: Send + Sync + 'static,

    ensures
        f.accepts(()) <==> call_requires(f, ()),
        forall|output: O|
            #![trigger f.yields((), output)]
            #![trigger call_ensures(f, (), output)]
            f.yields((), output) <==> call_ensures(f, (), output),
{
}

/// As a stage, a function of one argument accepts and yields what its own
/// contract says. Where the function is a known item or closure, Verus does
/// not unfold this by itself: call the lemma there.
pub proof fn lemma_mapper_contract<Func, T, O>(f: Func) where
    Func: Send + Sync + 'static + Fn(T) -> O,
    T: Send + Sync + 'static,
    O: Send + Sync + 'static,

    ensures
        forall|input: T|
            #![trigger f.accepts(input)]
            #![trigger call_requires(f, (input,))]
            f.accepts(input) <==> call_requires(f, (input,)),
        forall|input: T, output: O|
            #![trigger f.yields(input, output)]
            #![trigger call_ensures(f, (input,), output)]
            f.yields(input, output) <==> call_ensures(f, (input,), output),
{
}

} // verus!
