//! Pipelines that start with a producer: nothing goes in, and the value is
//! handed from stage to stage.

use crate::chain::{
    chain2_accepts, chain2_yields, chain3_accepts, chain3_yields, chain4_accepts, chain4_yields,
    chain5_accepts, chain5_yields, lemma_fold2, lemma_fold3, lemma_fold4, lemma_fold5, Chain2,
    Chain3, Chain4, Chain5,
};
use crate::convert::convert;
use crate::pied::Pied;
use crate::piper::Piper;
use crate::transform::Transform;
use vstd::prelude::*;

verus! {

/// A producer and a mapper: nothing in, `O` out.
impl<T, O, A, B> Piper<(T, O), (A, B), (), O, Chain2<(), (), T, O, A, B>> for (A, B) where
    A: Transform<(), (), T>,
    B: Transform<(T, O), T, O>,
    T: Send + Sync + 'static,
    O: Send + Sync + 'static,
 {
    open spec fn chain_accepts(&self, input: ()) -> bool {
        chain2_accepts(self.0, self.1, input)
    }

    open spec fn chain_yields(&self, input: (), output: O) -> bool {
        chain2_yields(self.0, self.1, input, output)
    }

    fn pipe(self) -> (pied: Pied<(T, O), (A, B), (), O, Chain2<(), (), T, O, A, B>>)
        ensures
            pied.middleware() == convert(self.0, self.1),
    {
        let args = self;
        proof {
            lemma_fold2(args.0, args.1);
        }
        Pied::new(convert(args.0, args.1))
    }
}

/// The chain of a producer and a mapper is the chain of its two stages. Where
/// the stages are known functions, Verus does not unfold this by itself: call
/// the lemma there.
pub proof fn lemma_source2<T, O, A, B>(stages: (A, B)) where
    A: Transform<(), (), T>,
    B: Transform<(T, O), T, O>,
    T: Send + Sync + 'static,
    O: Send + Sync + 'static,

    ensures
        forall|input: ()| #[trigger]
            stages.chain_accepts(input) <==> chain2_accepts(stages.0, stages.1, input),
        forall|input: (), output: O| #[trigger]
            stages.chain_yields(input, output) <==> chain2_yields(
                stages.0,
                stages.1,
                input,
                output,
            ),
{
}

/// A producer and two mappers: nothing in, `O` out.
impl<T, T2, O, A, B, C> Piper<
    (T, T2, O),
    (A, B, C),
    (),
    O,
    Chain3<(), (), T, T2, O, A, B, C>,
> for (A, B, C) where
    A: Transform<(), (), T>,
    B: Transform<(T, T2), T, T2>,
    C: Transform<(T2, O), T2, O>,
    T: Send + Sync + 'static,
    T2: Send + Sync + 'static,
    O: Send + Sync + 'static,
 {
    open spec fn chain_accepts(&self, input: ()) -> bool {
        chain3_accepts(self.0, self.1, self.2, input)
    }

    open spec fn chain_yields(&self, input: (), output: O) -> bool {
        chain3_yields(self.0, self.1, self.2, input, output)
    }

    fn pipe(self) -> (pied: Pied<(T, T2, O), (A, B, C), (), O, Chain3<(), (), T, T2, O, A, B, C>>)
        ensures
            pied.middleware() == convert(convert(self.0, self.1), self.2),
    {
        let args = self;
        proof {
            lemma_fold3(args.0, args.1, args.2);
        }
        Pied::new(convert(convert(args.0, args.1), args.2))
    }
}

/// The chain of a producer and two mappers is the chain of its three stages.
/// Where the stages are known functions, Verus does not unfold this by itself:
/// call the lemma there.
pub proof fn lemma_source3<T, T2, O, A, B, C>(stages: (A, B, C)) where
    A: Transform<(), (), T>,
    B: Transform<(T, T2), T, T2>,
    C: Transform<(T2, O), T2, O>,
    T: Send + Sync + 'static,
    T2: Send + Sync + 'static,
    O: Send + Sync + 'static,

    ensures
        forall|input: ()| #[trigger]
            stages.chain_accepts(input) <==> chain3_accepts(stages.0, stages.1, stages.2, input),
        forall|input: (), output: O| #[trigger]
            stages.chain_yields(input, output) <==> chain3_yields(
                stages.0,
                stages.1,
                stages.2,
                input,
                output,
            ),
{
}

/// A producer and three mappers: nothing in, `O` out.
impl<T, T2, T3, O, A, B, C, D> Piper<
    (T, T2, T3, O),
    (A, B, C, D),
    (),
    O,
    Chain4<(), (), T, T2, T3, O, A, B, C, D>,
> for (A, B, C, D) where
    A: Transform<(), (), T>,
    B: Transform<(T, T2), T, T2>,
    C: Transform<(T2, T3), T2, T3>,
    D: Transform<(T3, O), T3, O>,
    T: Send + Sync + 'static,
    T2: Send + Sync + 'static,
    T3: Send + Sync + 'static,
    O: Send + Sync + 'static,
 {
    open spec fn chain_accepts(&self, input: ()) -> bool {
        chain4_accepts(self.0, self.1, self.2, self.3, input)
    }

    open spec fn chain_yields(&self, input: (), output: O) -> bool {
        chain4_yields(self.0, self.1, self.2, self.3, input, output)
    }

    fn pipe(self) -> (pied: Pied<
        (T, T2, T3, O),
        (A, B, C, D),
        (),
        O,
        Chain4<(), (), T, T2, T3, O, A, B, C, D>,
    >)
        ensures
            pied.middleware() == convert(convert(convert(self.0, self.1), self.2), self.3),
    {
        let args = self;
        proof {
            lemma_fold4(args.0, args.1, args.2, args.3);
        }
        Pied::new(convert(convert(convert(args.0, args.1), args.2), args.3))
    }
}

/// The chain of a producer and three mappers is the chain of its four stages.
/// Where the stages are known functions, Verus does not unfold this by itself:
/// call the lemma there.
pub proof fn lemma_source4<T, T2, T3, O, A, B, C, D>(stages: (A, B, C, D)) where
    A: Transform<(), (), T>,
    B: Transform<(T, T2), T, T2>,
    C: Transform<(T2, T3), T2, T3>,
    D: Transform<(T3, O), T3, O>,
    T: Send + Sync + 'static,
    T2: Send + Sync + 'static,
    T3: Send + Sync + 'static,
    O: Send + Sync + 'static,

    ensures
        forall|input: ()| #[trigger]
            stages.chain_accepts(input) <==> chain4_accepts(
                stages.0,
                stages.1,
                stages.2,
                stages.3,
                input,
            ),
        forall|input: (), output: O| #[trigger]
            stages.chain_yields(input, output) <==> chain4_yields(
                stages.0,
                stages.1,
                stages.2,
                stages.3,
                input,
                output,
            ),
{
}

/// A producer and four mappers: nothing in, `O` out.
impl<T, T2, T3, T4, O, A, B, C, D, E> Piper<
    (T, T2, T3, T4, O),
    (A, B, C, D, E),
    (),
    O,
    Chain5<(), (), T, T2, T3, T4, O, A, B, C, D, E>,
> for (A, B, C, D, E) where
    A: Transform<(), (), T>,
    B: Transform<(T, T2), T, T2>,
    C: Transform<(T2, T3), T2, T3>,
    D: Transform<(T3, T4), T3, T4>,
    E: Transform<(T4, O), T4, O>,
    T: Send + Sync + 'static,
    T2: Send + Sync + 'static,
    T3: Send + Sync + 'static,
    T4: Send + Sync + 'static,
    O: Send + Sync + 'static,
 {
    open spec fn chain_accepts(&self, input: ()) -> bool {
        chain5_accepts(self.0, self.1, self.2, self.3, self.4, input)
    }

    open spec fn chain_yields(&self, input: (), output: O) -> bool {
        chain5_yields(self.0, self.1, self.2, self.3, self.4, input, output)
    }

    fn pipe(self) -> (pied: Pied<
        (T, T2, T3, T4, O),
        (A, B, C, D, E),
        (),
        O,
        Chain5<(), (), T, T2, T3, T4, O, A, B, C, D, E>,
    >)
        ensures
            pied.middleware() == convert(
                convert(convert(convert(self.0, self.1), self.2), self.3),
                self.4,
            ),
    {
        let args = self;
        proof {
            lemma_fold5(args.0, args.1, args.2, args.3, args.4);
        }
        Pied::new(convert(convert(convert(convert(args.0, args.1), args.2), args.3), args.4))
    }
}

/// The chain of a producer and four mappers is the chain of its five stages.
/// Where the stages are known functions, Verus does not unfold this by itself:
/// call the lemma there.
pub proof fn lemma_source5<T, T2, T3, T4, O, A, B, C, D, E>(stages: (A, B, C, D, E)) where
    A: Transform<(), (), T>,
    B: Transform<(T, T2), T, T2>,
    C: Transform<(T2, T3), T2, T3>,
    D: Transform<(T3, T4), T3, T4>,
    E: Transform<(T4, O), T4, O>,
    T: Send + Sync + 'static,
    T2: Send + Sync + 'static,
    T3: Send + Sync + 'static,
    T4: Send + Sync + 'static,
    O: Send + Sync + 'static,

    ensures
        forall|input: ()| #[trigger]
            stages.chain_accepts(input) <==> chain5_accepts(
                stages.0,
                stages.1,
                stages.2,
                stages.3,
                stages.4,
                input,
            ),
        forall|input: (), output: O| #[trigger]
            stages.chain_yields(input, output) <==> chain5_yields(
                stages.0,
                stages.1,
                stages.2,
                stages.3,
                stages.4,
                input,
                output,
            ),
{
}

} // verus!
