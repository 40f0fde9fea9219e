//! What holds of every pipeline, whatever its stages.

use crate::chain::{
    chain2_accepts, chain2_yields, chain3_accepts, chain3_yields, lemma_chain3_stage_by_stage,
    lemma_fold2, lemma_fold3, Chain2, Chain3,
};
use crate::convert::convert;
use crate::from_input::{lemma_input2, lemma_input3};
use crate::from_source::{lemma_source2, lemma_source3};
use crate::middleware::Middleware;
use crate::pied::Pied;
use crate::piper::{assembled, Piper};
use crate::transform::{lemma_mapper_contract, lemma_producer_contract, Transform};
use vstd::prelude::*;

verus! {

/// A pipeline of a function `p` of no argument and a function `f` of one can
/// be called when `p` can and `f` can be called on whatever `p` may return;
/// what it gives is what `f` returns on what `p` returned.
pub proof fn law_producer_then_mapper<T, O, P, F>(
    p: P,
    f: F,
    pied: Pied<(T, O), (P, F), (), O, Chain2<(), (), T, O, P, F>>,
) where
    P: Send + Sync + 'static + Fn() -> T,
    F: Send + Sync + 'static + Fn(T) -> O,
    T: Send + Sync + 'static,
    O: Send + Sync + 'static,

    requires
        assembled((p, f), pied),
    ensures
        pied.admits(()) <==> (call_requires(p, ()) && forall|t: T| #[trigger]
            call_ensures(p, (), t) ==> call_requires(f, (t,))),
        forall|output: O| #[trigger]
            pied.delivers((), output) <==> (exists|t: T| #[trigger]
                call_ensures(p, (), t) && call_ensures(f, (t,), output)),
{
    lemma_source2((p, f));
    lemma_producer_contract(p);
    lemma_mapper_contract(f);
}

/// A pipeline of a function `p` of no argument and two functions `f` and `g`
/// of one gives what `g` returns on what `f` returned on what `p` returned.
pub proof fn law_producer_then_two_mappers<T, T2, O, P, F, G>(
    p: P,
    f: F,
    g: G,
    pied: Pied<(T, T2, O), (P, F, G), (), O, Chain3<(), (), T, T2, O, P, F, G>>,
) where
    P: Send + Sync + 'static + Fn() -> T,
    F: Send + Sync + 'static + Fn(T) -> T2,
    G: Send + Sync + 'static + Fn(T2) -> O,
    T: Send + Sync + 'static,
    T2: Send + Sync + 'static,
    O: Send + Sync + 'static,

    requires
        assembled((p, f, g), pied),
    ensures
        pied.admits(()) <==> {
            &&& call_requires(p, ())
            &&& forall|t: T| #[trigger] call_ensures(p, (), t) ==> call_requires(f, (t,))
            &&& forall|t: T, t2: T2|
                #![trigger call_ensures(p, (), t), call_ensures(f, (t,), t2)]
                call_ensures(p, (), t) && call_ensures(f, (t,), t2) ==> call_requires(g, (t2,))
        },
        forall|output: O| #[trigger]
            pied.delivers((), output) <==> (exists|t: T, t2: T2|
                #![trigger call_ensures(p, (), t), call_ensures(f, (t,), t2)]
                call_ensures(p, (), t) && call_ensures(f, (t,), t2) && call_ensures(
                    g,
                    (t2,),
                    output,
                )),
{
    lemma_source3((p, f, g));
    lemma_chain3_stage_by_stage(p, f, g, ());
    lemma_producer_contract(p);
    lemma_mapper_contract(f);
    lemma_mapper_contract(g);
}

/// How three stages are grouped when they are fused makes no difference to
/// what the whole accepts and yields: the first two fused and then the third,
/// or the first and then the other two fused.
pub proof fn law_grouping_is_irrelevant<K, I, T, T2, O, A, B, C>(a: A, b: B, c: C) where
    K: Send + Sync + 'static,
    I: Send + Sync + 'static,
    T: Send + Sync + 'static,
    T2: Send + Sync + 'static,
    O: Send + Sync + 'static,
    A: Transform<K, I, T>,
    B: Transform<(T, T2), T, T2>,
    C: Transform<(T2, O), T2, O>,

    ensures
        forall|input: I|
            convert(convert(a, b), c).accepts(input) <==> convert(a, convert(b, c)).accepts(input),
        forall|input: I, output: O|
            convert(convert(a, b), c).yields(input, output) <==> convert(
                a,
                convert(b, c),
            ).yields(input, output),
{
    let tail: Chain2<(T, T2), T, T2, O, B, C> = convert(b, c);
    let right: Chain2<K, I, T, O, A, Chain2<(T, T2), T, T2, O, B, C>> = convert(a, tail);
    lemma_fold3(a, b, c);
    lemma_fold2(b, c);
    lemma_fold2(a, tail);
    assert forall|input: I| chain3_accepts(a, b, c, input) <==> #[trigger] right.accepts(
        input,
    ) by {
        lemma_chain3_stage_by_stage(a, b, c, input);
    }
    assert forall|input: I, output: O| chain3_yields(a, b, c, input, output) implies #[trigger]
        right.yields(input, output) by {
        let (t, t2) = choose|t: T, t2: T2|
            #![trigger a.yields(input, t), b.yields(t, t2)]
            a.yields(input, t) && b.yields(t, t2) && c.yields(t2, output);
        assert(chain2_yields(b, c, t, output));
    }
    assert forall|input: I, output: O| #[trigger]
        right.yields(input, output) implies chain3_yields(a, b, c, input, output) by {
        let t = choose|t: T| #[trigger] a.yields(input, t) && tail.yields(t, output);
        let t2 = choose|t2: T2| #[trigger] b.yields(t, t2) && c.yields(t2, output);
        assert(a.yields(input, t) && b.yields(t, t2) && c.yields(t2, output));
    }
}

/// Two pipelines assembled from the same stages can be called on the same
/// inputs and may give the same outputs; where the stages leave one output
/// only, the two give equal outputs.
pub proof fn law_assembly_is_repeatable<T, Args, I, O, M, P>(
    stages: P,
    once: Pied<T, Args, I, O, M>,
    again: Pied<T, Args, I, O, M>,
) where
    T: Send + Sync + 'static,
    Args: Send + Sync + 'static,
    I: Send + Sync + 'static,
    O: Send + Sync + 'static,
    M: Middleware<I, O>,
    P: Piper<T, Args, I, O, M>,

    requires
        assembled(stages, once),
        assembled(stages, again),
    ensures
        forall|input: I| once.admits(input) <==> again.admits(input),
        forall|input: I, output: O| once.delivers(input, output) <==> again.delivers(input, output),
        (forall|input: I, o1: O, o2: O|
            stages.chain_yields(input, o1) && stages.chain_yields(input, o2) ==> o1 == o2)
            ==> (forall|input: I, o1: O, o2: O|
            once.delivers(input, o1) && again.delivers(input, o2) ==> o1 == o2),
{
}

/// A pipeline put as the first stage of another does what one pipeline of all
/// the stages does: the pipeline of `a` and `b`, followed by `c`, against the
/// pipeline of `a`, `b` and `c`.
pub proof fn law_nesting_is_transparent<T, T2, O, A, B, C>(
    a: A,
    b: B,
    c: C,
    inner: Pied<(T, T2), (A, B), (), T2, Chain2<(), (), T, T2, A, B>>,
    nested: Pied<
        ((), T2, O),
        (Pied<(T, T2), (A, B), (), T2, Chain2<(), (), T, T2, A, B>>, C),
        (),
        O,
        Chain2<
            ((), T2),
            (),
            T2,
            O,
            Pied<(T, T2), (A, B), (), T2, Chain2<(), (), T, T2, A, B>>,
            C,
        >,
    >,
    flat: Pied<(T, T2, O), (A, B, C), (), O, Chain3<(), (), T, T2, O, A, B, C>>,
) where
    A: Transform<(), (), T>,
    B: Transform<(T, T2), T, T2>,
    C: Transform<(T2, O), T2, O>,
    T: Send + Sync + 'static,
    T2: Send + Sync + 'static,
    O: Send + Sync + 'static,

    requires
        assembled((a, b), inner),
        assembled((inner, c), nested),
        assembled((a, b, c), flat),
    ensures
        nested.admits(()) <==> flat.admits(()),
        forall|output: O| nested.delivers((), output) <==> flat.delivers((), output),
{
    lemma_source2((a, b));
    lemma_input2((inner, c));
    lemma_source3((a, b, c));
    assert(nested.admits(()) <==> chain2_accepts(inner, c, ()));
    assert(flat.admits(()) <==> chain3_accepts(a, b, c, ()));
    assert forall|t2: T2|
        #![trigger inner.yields((), t2)]
        #![trigger chain2_yields(a, b, (), t2)]
        inner.yields((), t2) <==> chain2_yields(a, b, (), t2) by {
    }
    assert forall|output: O| #[trigger]
        nested.delivers((), output) implies flat.delivers((), output) by {
        let t2 = choose|t2: T2| #[trigger] inner.yields((), t2) && c.yields(t2, output);
        let t = choose|t: T| #[trigger] a.yields((), t) && b.yields(t, t2);
        assert(chain3_yields(a, b, c, (), output));
    }
    assert forall|output: O| #[trigger]
        flat.delivers((), output) implies nested.delivers((), output) by {
        let (t, t2) = choose|t: T, t2: T2|
            #![trigger a.yields((), t), b.yields(t, t2)]
            a.yields((), t) && b.yields(t, t2) && c.yields(t2, output);
        assert(chain2_yields(a, b, (), t2));
        assert(chain2_yields(inner, c, (), output));
    }
}

/// The same of pipelines that take an input: the pipeline of the mappers `a`
/// and `b`, followed by `c`, does what the pipeline of `a`, `b` and `c` does.
pub proof fn law_nesting_is_transparent_with_input<T, T2, T3, O, A, B, C>(
    a: A,
    b: B,
    c: C,
    inner: Pied<(T, T2, T3), (A, B), T, T3, Chain2<(T, T2), T, T2, T3, A, B>>,
    nested: Pied<
        (T, T3, O),
        (Pied<(T, T2, T3), (A, B), T, T3, Chain2<(T, T2), T, T2, T3, A, B>>, C),
        T,
        O,
        Chain2<
            (T, T3),
            T,
            T3,
            O,
            Pied<(T, T2, T3), (A, B), T, T3, Chain2<(T, T2), T, T2, T3, A, B>>,
            C,
        >,
    >,
    flat: Pied<(T, T2, T3, O), (A, B, C), T, O, Chain3<(T, T2), T, T2, T3, O, A, B, C>>,
) where
    A: Transform<(T, T2), T, T2>,
    B: Transform<(T2, T3), T2, T3>,
    C: Transform<(T3, O), T3, O>,
    T: Send + Sync + 'static,
    T2: Send + Sync + 'static,
    T3: Send + Sync + 'static,
    O: Send + Sync + 'static,

    requires
        assembled((a, b), inner),
        assembled((inner, c), nested),
        assembled((a, b, c), flat),
    ensures
        forall|input: T| nested.admits(input) <==> flat.admits(input),
        forall|input: T, output: O|
            nested.delivers(input, output) <==> flat.delivers(input, output),
{
    lemma_input2((a, b));
    lemma_input2((inner, c));
    lemma_input3((a, b, c));
    assert forall|input: T, t3: T3|
        #![trigger inner.yields(input, t3)]
        #![trigger chain2_yields(a, b, input, t3)]
        inner.yields(input, t3) <==> chain2_yields(a, b, input, t3) by {
    }
    assert forall|input: T| nested.admits(input) <==> flat.admits(input) by {
        assert(nested.admits(input) <==> chain2_accepts(inner, c, input));
        assert(flat.admits(input) <==> chain3_accepts(a, b, c, input));
    }
    assert forall|input: T, output: O| #[trigger]
        nested.delivers(input, output) implies flat.delivers(input, output) by {
        let t3 = choose|t3: T3| #[trigger] inner.yields(input, t3) && c.yields(t3, output);
        let t2 = choose|t2: T2| #[trigger] a.yields(input, t2) && b.yields(t2, t3);
        assert(chain3_yields(a, b, c, input, output));
    }
    assert forall|input: T, output: O| #[trigger]
        flat.delivers(input, output) implies nested.delivers(input, output) by {
        let (t2, t3) = choose|t2: T2, t3: T3|
            #![trigger a.yields(input, t2), b.yields(t2, t3)]
            a.yields(input, t2) && b.yields(t2, t3) && c.yields(t3, output);
        assert(chain2_yields(a, b, input, t3));
        assert(chain2_yields(inner, c, input, output));
    }
}

/// A fused pair cannot be run where its first stage cannot be run, nor where
/// the first stage may give something on which the second cannot be run; and
/// whatever the pair yields has come through both stages.
pub proof fn law_failure_stops_the_pair<K, I, T, O, A, B>(a: A, b: B, input: I) where
    K: Send + Sync + 'static,
    I: Send + Sync + 'static,
    T: Send + Sync + 'static,
    O: Send + Sync + 'static,
    A: Transform<K, I, T>,
    B: Transform<(T, O), T, O>,

    ensures
        !a.accepts(input) ==> !convert(a, b).accepts(input),
        forall|mid: T| #[trigger]
            a.yields(input, mid) && !b.accepts(mid) ==> !convert(a, b).accepts(input),
        forall|output: O| #[trigger]
            convert(a, b).yields(input, output) ==> exists|mid: T| #[trigger]
                a.yields(input, mid) && b.yields(mid, output),
        (forall|mid: T| !a.yields(input, mid)) ==> (forall|output: O|
            !convert(a, b).yields(input, output)),
{
    lemma_fold2(a, b);
}

/// A pipeline of three stages cannot be called where one of its stages cannot
/// be run on what reaches it, and whatever the pipeline gives has come through
/// all three stages in order.
pub proof fn law_failure_stops_the_pipeline<T, T2, O, A, B, C>(
    a: A,
    b: B,
    c: C,
    pied: Pied<(T, T2, O), (A, B, C), (), O, Chain3<(), (), T, T2, O, A, B, C>>,
) where
    A: Transform<(), (), T>,
    B: Transform<(T, T2), T, T2>,
    C: Transform<(T2, O), T2, O>,
    T: Send + Sync + 'static,
    T2: Send + Sync + 'static,
    O: Send + Sync + 'static,

    requires
        assembled((a, b, c), pied),
    ensures
        !a.accepts(()) ==> !pied.admits(()),
        forall|t: T| #[trigger] a.yields((), t) && !b.accepts(t) ==> !pied.admits(()),
        forall|t: T, t2: T2|
            #![trigger a.yields((), t), b.yields(t, t2)]
            a.yields((), t) && b.yields(t, t2) && !c.accepts(t2) ==> !pied.admits(()),
        forall|output: O| #[trigger]
            pied.delivers((), output) ==> exists|t: T, t2: T2|
                #![trigger a.yields((), t), b.yields(t, t2)]
                a.yields((), t) && b.yields(t, t2) && c.yields(t2, output),
{
    lemma_source3((a, b, c));
    lemma_chain3_stage_by_stage(a, b, c, ());
}

} // verus!
