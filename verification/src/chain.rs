//! What a chain of stages does when they run one after the other, and the
//! proof that folding them from the left through [`convert`] does just that.
//!
//! In every function here `a` is the first stage and may be of either kind,
//! `K`; the stages after it are mappers.

use crate::convert::{convert, lemma_fused, ConvertMiddleware};
use crate::transform::Transform;
use vstd::prelude::*;

verus! {

/// Two stages fused. `K` is the kind of the first stage: `()` for a producer,
/// `(I, T)` for a mapper.
pub type Chain2<K, I, T, O, A, B> = ConvertMiddleware<K, (T, O), I, T, O, A, B>;

/// Three stages folded from the left: the first two fused, then the last.
pub type Chain3<K, I, T, T2, O, A, B, C> = ConvertMiddleware<
    (I, T2),
    (T2, O),
    I,
    T2,
    O,
    Chain2<K, I, T, T2, A, B>,
    C,
>;

/// Four stages folded from the left: the first three fused, then the last.
pub type Chain4<K, I, T, T2, T3, O, A, B, C, D> = ConvertMiddleware<
    (I, T3),
    (T3, O),
    I,
    T3,
    O,
    Chain3<K, I, T, T2, T3, A, B, C>,
    D,
>;

/// Five stages folded from the left: the first four fused, then the last.
pub type Chain5<K, I, T, T2, T3, T4, O, A, B, C, D, E> = ConvertMiddleware<
    (I, T4),
    (T4, O),
    I,
    T4,
    O,
    Chain4<K, I, T, T2, T3, T4, A, B, C, D>,
    E,
>;

/// Whether `a` accepts `input` and `b` accepts whatever `a` may give on it.
pub open spec fn chain2_accepts<K, I, T, O, A, B>(a: A, b: B, input: I) -> bool where
    A: Transform<K, I, T>,
    B: Transform<(T, O), T, O>,
 {
    &&& a.accepts(input)
    &&& forall|t: T| #[trigger] a.yields(input, t) ==> b.accepts(t)
}

/// Whether `output` may come out of `b` run on what `a` gave on `input`.
pub open spec fn chain2_yields<K, I, T, O, A, B>(a: A, b: B, input: I, output: O) -> bool where
    A: Transform<K, I, T>,
    B: Transform<(T, O), T, O>,
 {
    exists|t: T| #[trigger] a.yields(input, t) && b.yields(t, output)
}

/// Whether each of the three stages accepts whatever may reach it when `a` is
/// given `input`: the first two do, and `c` accepts whatever they may give.
pub open spec fn chain3_accepts<K, I, T, T2, O, A, B, C>(a: A, b: B, c: C, input: I) -> bool where
    A: Transform<K, I, T>,
    B: Transform<(T, T2), T, T2>,
    C: Transform<(T2, O), T2, O>,
 {
    &&& chain2_accepts(a, b, input)
    &&& forall|t2: T2| #[trigger] chain2_yields(a, b, input, t2) ==> c.accepts(t2)
}

/// Whether `output` may come out of `c` when `a` is run on `input` and each
/// later stage on what the one before it gave.
pub open spec fn chain3_yields<K, I, T, T2, O, A, B, C>(
    a: A,
    b: B,
    c: C,
    input: I,
    output: O,
) -> bool where
    A: Transform<K, I, T>,
    B: Transform<(T, T2), T, T2>,
    C: Transform<(T2, O), T2, O>,
 {
    exists|t: T, t2: T2|
        #![trigger a.yields(input, t), b.yields(t, t2)]
        a.yields(input, t) && b.yields(t, t2) && c.yields(t2, output)
}

/// Whether each of the four stages accepts whatever may reach it when `a` is
/// given `input`: the first three do, and `d` accepts whatever they may give.
pub open spec fn chain4_accepts<K, I, T, T2, T3, O, A, B, C, D>(
    a: A,
    b: B,
    c: C,
    d: D,
    input: I,
) -> bool where
    A: Transform<K, I, T>,
    B: Transform<(T, T2), T, T2>,
    C: Transform<(T2, T3), T2, T3>,
    D: Transform<(T3, O), T3, O>,
 {
    &&& chain3_accepts(a, b, c, input)
    &&& forall|t3: T3| #[trigger] chain3_yields(a, b, c, input, t3) ==> d.accepts(t3)
}

/// Whether `output` may come out of `d` when `a` is run on `input` and each
/// later stage on what the one before it gave.
pub open spec fn chain4_yields<K, I, T, T2, T3, O, A, B, C, D>(
    a: A,
    b: B,
    c: C,
    d: D,
    input: I,
    output: O,
) -> bool where
    A: Transform<K, I, T>,
    B: Transform<(T, T2), T, T2>,
    C: Transform<(T2, T3), T2, T3>,
    D: Transform<(T3, O), T3, O>,
 {
    exists|t: T, t2: T2, t3: T3|
        #![trigger a.yields(input, t), b.yields(t, t2), c.yields(t2, t3)]
        a.yields(input, t) && b.yields(t, t2) && c.yields(t2, t3) && d.yields(t3, output)
}

/// Whether each of the five stages accepts whatever may reach it when `a` is
/// given `input`: the first four do, and `e` accepts whatever they may give.
pub open spec fn chain5_accepts<K, I, T, T2, T3, T4, O, A, B, C, D, E>(
    a: A,
    b: B,
    c: C,
    d: D,
    e: E,
    input: I,
) -> bool where
    A: Transform<K, I, T>,
    B: Transform<(T, T2), T, T2>,
    C: Transform<(T2, T3), T2, T3>,
    D: Transform<(T3, T4), T3, T4>,
    E: Transform<(T4, O), T4, O>,
 {
    &&& chain4_accepts(a, b, c, d, input)
    &&& forall|t4: T4| #[trigger] chain4_yields(a, b, c, d, input, t4) ==> e.accepts(t4)
}

/// Whether `output` may come out of `e` when `a` is run on `input` and each
/// later stage on what the one before it gave.
pub open spec fn chain5_yields<K, I, T, T2, T3, T4, O, A, B, C, D, E>(
    a: A,
    b: B,
    c: C,
    d: D,
    e: E,
    input: I,
    output: O,
) -> bool where
    A: Transform<K, I, T>,
    B: Transform<(T, T2), T, T2>,
    C: Transform<(T2, T3), T2, T3>,
    D: Transform<(T3, T4), T3, T4>,
    E: Transform<(T4, O), T4, O>,
 {
    exists|t: T, t2: T2, t3: T3, t4: T4|
        #![trigger a.yields(input, t), b.yields(t, t2), c.yields(t2, t3), d.yields(t3, t4)]
        a.yields(input, t) && b.yields(t, t2) && c.yields(t2, t3) && d.yields(t3, t4) && e.yields(
            t4,
            output,
        )
}

/// A fused pair does what its two stages do one after the other.
pub proof fn lemma_fold2<K, I, T, O, A, B>(a: A, b: B) where
    K: Send + Sync + 'static,
    I: Send + Sync + 'static,
    T: Send + Sync + 'static,
    O: Send + Sync + 'static,
    A: Transform<K, I, T>,
    B: Transform<(T, O), T, O>,

    ensures
        forall|input: I|
            #![trigger convert(a, b).accepts(input)]
            #![trigger chain2_accepts(a, b, input)]
            convert(a, b).accepts(input) <==> chain2_accepts(a, b, input),
        forall|input: I, output: O|
            #![trigger convert(a, b).yields(input, output)]
            #![trigger chain2_yields(a, b, input, output)]
            convert(a, b).yields(input, output) <==> chain2_yields(a, b, input, output),
{
    lemma_fused::<K, (T, O), I, T, O, A, B>(a, b);
}

/// Three stages folded from the left do what the three do one after the
/// other.
pub proof fn lemma_fold3<K, I, T, T2, O, A, B, C>(a: A, b: B, c: C) where
    K: Send + Sync + 'static,
    I: Send + Sync + 'static,
    T: Send + Sync + 'static,
    T2: Send + Sync + 'static,
    O: Send + Sync + 'static,
    A: Transform<K, I, T>,
    B: Transform<(T, T2), T, T2>,
    C: Transform<(T2, O), T2, O>,

    ensures
        forall|input: I|
            #![trigger convert(convert(a, b), c).accepts(input)]
            #![trigger chain3_accepts(a, b, c, input)]
            convert(convert(a, b), c).accepts(input) <==> chain3_accepts(a, b, c, input),
        forall|input: I, output: O|
            #![trigger convert(convert(a, b), c).yields(input, output)]
            #![trigger chain3_yields(a, b, c, input, output)]
            convert(convert(a, b), c).yields(input, output) <==> chain3_yields(
                a,
                b,
                c,
                input,
                output,
            ),
{
    let head: Chain2<K, I, T, T2, A, B> = convert(a, b);
    let whole: Chain3<K, I, T, T2, O, A, B, C> = convert(head, c);
    lemma_fold2(a, b);
    lemma_fused::<(I, T2), (T2, O), I, T2, O, Chain2<K, I, T, T2, A, B>, C>(head, c);
    assert forall|input: I, output: O| #[trigger]
        whole.yields(input, output) implies chain3_yields(a, b, c, input, output) by {
        let t2 = choose|t2: T2| #[trigger] head.yields(input, t2) && c.yields(t2, output);
        let t = choose|t: T| #[trigger] a.yields(input, t) && b.yields(t, t2);
        assert(a.yields(input, t) && b.yields(t, t2) && c.yields(t2, output));
    }
    assert forall|input: I, output: O| #[trigger]
        chain3_yields(a, b, c, input, output) implies whole.yields(input, output) by {
        let (t, t2) = choose|t: T, t2: T2|
            #![trigger a.yields(input, t), b.yields(t, t2)]
            a.yields(input, t) && b.yields(t, t2) && c.yields(t2, output);
        assert(head.yields(input, t2));
    }
}

/// Four stages folded from the left do what the four do one after the other.
pub proof fn lemma_fold4<K, I, T, T2, T3, O, A, B, C, D>(a: A, b: B, c: C, d: D) where
    K: Send + Sync + 'static,
    I: Send + Sync + 'static,
    T: Send + Sync + 'static,
    T2: Send + Sync + 'static,
    T3: Send + Sync + 'static,
    O: Send + Sync + 'static,
    A: Transform<K, I, T>,
    B: Transform<(T, T2), T, T2>,
    C: Transform<(T2, T3), T2, T3>,
    D: Transform<(T3, O), T3, O>,

    ensures
        forall|input: I|
            #![trigger convert(convert(convert(a, b), c), d).accepts(input)]
            #![trigger chain4_accepts(a, b, c, d, input)]
            convert(convert(convert(a, b), c), d).accepts(input) <==> chain4_accepts(
                a,
                b,
                c,
                d,
                input,
            ),
        forall|input: I, output: O|
            #![trigger convert(convert(convert(a, b), c), d).yields(input, output)]
            #![trigger chain4_yields(a, b, c, d, input, output)]
            convert(convert(convert(a, b), c), d).yields(input, output) <==> chain4_yields(
                a,
                b,
                c,
                d,
                input,
                output,
            ),
{
    let head: Chain3<K, I, T, T2, T3, A, B, C> = convert(convert(a, b), c);
    let whole: Chain4<K, I, T, T2, T3, O, A, B, C, D> = convert(head, d);
    lemma_fold3(a, b, c);
    lemma_fused::<(I, T3), (T3, O), I, T3, O, Chain3<K, I, T, T2, T3, A, B, C>, D>(head, d);
    assert forall|input: I, output: O| #[trigger]
        whole.yields(input, output) implies chain4_yields(a, b, c, d, input, output) by {
        let t3 = choose|t3: T3| #[trigger] head.yields(input, t3) && d.yields(t3, output);
        let (t, t2) = choose|t: T, t2: T2|
            #![trigger a.yields(input, t), b.yields(t, t2)]
            a.yields(input, t) && b.yields(t, t2) && c.yields(t2, t3);
        assert(a.yields(input, t) && b.yields(t, t2) && c.yields(t2, t3) && d.yields(t3, output));
    }
    assert forall|input: I, output: O| #[trigger]
        chain4_yields(a, b, c, d, input, output) implies whole.yields(input, output) by {
        let (t, t2, t3) = choose|t: T, t2: T2, t3: T3|
            #![trigger a.yields(input, t), b.yields(t, t2), c.yields(t2, t3)]
            a.yields(input, t) && b.yields(t, t2) && c.yields(t2, t3) && d.yields(t3, output);
        assert(head.yields(input, t3));
    }
}

/// Five stages folded from the left do what the five do one after the other.
pub proof fn lemma_fold5<K, I, T, T2, T3, T4, O, A, B, C, D, E>(a: A, b: B, c: C, d: D, e: E) where
    K: Send + Sync + 'static,
    I: Send + Sync + 'static,
    T: Send + Sync + 'static,
    T2: Send + Sync + 'static,
    T3: Send + Sync + 'static,
    T4: Send + Sync + 'static,
    O: Send + Sync + 'static,
    A: Transform<K, I, T>,
    B: Transform<(T, T2), T, T2>,
    C: Transform<(T2, T3), T2, T3>,
    D: Transform<(T3, T4), T3, T4>,
    E: Transform<(T4, O), T4, O>,

    ensures
        forall|input: I|
            #![trigger convert(convert(convert(convert(a, b), c), d), e).accepts(input)]
            #![trigger chain5_accepts(a, b, c, d, e, input)]
            convert(convert(convert(convert(a, b), c), d), e).accepts(input) <==> chain5_accepts(
                a,
                b,
                c,
                d,
                e,
                input,
            ),
        forall|input: I, output: O|
            #![trigger convert(convert(convert(convert(a, b), c), d), e).yields(input, output)]
            #![trigger chain5_yields(a, b, c, d, e, input, output)]
            convert(convert(convert(convert(a, b), c), d), e).yields(input, output)
                <==> chain5_yields(a, b, c, d, e, input, output),
{
    let head: Chain4<K, I, T, T2, T3, T4, A, B, C, D> = convert(convert(convert(a, b), c), d);
    let whole: Chain5<K, I, T, T2, T3, T4, O, A, B, C, D, E> = convert(head, e);
    lemma_fold4(a, b, c, d);
    lemma_fused::<(I, T4), (T4, O), I, T4, O, Chain4<K, I, T, T2, T3, T4, A, B, C, D>, E>(head, e);
    assert forall|input: I, output: O| #[trigger]
        whole.yields(input, output) implies chain5_yields(a, b, c, d, e, input, output) by {
        let t4 = choose|t4: T4| #[trigger] head.yields(input, t4) && e.yields(t4, output);
        let (t, t2, t3) = choose|t: T, t2: T2, t3: T3|
            #![trigger a.yields(input, t), b.yields(t, t2), c.yields(t2, t3)]
            a.yields(input, t) && b.yields(t, t2) && c.yields(t2, t3) && d.yields(t3, t4);
        assert(a.yields(input, t) && b.yields(t, t2) && c.yields(t2, t3) && d.yields(t3, t4)
            && e.yields(t4, output));
    }
    assert forall|input: I, output: O| #[trigger]
        chain5_yields(a, b, c, d, e, input, output) implies whole.yields(input, output) by {
        let (t, t2, t3, t4) = choose|t: T, t2: T2, t3: T3, t4: T4|
            #![trigger a.yields(input, t), b.yields(t, t2), c.yields(t2, t3), d.yields(t3, t4)]
            a.yields(input, t) && b.yields(t, t2) && c.yields(t2, t3) && d.yields(t3, t4)
                && e.yields(t4, output);
        assert(head.yields(input, t4));
    }
}

/// Three stages in a chain are accepted just where each stage accepts
/// whatever may reach it: one stage that cannot be run on what it is handed
/// leaves the whole chain without a run.
pub proof fn lemma_chain3_stage_by_stage<K, I, T, T2, O, A, B, C>(a: A, b: B, c: C, input: I) where
    A: Transform<K, I, T>,
    B: Transform<(T, T2), T, T2>,
    C: Transform<(T2, O), T2, O>,

    ensures
        chain3_accepts(a, b, c, input) <==> {
            &&& a.accepts(input)
            &&& forall|t: T| #[trigger] a.yields(input, t) ==> b.accepts(t)
            &&& forall|t: T, t2: T2|
                #![trigger a.yields(input, t), b.yields(t, t2)]
                a.yields(input, t) && b.yields(t, t2) ==> c.accepts(t2)
        },
{
    if chain3_accepts(a, b, c, input) {
        assert forall|t: T, t2: T2|
            #![trigger a.yields(input, t), b.yields(t, t2)]
            a.yields(input, t) && b.yields(t, t2) implies c.accepts(t2) by {
            assert(chain2_yields(a, b, input, t2));
        }
    }
}

/// Four stages in a chain are accepted just where each stage accepts whatever
/// may reach it.
pub proof fn lemma_chain4_stage_by_stage<K, I, T, T2, T3, O, A, B, C, D>(
    a: A,
    b: B,
    c: C,
    d: D,
    input: I,
) where
    A: Transform<K, I, T>,
    B: Transform<(T, T2), T, T2>,
    C: Transform<(T2, T3), T2, T3>,
    D: Transform<(T3, O), T3, O>,

    ensures
        chain4_accepts(a, b, c, d, input) <==> {
            &&& a.accepts(input)
            &&& forall|t: T| #[trigger] a.yields(input, t) ==> b.accepts(t)
            &&& forall|t: T, t2: T2|
                #![trigger a.yields(input, t), b.yields(t, t2)]
                a.yields(input, t) && b.yields(t, t2) ==> c.accepts(t2)
            &&& forall|t: T, t2: T2, t3: T3|
                #![trigger a.yields(input, t), b.yields(t, t2), c.yields(t2, t3)]
                a.yields(input, t) && b.yields(t, t2) && c.yields(t2, t3) ==> d.accepts(t3)
        },
{
    lemma_chain3_stage_by_stage(a, b, c, input);
    if chain4_accepts(a, b, c, d, input) {
        assert forall|t: T, t2: T2, t3: T3|
            #![trigger a.yields(input, t), b.yields(t, t2), c.yields(t2, t3)]
            a.yields(input, t) && b.yields(t, t2) && c.yields(t2, t3) implies d.accepts(t3) by {
            assert(chain3_yields(a, b, c, input, t3));
        }
    }
}

/// Five stages in a chain are accepted just where each stage accepts whatever
/// may reach it.
pub proof fn lemma_chain5_stage_by_stage<K, I, T, T2, T3, T4, O, A, B, C, D, E>(
    a: A,
    b: B,
    c: C,
    d: D,
    e: E,
    input: I,
) where
    A: Transform<K, I, T>,
    B: Transform<(T, T2), T, T2>,
    C: Transform<(T2, T3), T2, T3>,
    D: Transform<(T3, T4), T3, T4>,
    E: Transform<(T4, O), T4, O>,

    ensures
        chain5_accepts(a, b, c, d, e, input) <==> {
            &&& a.accepts(input)
            &&& forall|t: T| #[trigger] a.yields(input, t) ==> b.accepts(t)
            &&& forall|t: T, t2: T2|
                #![trigger a.yields(input, t), b.yields(t, t2)]
                a.yields(input, t) && b.yields(t, t2) ==> c.accepts(t2)
            &&& forall|t: T, t2: T2, t3: T3|
                #![trigger a.yields(input, t), b.yields(t, t2), c.yields(t2, t3)]
                a.yields(input, t) && b.yields(t, t2) && c.yields(t2, t3) ==> d.accepts(t3)
            &&& forall|t: T, t2: T2, t3: T3, t4: T4|
                #![trigger a.yields(input, t), b.yields(t, t2), c.yields(t2, t3), d.yields(t3, t4)]
                a.yields(input, t) && b.yields(t, t2) && c.yields(t2, t3) && d.yields(t3, t4)
                    ==> e.accepts(t4)
        },
{
    lemma_chain4_stage_by_stage(a, b, c, d, input);
    if chain5_accepts(a, b, c, d, e, input) {
        assert forall|t: T, t2: T2, t3: T3, t4: T4|
            #![trigger a.yields(input, t), b.yields(t, t2), c.yields(t2, t3), d.yields(t3, t4)]
            a.yields(input, t) && b.yields(t, t2) && c.yields(t2, t3) && d.yields(t3, t4)
            implies e.accepts(t4) by {
            assert(chain4_yields(a, b, c, d, input, t4));
        }
    }
}

} // verus!
