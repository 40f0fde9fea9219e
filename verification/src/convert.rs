//! The fused pair: two stages joined end to end into one.

use crate::middleware::Middleware;
use crate::transform::Transform;
use std::marker::PhantomData;
use vstd::prelude::*;

verus! {

/// Two stages, `F` from `A` to `B` and `G` from `B` to `C`, as one stage from
/// `A` to `C`. `T` and `T2` are the kinds of the two stages.
pub struct ConvertMiddleware<T, T2, A, B, C, F, G> {
    t: F,
    t2: G,
    _kinds: PhantomData<(T, T2)>,
    _values: PhantomData<(A, B, C)>,
}

impl<T, T2, A, B, C, F, G> ConvertMiddleware<T, T2, A, B, C, F, G> {
    /// The stage that runs first.
    pub closed spec fn first(&self) -> F {
        self.t
    }

    /// The stage that runs on what the first one gave.
    pub closed spec fn second(&self) -> G {
        self.t2
    }
}

/// The pair as a stage: the second stage run on what the first one gave.
impl<T, T2, A, B, C, F, G> Transform<(A, C), A, C> for ConvertMiddleware<
    T,
    T2,
    A,
    B,
    C,
    F,
    G,
> where
    T: Send + Sync + 'static,
    T2: Send + Sync + 'static,
    A: Send + Sync + 'static,
    B: Send + Sync + 'static,
    C: Send + Sync + 'static,
    F: Transform<T, A, B>,
    G: Transform<T2, B, C>,
 {
    /// The first stage accepts the input, and the second accepts whatever the
    /// first may give on it.
    open spec fn accepts(&self, input: A) -> bool {
        &&& self.first().accepts(input)
        &&& forall|mid: B| #[trigger]
            self.first().yields(input, mid) ==> self.second().accepts(mid)
    }

    /// The first stage may give on the input some value on which the second
    /// may give the output.
    open spec fn yields(&self, input: A, output: C) -> bool {
        exists|mid: B| #[trigger]
            self.first().yields(input, mid) && self.second().yields(mid, output)
    }

    fn transform(&self, input: A) -> (output: C) {
        let input = self.t.transform(input);
        self.t2.transform(input)
    }
}

/// The pair as a callable: a call is one run of the pair as a stage.
impl<T, T2, A, B, C, F, G> Middleware<A, C> for ConvertMiddleware<T, T2, A, B, C, F, G> where
    T: Send + Sync + 'static,
    T2: Send + Sync + 'static,
    A: Send + Sync + 'static,
    B: Send + Sync + 'static,
    C: Send + Sync + 'static,
    F: Transform<T, A, B>,
    G: Transform<T2, B, C>,
 {
    open spec fn admits(&self, input: A) -> bool {
        self.accepts(input)
    }

    open spec fn delivers(&self, input: A, output: C) -> bool {
        self.yields(input, output)
    }

    fn call(&self, input: A) -> (output: C) {
        self.transform(input)
    }
}

/// The pair made of `t` and `t2`: what [`convert`] returns, for use in
/// specifications, where `convert(t, t2)` stands for it.
pub closed spec fn fused<T, T2, A, B, C, F, G>(t: F, t2: G) -> ConvertMiddleware<
    T,
    T2,
    A,
    B,
    C,
    F,
    G,
> where
    T: Send + Sync + 'static,
    T2: Send + Sync + 'static,
    A: Send + Sync + 'static,
    B: Send + Sync + 'static,
    C: Send + Sync + 'static,
    F: Transform<T, A, B>,
    G: Transform<T2, B, C>,
 {
    ConvertMiddleware { t, t2, _kinds: PhantomData, _values: PhantomData }
}

/// The pair made of `t` and `t2` holds `t` as its first stage and `t2` as its
/// second.
pub proof fn lemma_fused<T, T2, A, B, C, F, G>(t: F, t2: G) where
    T: Send + Sync + 'static,
    T2: Send + Sync + 'static,
    A: Send + Sync + 'static,
    B: Send + Sync + 'static,
    C: Send + Sync + 'static,
    F: Transform<T, A, B>,
    G: Transform<T2, B, C>,

    ensures
        fused::<T, T2, A, B, C, F, G>(t, t2).first() == t,
        fused::<T, T2, A, B, C, F, G>(t, t2).second() == t2,
{
}

/// Fuses two stages into one: `t`, then `t2` on what `t` gave.
///
/// The pair can be run where `t` can and `t2` can on whatever `t` may give;
/// what it yields is what `t2` yields on what `t` yielded.
#[verifier::when_used_as_spec(fused)]
pub fn convert<T, T2, A, B, C, F, G>(t: F, t2: G) -> (pair: ConvertMiddleware<
    T,
    T2,
    A,
    B,
    C,
    F,
    G,
>) where
    T: Send + Sync + 'static,
    T2: Send + Sync + 'static,
    A: Send + Sync + 'static,
    B: Send + Sync + 'static,
    C: Send + Sync + 'static,
    F: Transform<T, A, B>,
    G: Transform<T2, B, C>,

    ensures
        pair == fused::<T, T2, A, B, C, F, G>(t, t2),
        pair.first() == t,
        pair.second() == t2,
        forall|input: A| #[trigger]
            pair.accepts(input) <==> (t.accepts(input) && forall|mid: B| #[trigger]
                t.yields(input, mid) ==> t2.accepts(mid)),
        forall|input: A, output: C| #[trigger]
            pair.yields(input, output) <==> (exists|mid: B| #[trigger]
                t.yields(input, mid) && t2.yields(mid, output)),
        forall|input: A| #[trigger] pair.admits(input) <==> pair.accepts(input),
        forall|input: A, output: C| #[trigger]
            pair.delivers(input, output) <==> pair.yields(input, output),
{
    ConvertMiddleware { t, t2, _kinds: PhantomData::default(), _values: PhantomData::default() }
}

} // verus!
