use vstd::prelude::*;
use vstd::seq_lib::lemma_flatten_concat;
use crate::api::{api_name, is_transformable, pass_through, AnalysisPhase, Api, ApiName, FuncToConvert, ItemDecl, TypedefKind};
use crate::convert_error::{ConvertError, ConvertErrorWithContext, ErrorContext};
use crate::error_reporter::{
    batch_diagnostics, batch_output, diagnostics, ignored_line, materialized, placeholder,
    rule_outcome, Outcome,
};
use crate::names::QualifiedName;

verus! {

proof fn lemma_flatten_split<X>(ms: Seq<Seq<X>>, k: int)
    requires
        0 <= k < ms.len(),
    ensures
        ms.flatten() == ms.subrange(0, k).flatten() + ms[k] + ms.subrange(k + 1, ms.len() as int).flatten(),
{
    let x = ms.subrange(0, k);
    let y = ms.subrange(k + 1, ms.len() as int);
    assert(ms =~= x + (seq![ms[k]] + y));
    lemma_flatten_concat(x, seq![ms[k]] + y);
    lemma_flatten_concat(seq![ms[k]], y);
    seq![ms[k]].lemma_flatten_one_element();
    assert(ms.flatten() =~= x.flatten() + ms[k] + y.flatten());
}

proof fn lemma_flatten_all_empty<X>(ms: Seq<Seq<X>>)
    requires
        forall|j: int| 0 <= j < ms.len() ==> (#[trigger] ms[j]).len() == 0,
    ensures
        ms.flatten() == Seq::<X>::empty(),
    decreases ms.len(),
{
    if ms.len() > 0 {
        lemma_flatten_all_empty(ms.drop_first());
        assert(ms.first() + ms.drop_first().flatten() =~= Seq::<X>::empty());
    }
}

/// What the outcomes of a batch put in the output splits at record `k`
/// into what the records before it put there, what record `k` puts there,
/// and what the records after it put there; and likewise the diagnostics.
pub proof fn lemma_batch_split<A: AnalysisPhase, B: AnalysisPhase>(
    apis: Seq<Api<A>>,
    outs: Seq<Outcome<B>>,
    k: int,
)
    requires
        0 <= k < outs.len() <= apis.len(),
    ensures
        batch_output(apis, outs) == batch_output(apis, outs.subrange(0, k)) + materialized(
            api_name(apis[k]).name,
            outs[k],
        ) + batch_output(
            apis.subrange(k + 1, apis.len() as int),
            outs.subrange(k + 1, outs.len() as int),
        ),
        batch_diagnostics(apis, outs) == batch_diagnostics(apis, outs.subrange(0, k))
            + diagnostics(api_name(apis[k]).name, outs[k]) + batch_diagnostics(
            apis.subrange(k + 1, apis.len() as int),
            outs.subrange(k + 1, outs.len() as int),
        ),
{
    let n = outs.len() as int;
    let before = outs.subrange(0, k);
    let after_apis = apis.subrange(k + 1, apis.len() as int);
    let after = outs.subrange(k + 1, n);
    let ms = Seq::new(outs.len(), |j: int| materialized(api_name(apis[j]).name, outs[j]));
    let ds = Seq::new(outs.len(), |j: int| diagnostics(api_name(apis[j]).name, outs[j]));
    assert(Seq::new(before.len(), |j: int| materialized(api_name(apis[j]).name, before[j]))
        =~= ms.subrange(0, k));
    assert(Seq::new(after.len(), |j: int| materialized(api_name(after_apis[j]).name, after[j]))
        =~= ms.subrange(k + 1, n));
    assert(Seq::new(before.len(), |j: int| diagnostics(api_name(apis[j]).name, before[j]))
        =~= ds.subrange(0, k));
    assert(Seq::new(after.len(), |j: int| diagnostics(api_name(after_apis[j]).name, after[j]))
        =~= ds.subrange(k + 1, n));
    lemma_flatten_split(ms, k);
    lemma_flatten_split(ds, k);
}

/// Where no record fails, the output is the records' converted sequences
/// one after another, in the order of the input, and nothing is logged.
pub proof fn lemma_order_preserved<A: AnalysisPhase, B: AnalysisPhase>(
    apis: Seq<Api<A>>,
    outs: Seq<Outcome<B>>,
)
    requires
        outs.len() <= apis.len(),
        forall|j: int| 0 <= j < outs.len() ==> (#[trigger] outs[j]) is Ok,
    ensures
        batch_output(apis, outs) == Seq::new(outs.len(), |j: int| outs[j]->Ok_0@).flatten(),
        batch_diagnostics(apis, outs) == Seq::<Seq<char>>::empty(),
{
    assert(Seq::new(outs.len(), |j: int| materialized(api_name(apis[j]).name, outs[j]))
        =~= Seq::new(outs.len(), |j: int| outs[j]->Ok_0@));
    let ds = Seq::new(outs.len(), |j: int| diagnostics(api_name(apis[j]).name, outs[j]));
    assert forall|j: int| 0 <= j < ds.len() implies (#[trigger] ds[j]).len() == 0 by {
        assert(outs[j] is Ok);
    }
    lemma_flatten_all_empty(ds);
}

/// A record that fails with a context leaves the output of every other
/// record as it would be without it: in its place stands one placeholder.
pub proof fn lemma_fault_isolation<A: AnalysisPhase, B: AnalysisPhase>(
    apis: Seq<Api<A>>,
    outs: Seq<Outcome<B>>,
    k: int,
    err: ConvertError,
    ctx: ErrorContext,
)
    requires
        0 <= k < outs.len() <= apis.len(),
        outs[k] == Err::<Vec<Api<B>>, _>(ConvertErrorWithContext(err, Some(ctx))),
    ensures
        batch_output(apis, outs) == batch_output(apis, outs.subrange(0, k)) + seq![
            placeholder::<B>(api_name(apis[k]).name.ns, ctx, err),
        ] + batch_output(
            apis.subrange(k + 1, apis.len() as int),
            outs.subrange(k + 1, outs.len() as int),
        ),
{
    lemma_batch_split(apis, outs, k);
}

/// A failure with a context stands in the output as exactly one
/// placeholder, which carries the error itself, is named by the context's
/// identifier inside the failed record's namespace, and is logged once.
pub proof fn lemma_exactly_one_placeholder<B: AnalysisPhase>(
    name: QualifiedName,
    err: ConvertError,
    ctx: ErrorContext,
)
    ensures
        ({
            let o = Err::<Vec<Api<B>>, _>(ConvertErrorWithContext(err, Some(ctx)));
            let r = materialized(name, o);
            &&& r.len() == 1
            &&& r[0] is IgnoredItem
            &&& r[0]->IgnoredItem_err == err
            &&& r[0]->IgnoredItem_err.message_text() == err.message_text()
            &&& r[0]->IgnoredItem_ctx == ctx
            &&& api_name(r[0]).name.id == ctx.id()
            &&& api_name(r[0]).name.ns == name.ns
            &&& diagnostics(name, o) == seq![ignored_line(name.text(), err.message_text())]
        }),
{
}

/// A failure without a context adds nothing to the output in its place and
/// is logged once; the output is shorter by what a success would have put
/// there.
pub proof fn lemma_silent_drop<A: AnalysisPhase, B: AnalysisPhase>(
    apis: Seq<Api<A>>,
    outs: Seq<Outcome<B>>,
    k: int,
    err: ConvertError,
    v: Vec<Api<B>>,
)
    requires
        0 <= k < outs.len() <= apis.len(),
        outs[k] == Err::<Vec<Api<B>>, _>(ConvertErrorWithContext(err, None)),
    ensures
        batch_output(apis, outs) == batch_output(apis, outs.subrange(0, k)) + batch_output(
            apis.subrange(k + 1, apis.len() as int),
            outs.subrange(k + 1, outs.len() as int),
        ),
        batch_diagnostics(apis, outs) == batch_diagnostics(apis, outs.subrange(0, k)) + seq![
            ignored_line(api_name(apis[k]).name.text(), err.message_text()),
        ] + batch_diagnostics(
            apis.subrange(k + 1, apis.len() as int),
            outs.subrange(k + 1, outs.len() as int),
        ),
        batch_output(apis, outs.update(k, Ok(v))).len() == batch_output(apis, outs).len()
            + v@.len(),
{
    let ok = outs.update(k, Ok(v));
    lemma_batch_split(apis, outs, k);
    lemma_batch_split(apis, ok, k);
    assert(ok.subrange(0, k) =~= outs.subrange(0, k));
    assert(ok.subrange(k + 1, ok.len() as int) =~= outs.subrange(k + 1, outs.len() as int));
    assert(batch_output(apis, outs) =~= batch_output(apis, outs.subrange(0, k)) + batch_output(
        apis.subrange(k + 1, apis.len() as int),
        outs.subrange(k + 1, outs.len() as int),
    ));
}

/// A pass-through record comes out once, as the same kind of record with
/// the same fields: converting it back gives the record it was.
pub proof fn lemma_pass_through_identity<A: AnalysisPhase, B: AnalysisPhase, FF, SF, EF, TF>(
    api: Api<A>,
    o: Outcome<B>,
    func_conversion: FF,
    struct_conversion: SF,
    enum_conversion: EF,
    typedef_conversion: TF,
) where
    FF: Fn(ApiName, FuncToConvert, A::FunAnalysis, Option<QualifiedName>) -> Outcome<B>,
    SF: Fn(ApiName, ItemDecl, A::StructAnalysis) -> Outcome<B>,
    EF: Fn(ApiName, ItemDecl) -> Outcome<B>,
    TF: Fn(ApiName, TypedefKind, Option<QualifiedName>, A::TypedefAnalysis) -> Outcome<B>,
    requires
        !is_transformable(api),
        rule_outcome(
            api,
            o,
            func_conversion,
            struct_conversion,
            enum_conversion,
            typedef_conversion,
        ),
    ensures
        materialized(api_name(api).name, o) == seq![pass_through::<A, B>(api)],
        diagnostics(api_name(api).name, o) == Seq::<Seq<char>>::empty(),
        api_name(pass_through::<A, B>(api)) == api_name(api),
        !is_transformable(pass_through::<A, B>(api)),
        pass_through::<B, A>(pass_through::<A, B>(api)) == api,
{
}

/// The records that one success puts in the output stand together at the
/// place of its record, after all the records that come before it.
pub proof fn lemma_expansion<A: AnalysisPhase, B: AnalysisPhase>(
    apis: Seq<Api<A>>,
    outs: Seq<Outcome<B>>,
    k: int,
)
    requires
        0 <= k < outs.len() <= apis.len(),
        outs[k] is Ok,
    ensures
        ({
            let start = batch_output(apis, outs.subrange(0, k)).len();
            let v = outs[k]->Ok_0@;
            &&& start + v.len() <= batch_output(apis, outs).len()
            &&& batch_output(apis, outs).subrange(start as int, start + v.len() as int) == v
        }),
{
    lemma_batch_split(apis, outs, k);
    let start = batch_output(apis, outs.subrange(0, k)).len();
    let v = outs[k]->Ok_0@;
    assert(batch_output(apis, outs).subrange(start as int, start + v.len() as int) =~= v);
}

/// The materialized records and diagnostics are a function of the name and
/// the outcome alone: equal inputs give equal results.
pub proof fn lemma_materializer_deterministic<B: AnalysisPhase>(
    name1: QualifiedName,
    o1: Outcome<B>,
    name2: QualifiedName,
    o2: Outcome<B>,
)
    requires
        name1 == name2,
        o1 == o2,
    ensures
        materialized(name1, o1) == materialized(name2, o2),
        diagnostics(name1, o1) == diagnostics(name2, o2),
{
}

} // verus!
