use vstd::prelude::*;
use crate::api::{
    api_name, is_transformable, pass_through, AnalysisPhase, Api, ApiName, FuncToConvert, ItemDecl,
    TypedefKind,
};
use crate::convert_error::{ConvertError, ConvertErrorWithContext, ErrorContext};
use crate::names::{Namespace, QualifiedName};

verus! {

/// What a conversion rule hands back for one record.
pub type Outcome<B> = Result<Vec<Api<B>>, ConvertErrorWithContext>;

/// The placeholder documenting `err`: named by the context's identifier
/// inside `ns`.
pub open spec fn placeholder<B: AnalysisPhase>(
    ns: Namespace,
    ctx: ErrorContext,
    err: ConvertError,
) -> Api<B> {
    Api::IgnoredItem {
        name: ApiName { name: QualifiedName { ns, id: ctx.id() }, cpp_name: None },
        err,
        ctx,
    }
}

/// The diagnostic line for a record `name` dropped because of `message`.
pub open spec fn ignored_line(name: Seq<char>, message: Seq<char>) -> Seq<char> {
    "Ignored "@ + name + ": "@ + message
}

/// The text of each line of a diagnostic sink.
pub open spec fn lines(log: Seq<String>) -> Seq<Seq<char>> {
    log.map_values(|s: String| s@)
}

/// The records that stand in the output for the outcome `o` of converting
/// the record `name`.
pub open spec fn materialized<B: AnalysisPhase>(name: QualifiedName, o: Outcome<B>) -> Seq<Api<B>> {
    match o {
        Ok(v) => v@,
        Err(ConvertErrorWithContext(_, None)) => Seq::empty(),
        Err(ConvertErrorWithContext(err, Some(ctx))) => seq![placeholder(name.ns, ctx, err)],
    }
}

/// The diagnostic lines written for the outcome `o` of converting `name`.
pub open spec fn diagnostics<B: AnalysisPhase>(name: QualifiedName, o: Outcome<B>) -> Seq<Seq<char>> {
    match o {
        Ok(_) => Seq::empty(),
        Err(ConvertErrorWithContext(err, _)) => seq![ignored_line(name.text(), err.message_text())],
    }
}

proof fn lemma_lines_push(log: Seq<String>, s: String)
    ensures
        lines(log.push(s)) == lines(log).push(s@),
{
    assert(lines(log.push(s)) =~= lines(log).push(s@));
}

/// The placeholder record for an error attributed to `ctx`, in namespace `ns`.
pub fn ignored_item<A: AnalysisPhase>(ns: &Namespace, ctx: ErrorContext, err: ConvertError) -> (r:
    Api<A>)
    ensures
        r == placeholder::<A>(*ns, ctx, err),
{
    let id = ctx.get_id().clone();
    Api::IgnoredItem { name: ApiName::new(ns, id), err, ctx }
}

/// Appends to `log` the line `Ignored <prefix><name>: <message of err>`.
fn log_ignored(log: &mut Vec<String>, prefix: &str, name: &str, err: &ConvertError)
    ensures
        lines(final(log)@) == lines(old(log)@).push(
            ignored_line(prefix@ + name@, err.message_text()),
        ),
{
    let mut line = "Ignored ".to_owned();
    line.append(prefix);
    line.append(name);
    line.append(": ");
    line.append(err.message().as_str());
    proof {
        lemma_lines_push(log@, line);
        assert(line@ =~= ignored_line(prefix@ + name@, err.message_text()));
    }
    log.push(line);
}

/// Turns the outcome of converting the record `name` into the records that
/// stand for it in the output: the converted records on success; on
/// failure, one diagnostic line, and a placeholder where the failure is
/// attributed to a part of the record.
pub fn api_or_error<T: AnalysisPhase>(
    name: QualifiedName,
    outcome: Outcome<T>,
    log: &mut Vec<String>,
) -> (r: Vec<Api<T>>)
    ensures
        r@ == materialized(name, outcome),
        lines(final(log)@) == lines(old(log)@) + diagnostics(name, outcome),
{
    let ghost o = outcome;
    match outcome {
        Ok(v) => {
            assert(lines(log@) =~= lines(log@) + Seq::<Seq<char>>::empty());
            v
        },
        Err(ConvertErrorWithContext(err, None)) => {
            let text = name.render();
            log_ignored(log, "", text.as_str(), &err);
            proof {
                reveal_strlit("");
                assert(""@ + text@ =~= name.text());
                assert(lines(log@) =~= lines(old(log)@) + diagnostics(name, o));
            }
            Vec::new()
        },
        Err(ConvertErrorWithContext(err, Some(ctx))) => {
            let text = name.render();
            log_ignored(log, "", text.as_str(), &err);
            proof {
                reveal_strlit("");
                assert(""@ + text@ =~= name.text());
                assert(lines(log@) =~= lines(old(log)@) + diagnostics(name, o));
            }
            let mut r = Vec::new();
            r.push(ignored_item(name.get_namespace(), ctx, err));
            assert(r@ =~= materialized(name, o));
            r
        },
    }
}

/// The records that the outcomes `outs` of converting the first
/// `outs.len()` records of `apis` put in the output, in order.
pub open spec fn batch_output<A: AnalysisPhase, B: AnalysisPhase>(
    apis: Seq<Api<A>>,
    outs: Seq<Outcome<B>>,
) -> Seq<Api<B>> {
    Seq::new(outs.len(), |j: int| materialized(api_name(apis[j]).name, outs[j])).flatten()
}

/// The diagnostic lines that the outcomes `outs` of converting the first
/// `outs.len()` records of `apis` write, in order.
pub open spec fn batch_diagnostics<A: AnalysisPhase, B: AnalysisPhase>(
    apis: Seq<Api<A>>,
    outs: Seq<Outcome<B>>,
) -> Seq<Seq<char>> {
    Seq::new(outs.len(), |j: int| diagnostics(api_name(apis[j]).name, outs[j])).flatten()
}

proof fn lemma_batch_push<A: AnalysisPhase, B: AnalysisPhase>(
    apis: Seq<Api<A>>,
    outs: Seq<Outcome<B>>,
    o: Outcome<B>,
)
    requires
        outs.len() < apis.len(),
    ensures
        batch_output(apis, outs.push(o)) == batch_output(apis, outs) + materialized(
            api_name(apis[outs.len() as int]).name,
            o,
        ),
        batch_diagnostics(apis, outs.push(o)) == batch_diagnostics(apis, outs) + diagnostics(
            api_name(apis[outs.len() as int]).name,
            o,
        ),
{
    let n = outs.len() as int;
    let name = api_name(apis[n]).name;
    let m = Seq::new(outs.len(), |j: int| materialized(api_name(apis[j]).name, outs[j]));
    let d = Seq::new(outs.len(), |j: int| diagnostics(api_name(apis[j]).name, outs[j]));
    assert(Seq::new(outs.push(o).len(), |j: int| materialized(api_name(apis[j]).name, outs.push(o)[j]))
        =~= m.push(materialized(name, o)));
    assert(Seq::new(outs.push(o).len(), |j: int| diagnostics(api_name(apis[j]).name, outs.push(o)[j]))
        =~= d.push(diagnostics(name, o)));
    m.lemma_flatten_push(materialized(name, o));
    d.lemma_flatten_push(diagnostics(name, o));
}

/// Whether `o` is an outcome that converting `api` may have: what its
/// rule may return for a transformable record, or the record itself at the
/// new phase for a pass-through one.
pub open spec fn rule_outcome<A: AnalysisPhase, B: AnalysisPhase, FF, SF, EF, TF>(
    api: Api<A>,
    o: Outcome<B>,
    func_conversion: FF,
    struct_conversion: SF,
    enum_conversion: EF,
    typedef_conversion: TF,
) -> bool where
    FF: Fn(ApiName, FuncToConvert, A::FunAnalysis, Option<QualifiedName>) -> Outcome<B>,
    SF: Fn(ApiName, ItemDecl, A::StructAnalysis) -> Outcome<B>,
    EF: Fn(ApiName, ItemDecl) -> Outcome<B>,
    TF: Fn(ApiName, TypedefKind, Option<QualifiedName>, A::TypedefAnalysis) -> Outcome<B>,
 {
    match api {
        Api::Enum { name, item } => enum_conversion.ensures((name, item), o),
        Api::Typedef { name, item, old_tyname, analysis } => typedef_conversion.ensures(
            (name, item, old_tyname, analysis),
            o,
        ),
        Api::Function { name, fun, analysis, name_for_gc } => func_conversion.ensures(
            (name, fun, analysis, name_for_gc),
            o,
        ),
        Api::Struct { name, item, analysis } => struct_conversion.ensures((name, item, analysis), o),
        _ => o is Ok && o->Ok_0@ == seq![pass_through::<A, B>(api)],
    }
}

/// Whether `outs` are outcomes, one for each record of `apis`, that the
/// rules may give, such that the output and the diagnostic sink grew from
/// `out0` to `out1` and from `log0` to `log1` by what they stand for.
pub open spec fn converted_by<A: AnalysisPhase, B: AnalysisPhase, FF, SF, EF, TF>(
    apis: Seq<Api<A>>,
    outs: Seq<Outcome<B>>,
    func_conversion: FF,
    struct_conversion: SF,
    enum_conversion: EF,
    typedef_conversion: TF,
    out0: Seq<Api<B>>,
    out1: Seq<Api<B>>,
    log0: Seq<String>,
    log1: Seq<String>,
) -> bool where
    FF: Fn(ApiName, FuncToConvert, A::FunAnalysis, Option<QualifiedName>) -> Outcome<B>,
    SF: Fn(ApiName, ItemDecl, A::StructAnalysis) -> Outcome<B>,
    EF: Fn(ApiName, ItemDecl) -> Outcome<B>,
    TF: Fn(ApiName, TypedefKind, Option<QualifiedName>, A::TypedefAnalysis) -> Outcome<B>,
 {
    &&& outs.len() == apis.len()
    &&& forall|j: int|
        0 <= j < apis.len() ==> rule_outcome(
            apis[j],
            #[trigger] outs[j],
            func_conversion,
            struct_conversion,
            enum_conversion,
            typedef_conversion,
        )
    &&& out1 == out0 + batch_output(apis, outs)
    &&& lines(log1) == lines(log0) + batch_diagnostics(apis, outs)
}

/// Converts every record of `in_apis` to the next phase and appends the
/// results to `out_apis`, in order. Pass-through records are copied; each
/// transformable record goes to its rule, and what the rule returns goes
/// through `api_or_error`, so that a failure costs that record alone.
pub fn convert_apis<FF, SF, EF, TF, A: AnalysisPhase, B: AnalysisPhase>(
    in_apis: Vec<Api<A>>,
    out_apis: &mut Vec<Api<B>>,
    log: &mut Vec<String>,
    func_conversion: FF,
    struct_conversion: SF,
    enum_conversion: EF,
    typedef_conversion: TF,
) where
    FF: Fn(ApiName, FuncToConvert, A::FunAnalysis, Option<QualifiedName>) -> Outcome<B>,
    SF: Fn(ApiName, ItemDecl, A::StructAnalysis) -> Outcome<B>,
    EF: Fn(ApiName, ItemDecl) -> Outcome<B>,
    TF: Fn(ApiName, TypedefKind, Option<QualifiedName>, A::TypedefAnalysis) -> Outcome<B>,
    requires
        forall|n, f, a, g| func_conversion.requires((n, f, a, g)),
        forall|n, i, a| struct_conversion.requires((n, i, a)),
        forall|n, i| enum_conversion.requires((n, i)),
        forall|n, i, o, a| typedef_conversion.requires((n, i, o, a)),
    ensures
        exists|outs: Seq<Outcome<B>>|
            converted_by(
                in_apis@,
                outs,
                func_conversion,
                struct_conversion,
                enum_conversion,
                typedef_conversion,
                old(out_apis)@,
                final(out_apis)@,
                old(log)@,
                final(log)@,
            ),
{
    let ghost input = in_apis@;
    let ghost out0 = out_apis@;
    let ghost log0 = log@;
    let ghost mut outs: Seq<Outcome<B>> = Seq::empty();
    let mut rest = in_apis;
    proof {
        assert(Seq::new(0, |j: int| materialized(api_name(input[j]).name, outs[j])) =~= Seq::<
            Seq<Api<B>>,
        >::empty());
        assert(Seq::new(0, |j: int| diagnostics(api_name(input[j]).name, outs[j])) =~= Seq::<
            Seq<Seq<char>>,
        >::empty());
        assert(out_apis@ =~= out0 + batch_output(input, outs));
        assert(lines(log@) =~= lines(log0) + batch_diagnostics(input, outs));
    }
    while rest.len() > 0
        invariant
            outs.len() <= input.len(),
            rest@ == input.subrange(outs.len() as int, input.len() as int),
            forall|j: int|
                0 <= j < outs.len() ==> rule_outcome(
                    input[j],
                    #[trigger] outs[j],
                    func_conversion,
                    struct_conversion,
                    enum_conversion,
                    typedef_conversion,
                ),
            out_apis@ == out0 + batch_output(input, outs),
            lines(log@) == lines(log0) + batch_diagnostics(input, outs),
            forall|n, f, a, g| func_conversion.requires((n, f, a, g)),
            forall|n, i, a| struct_conversion.requires((n, i, a)),
            forall|n, i| enum_conversion.requires((n, i)),
            forall|n, i, o, a| typedef_conversion.requires((n, i, o, a)),
        decreases rest.len(),
    {
        let api = rest.remove(0);
        let ghost this_api = api;
        assert(this_api == input[outs.len() as int]);
        let tn = api.name().duplicate();
        let result: Outcome<B> = match api {
            Api::ConcreteType { name, rs_definition, cpp_definition } => {
                let mut v = Vec::new();
                v.push(Api::ConcreteType { name, rs_definition, cpp_definition });
                Ok(v)
            },
            Api::ForwardDeclaration { name } => {
                let mut v = Vec::new();
                v.push(Api::ForwardDeclaration { name });
                Ok(v)
            },
            Api::StringConstructor { name } => {
                let mut v = Vec::new();
                v.push(Api::StringConstructor { name });
                Ok(v)
            },
            Api::Const { name, const_item } => {
                let mut v = Vec::new();
                v.push(Api::Const { name, const_item });
                Ok(v)
            },
            Api::CType { name, typename } => {
                let mut v = Vec::new();
                v.push(Api::CType { name, typename });
                Ok(v)
            },
            Api::RustType { name, path } => {
                let mut v = Vec::new();
                v.push(Api::RustType { name, path });
                Ok(v)
            },
            Api::RustFn { name, sig, path } => {
                let mut v = Vec::new();
                v.push(Api::RustFn { name, sig, path });
                Ok(v)
            },
            Api::RustSubclassFn { name, subclass, details } => {
                let mut v = Vec::new();
                v.push(Api::RustSubclassFn { name, subclass, details });
                Ok(v)
            },
            Api::RustSubclassConstructor { name, subclass, cpp_impl, is_trivial } => {
                let mut v = Vec::new();
                v.push(Api::RustSubclassConstructor { name, subclass, cpp_impl, is_trivial });
                Ok(v)
            },
            Api::Subclass { name, superclass } => {
                let mut v = Vec::new();
                v.push(Api::Subclass { name, superclass });
                Ok(v)
            },
            Api::IgnoredItem { name, err, ctx } => {
                let mut v = Vec::new();
                v.push(Api::IgnoredItem { name, err, ctx });
                Ok(v)
            },
            Api::Enum { name, item } => enum_conversion(name, item),
            Api::Typedef { name, item, old_tyname, analysis } => typedef_conversion(
                name,
                item,
                old_tyname,
                analysis,
            ),
            Api::Function { name, fun, analysis, name_for_gc } => func_conversion(
                name,
                fun,
                analysis,
                name_for_gc,
            ),
            Api::Struct { name, item, analysis } => struct_conversion(name, item, analysis),
        };
        let ghost o = result;
        assert(rule_outcome(
            this_api,
            o,
            func_conversion,
            struct_conversion,
            enum_conversion,
            typedef_conversion,
        ));
        let mut produced = api_or_error(tn, result, log);
        out_apis.append(&mut produced);
        proof {
            lemma_batch_push(input, outs, o);
            outs = outs.push(o);
            assert(rest@ =~= input.subrange(outs.len() as int, input.len() as int));
        }
    }
    assert(converted_by(
        input,
        outs,
        func_conversion,
        struct_conversion,
        enum_conversion,
        typedef_conversion,
        out0,
        out_apis@,
        log0,
        log@,
    ));
}

/// The outcome that a failure `e` of the single rule on the record `name`
/// becomes: the error attributed to the whole item.
pub open spec fn with_item_context<B: AnalysisPhase>(
    r: Result<Vec<Api<B>>, ConvertError>,
    name: QualifiedName,
) -> Outcome<B> {
    match r {
        Ok(v) => Ok(v),
        Err(e) => Err(ConvertErrorWithContext(e, Some(ErrorContext::Item(name.id)))),
    }
}

/// Whether `raws` are results, one for each record of `apis`, that `fun`
/// may return, such that the output and the diagnostic sink grew from
/// `out0` to `out1` and from `log0` to `log1` by what they stand for once
/// each error is attributed to its item.
pub open spec fn item_converted_by<A: AnalysisPhase, B: AnalysisPhase, F>(
    apis: Seq<Api<A>>,
    raws: Seq<Result<Vec<Api<B>>, ConvertError>>,
    fun: F,
    out0: Seq<Api<B>>,
    out1: Seq<Api<B>>,
    log0: Seq<String>,
    log1: Seq<String>,
) -> bool where F: Fn(Api<A>) -> Result<Vec<Api<B>>, ConvertError> {
    &&& raws.len() == apis.len()
    &&& forall|j: int| 0 <= j < apis.len() ==> fun.ensures((apis[j],), #[trigger] raws[j])
    &&& out1 == out0 + batch_output(
        apis,
        Seq::new(raws.len(), |j: int| with_item_context(raws[j], api_name(apis[j]).name)),
    )
    &&& lines(log1) == lines(log0) + batch_diagnostics(
        apis,
        Seq::new(raws.len(), |j: int| with_item_context(raws[j], api_name(apis[j]).name)),
    )
}

/// Converts every record of `in_apis` with the one rule `fun` and appends
/// the results to `out_apis`, in order. A failure is attributed to the
/// whole item and handled by `api_or_error`, as in `convert_apis`.
pub fn convert_item_apis<F, A: AnalysisPhase, B: AnalysisPhase>(
    in_apis: Vec<Api<A>>,
    out_apis: &mut Vec<Api<B>>,
    log: &mut Vec<String>,
    fun: F,
) where F: Fn(Api<A>) -> Result<Vec<Api<B>>, ConvertError>
    requires
        forall|a| fun.requires((a,)),
    ensures
        exists|raws: Seq<Result<Vec<Api<B>>, ConvertError>>|
            item_converted_by(
                in_apis@,
                raws,
                fun,
                old(out_apis)@,
                final(out_apis)@,
                old(log)@,
                final(log)@,
            ),
{
    let ghost input = in_apis@;
    let ghost out0 = out_apis@;
    let ghost log0 = log@;
    let ghost mut raws: Seq<Result<Vec<Api<B>>, ConvertError>> = Seq::empty();
    let ghost mut outs: Seq<Outcome<B>> = Seq::empty();
    let mut rest = in_apis;
    proof {
        assert(Seq::new(0, |j: int| materialized(api_name(input[j]).name, outs[j])) =~= Seq::<
            Seq<Api<B>>,
        >::empty());
        assert(Seq::new(0, |j: int| diagnostics(api_name(input[j]).name, outs[j])) =~= Seq::<
            Seq<Seq<char>>,
        >::empty());
        assert(out_apis@ =~= out0 + batch_output(input, outs));
        assert(lines(log@) =~= lines(log0) + batch_diagnostics(input, outs));
    }
    while rest.len() > 0
        invariant
            outs.len() == raws.len() <= input.len(),
            rest@ == input.subrange(outs.len() as int, input.len() as int),
            forall|j: int| 0 <= j < raws.len() ==> fun.ensures((input[j],), #[trigger] raws[j]),
            outs =~= Seq::new(
                raws.len(),
                |j: int| with_item_context(raws[j], api_name(input[j]).name),
            ),
            out_apis@ == out0 + batch_output(input, outs),
            lines(log@) == lines(log0) + batch_diagnostics(input, outs),
            forall|a| fun.requires((a,)),
        decreases rest.len(),
    {
        let api = rest.remove(0);
        let ghost this_api = api;
        assert(this_api == input[outs.len() as int]);
        let tn = api.name().duplicate();
        let raw = fun(api);
        let ghost r = raw;
        let result: Outcome<B> = match raw {
            Ok(v) => Ok(v),
            Err(e) => Err(ConvertErrorWithContext(e, Some(ErrorContext::Item(tn.get_final_ident())))),
        };
        let ghost o = result;
        assert(o == with_item_context(r, tn));
        let mut produced = api_or_error(tn, result, log);
        out_apis.append(&mut produced);
        proof {
            lemma_batch_push(input, outs, o);
            outs = outs.push(o);
            raws = raws.push(r);
            assert(rest@ =~= input.subrange(outs.len() as int, input.len() as int));
        }
    }
    assert(item_converted_by(input, raws, fun, out0, out_apis@, log0, log@));
}

/// The diagnostic line for a failure `err` of the side effect, attributed
/// to `ctx` if present.
pub open spec fn side_effect_line(ctx: Option<ErrorContext>, err: ConvertError) -> Seq<char> {
    match ctx {
        None => ignored_line("item"@, err.message_text()),
        Some(c) => ignored_line("item "@ + c.text(), err.message_text()),
    }
}

/// Whether the side effect's outcome `o` was reported: its value handed
/// back as `r`, or, on failure, `None`, one diagnostic line, and a
/// placeholder in namespace `ns` where the failure has a context.
pub open spec fn reported<A: AnalysisPhase, T>(
    ns: Namespace,
    o: Result<T, ConvertErrorWithContext>,
    r: Option<T>,
    apis0: Seq<Api<A>>,
    apis1: Seq<Api<A>>,
    log0: Seq<String>,
    log1: Seq<String>,
) -> bool {
    match o {
        Ok(v) => r == Some(v) && apis1 == apis0 && log1 == log0,
        Err(ConvertErrorWithContext(err, ctx)) => {
            &&& r is None
            &&& lines(log1) == lines(log0).push(side_effect_line(ctx, err))
            &&& apis1 == match ctx {
                None => apis0,
                Some(c) => apis0.push(placeholder(ns, c, err)),
            }
        },
    }
}

/// Runs `fun`, which may fail. Its value comes back as `Some`; a failure is
/// logged, documented by a placeholder in `apis` where it has a context,
/// and comes back as `None`.
pub fn report_any_error<F, T, A: AnalysisPhase>(
    ns: &Namespace,
    apis: &mut Vec<Api<A>>,
    log: &mut Vec<String>,
    fun: F,
) -> (r: Option<T>) where F: FnOnce() -> Result<T, ConvertErrorWithContext>
    requires
        fun.requires(()),
    ensures
        exists|o: Result<T, ConvertErrorWithContext>|
            fun.ensures((), o) && reported(*ns, o, r, old(apis)@, final(apis)@, old(log)@, final(log)@),
{
    let ghost apis0 = apis@;
    let ghost log0 = log@;
    let outcome = fun();
    let ghost o = outcome;
    let r = match outcome {
        Ok(result) => Some(result),
        Err(ConvertErrorWithContext(err, None)) => {
            log_ignored(log, "item", "", &err);
            proof {
                reveal_strlit("");
                assert("item"@ + ""@ =~= "item"@);
            }
            None
        },
        Err(ConvertErrorWithContext(err, Some(ctx))) => {
            let text = ctx.render();
            log_ignored(log, "item ", text.as_str(), &err);
            apis.push(ignored_item(ns, ctx, err));
            None
        },
    };
    assert(reported(*ns, o, r, apis0, apis@, log0, log@));
    r
}

} // verus!
