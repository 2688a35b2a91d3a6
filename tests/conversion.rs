use api_conversion::api::{AnalysisPhase, Api, ApiName, FuncToConvert, ItemDecl, NullPhase, TypedefKind};
use api_conversion::convert_error::{ConvertError, ConvertErrorWithContext, ErrorContext};
use api_conversion::error_reporter::{
    api_or_error, convert_apis, convert_item_apis, ignored_item, report_any_error, Outcome,
};
use api_conversion::names::{Namespace, QualifiedName};

#[derive(Clone, Debug, PartialEq)]
struct Analysed;

impl AnalysisPhase for Analysed {
    type FunAnalysis = u32;
    type StructAnalysis = String;
    type TypedefAnalysis = bool;
}

fn ns() -> Namespace {
    Namespace::root().child("outer")
}

fn api_name(id: &str) -> ApiName {
    ApiName::new(&ns(), id.to_string())
}

fn decl(id: &str) -> ItemDecl {
    ItemDecl { ident: id.to_string(), source: format!("struct {} {{}}", id) }
}

fn input_struct(id: &str) -> Api<NullPhase> {
    Api::Struct { name: api_name(id), item: decl(id), analysis: () }
}

fn output_struct(id: &str) -> Api<Analysed> {
    Api::Struct { name: api_name(id), item: decl(id), analysis: format!("analysed {}", id) }
}

fn unsupported(ctx: Option<ErrorContext>) -> ConvertErrorWithContext {
    ConvertErrorWithContext(ConvertError::UnsupportedShape, ctx)
}

fn no_func(
    _: ApiName,
    _: FuncToConvert,
    _: (),
    _: Option<QualifiedName>,
) -> Outcome<Analysed> {
    panic!("no function rule expected")
}

fn no_enum(_: ApiName, _: ItemDecl) -> Outcome<Analysed> {
    panic!("no enum rule expected")
}

fn no_typedef(
    _: ApiName,
    _: TypedefKind,
    _: Option<QualifiedName>,
    _: (),
) -> Outcome<Analysed> {
    panic!("no typedef rule expected")
}

fn run_structs(
    input: Vec<Api<NullPhase>>,
    bad_ctx: Option<ErrorContext>,
) -> (Vec<Api<Analysed>>, Vec<String>) {
    let mut out = Vec::new();
    let mut log = Vec::new();
    convert_apis(
        input,
        &mut out,
        &mut log,
        no_func,
        |name: ApiName, item: ItemDecl, _: ()| {
            if item.ident == "Bar" {
                Err(unsupported(bad_ctx.clone()))
            } else {
                Ok(vec![Api::Struct {
                    analysis: format!("analysed {}", item.ident),
                    name,
                    item,
                }])
            }
        },
        no_enum,
        no_typedef,
    );
    (out, log)
}

#[test]
fn struct_failure_with_context_leaves_placeholder() {
    let input = vec![input_struct("Foo"), input_struct("Bar")];
    let (out, log) = run_structs(input, Some(ErrorContext::Item("Bar".to_string())));
    let expected_placeholder: Api<Analysed> = Api::IgnoredItem {
        name: api_name("Bar"),
        err: ConvertError::UnsupportedShape,
        ctx: ErrorContext::Item("Bar".to_string()),
    };
    assert_eq!(out, vec![output_struct("Foo"), expected_placeholder]);
    assert_eq!(log.len(), 1);
    assert!(log[0].contains("Bar"));
    assert_eq!(log[0], "Ignored outer::Bar: this shape of item is not supported");
}

#[test]
fn struct_failure_without_context_is_dropped() {
    let input = vec![input_struct("Foo"), input_struct("Bar")];
    let (out, log) = run_structs(input, None);
    assert_eq!(out, vec![output_struct("Foo")]);
    assert_eq!(log, vec!["Ignored outer::Bar: this shape of item is not supported".to_string()]);
    assert!(!out.iter().any(|a| matches!(a, Api::IgnoredItem { .. })));
}

#[test]
fn order_is_preserved_without_failures() {
    let input = vec![input_struct("A"), input_struct("B"), input_struct("C")];
    let (out, log) = run_structs(input, None);
    assert_eq!(out, vec![output_struct("A"), output_struct("B"), output_struct("C")]);
    assert!(log.is_empty());
}

#[test]
fn one_failure_does_not_disturb_the_others() {
    let input = vec![input_struct("A"), input_struct("Bar"), input_struct("C")];
    let (out, log) = run_structs(input, Some(ErrorContext::Item("Bar".to_string())));
    assert_eq!(out.len(), 3);
    assert_eq!(out[0], output_struct("A"));
    assert!(matches!(out[1], Api::IgnoredItem { .. }));
    assert_eq!(out[2], output_struct("C"));
    assert_eq!(log.len(), 1);
}

#[test]
fn silent_drop_shortens_output_by_one() {
    let all_ok = run_structs(vec![input_struct("A"), input_struct("B")], None).0;
    let (dropped, log) = run_structs(vec![input_struct("A"), input_struct("Bar")], None);
    assert_eq!(dropped.len() + 1, all_ok.len());
    assert_eq!(log.len(), 1);
}

#[test]
fn empty_batch_appends_nothing() {
    let mut out: Vec<Api<Analysed>> = vec![output_struct("Existing")];
    let mut log = vec!["earlier".to_string()];
    convert_apis(Vec::<Api<NullPhase>>::new(), &mut out, &mut log, no_func, |_: ApiName, _: ItemDecl, _: ()| -> Outcome<Analysed> { panic!("no struct rule expected") }, no_enum, no_typedef);
    assert_eq!(out, vec![output_struct("Existing")]);
    assert_eq!(log, vec!["earlier".to_string()]);
}

fn pass_through_inputs() -> Vec<Api<NullPhase>> {
    let q = QualifiedName::new(&ns(), "Target".to_string());
    vec![
        Api::ConcreteType {
            name: api_name("Concrete"),
            rs_definition: "Vec<u8>".to_string(),
            cpp_definition: "std::vector<uint8_t>".to_string(),
        },
        Api::ForwardDeclaration { name: api_name("Fwd") },
        Api::StringConstructor { name: api_name("make_string") },
        Api::Const { name: api_name("LIMIT"), const_item: "const LIMIT: u32 = 4;".to_string() },
        Api::CType { name: api_name("c_int"), typename: q.clone() },
        Api::RustType { name: api_name("RsType"), path: "crate::RsType".to_string() },
        Api::RustFn {
            name: api_name("rs_fn"),
            sig: "fn rs_fn()".to_string(),
            path: "crate::rs_fn".to_string(),
        },
        Api::RustSubclassFn {
            name: api_name("method"),
            subclass: q.clone(),
            details: "virtual".to_string(),
        },
        Api::RustSubclassConstructor {
            name: api_name("Sub_new"),
            subclass: q.clone(),
            cpp_impl: "Sub::Sub()".to_string(),
            is_trivial: true,
        },
        Api::Subclass { name: api_name("Sub"), superclass: q },
        Api::IgnoredItem {
            name: api_name("Old"),
            err: ConvertError::UnresolvedReference("Missing".to_string()),
            ctx: ErrorContext::Item("Old".to_string()),
        },
    ]
}

#[test]
fn pass_through_kinds_are_copied() {
    let input = pass_through_inputs();
    assert_eq!(input.len(), 11);
    let mut out: Vec<Api<Analysed>> = Vec::new();
    let mut log = Vec::new();
    convert_apis(
        input,
        &mut out,
        &mut log,
        no_func,
        |_: ApiName, _: ItemDecl, _: ()| -> Outcome<Analysed> { panic!("no struct rule expected") },
        no_enum,
        no_typedef,
    );
    assert!(log.is_empty());
    assert_eq!(out.len(), 11);
    let back: Vec<Api<NullPhase>> = {
        let mut b = Vec::new();
        let mut l = Vec::new();
        convert_apis(
            out,
            &mut b,
            &mut l,
            |_: ApiName, _: FuncToConvert, _: u32, _: Option<QualifiedName>| -> Outcome<NullPhase> {
                panic!("no function rule expected")
            },
            |_: ApiName, _: ItemDecl, _: String| -> Outcome<NullPhase> { panic!("no struct rule expected") },
            |_: ApiName, _: ItemDecl| -> Outcome<NullPhase> { panic!("no enum rule expected") },
            |_: ApiName, _: TypedefKind, _: Option<QualifiedName>, _: bool| -> Outcome<NullPhase> {
                panic!("no typedef rule expected")
            },
        );
        b
    };
    assert_eq!(back, pass_through_inputs());
}

#[test]
fn expansion_occupies_contiguous_positions() {
    let input: Vec<Api<NullPhase>> = vec![
        Api::ForwardDeclaration { name: api_name("Before") },
        Api::Enum { name: api_name("Colour"), item: decl("Colour") },
        Api::ForwardDeclaration { name: api_name("After") },
    ];
    let mut out: Vec<Api<Analysed>> = Vec::new();
    let mut log = Vec::new();
    convert_apis(
        input,
        &mut out,
        &mut log,
        no_func,
        |_: ApiName, _: ItemDecl, _: ()| -> Outcome<Analysed> { panic!("no struct rule expected") },
        |name: ApiName, item: ItemDecl| -> Outcome<Analysed> {
            Ok(vec![
                Api::Enum { name: name.clone(), item: item.clone() },
                Api::ForwardDeclaration { name: api_name("Colour_first") },
                Api::ForwardDeclaration { name: api_name("Colour_second") },
            ])
        },
        no_typedef,
    );
    assert_eq!(
        out,
        vec![
            Api::ForwardDeclaration { name: api_name("Before") },
            Api::Enum { name: api_name("Colour"), item: decl("Colour") },
            Api::ForwardDeclaration { name: api_name("Colour_first") },
            Api::ForwardDeclaration { name: api_name("Colour_second") },
            Api::ForwardDeclaration { name: api_name("After") },
        ]
    );
    assert!(log.is_empty());
}

#[test]
fn function_and_typedef_rules_receive_their_fields() {
    let gc = QualifiedName::new(&ns(), "Owner".to_string());
    let input: Vec<Api<NullPhase>> = vec![
        Api::Function {
            name: api_name("f"),
            fun: FuncToConvert { ident: "f".to_string(), self_ty: None, source: "void f();".to_string() },
            analysis: (),
            name_for_gc: Some(gc.clone()),
        },
        Api::Typedef {
            name: api_name("T"),
            item: TypedefKind::Use("std::string".to_string()),
            old_tyname: None,
            analysis: (),
        },
    ];
    let mut out: Vec<Api<Analysed>> = Vec::new();
    let mut log = Vec::new();
    convert_apis(
        input,
        &mut out,
        &mut log,
        |name: ApiName, fun: FuncToConvert, _: (), name_for_gc: Option<QualifiedName>| -> Outcome<Analysed> {
            assert_eq!(name_for_gc, Some(QualifiedName::new(&ns(), "Owner".to_string())));
            Ok(vec![Api::Function { name, fun, analysis: 7, name_for_gc }])
        },
        |_: ApiName, _: ItemDecl, _: ()| -> Outcome<Analysed> { panic!("no struct rule expected") },
        no_enum,
        |_: ApiName, _: TypedefKind, _: Option<QualifiedName>, _: ()| -> Outcome<Analysed> {
            Err(ConvertErrorWithContext(
                ConvertError::ShapeMismatch("typedef to a template".to_string()),
                Some(ErrorContext::Method { self_ty: "Holder".to_string(), method: "get".to_string() }),
            ))
        },
    );
    assert_eq!(out.len(), 2);
    assert!(matches!(&out[0], Api::Function { analysis: 7, .. }));
    assert_eq!(
        out[1],
        Api::IgnoredItem {
            name: api_name("Holder"),
            err: ConvertError::ShapeMismatch("typedef to a template".to_string()),
            ctx: ErrorContext::Method { self_ty: "Holder".to_string(), method: "get".to_string() },
        }
    );
    assert_eq!(log, vec!["Ignored outer::T: shape mismatch: typedef to a template".to_string()]);
}

#[test]
fn materializer_results_on_each_outcome() {
    let name = QualifiedName::new(&ns(), "Widget".to_string());
    let mut log = Vec::new();
    let ok: Vec<Api<Analysed>> = api_or_error(name.clone(), Ok(vec![output_struct("Widget")]), &mut log);
    assert_eq!(ok, vec![output_struct("Widget")]);
    assert!(log.is_empty());
    let dropped: Vec<Api<Analysed>> = api_or_error(name.clone(), Err(unsupported(None)), &mut log);
    assert!(dropped.is_empty());
    let ctx = ErrorContext::Item("part".to_string());
    let kept: Vec<Api<Analysed>> = api_or_error(name.clone(), Err(unsupported(Some(ctx.clone()))), &mut log);
    assert_eq!(
        kept,
        vec![Api::IgnoredItem { name: api_name("part"), err: ConvertError::UnsupportedShape, ctx }]
    );
    assert_eq!(log.len(), 2);
    assert_eq!(log[0], log[1]);
}

#[test]
fn materializer_is_deterministic() {
    let name = QualifiedName::new(&ns(), "Widget".to_string());
    let ctx = Some(ErrorContext::Item("Widget".to_string()));
    let mut log1 = Vec::new();
    let mut log2 = Vec::new();
    let a: Vec<Api<Analysed>> = api_or_error(name.clone(), Err(unsupported(ctx.clone())), &mut log1);
    let b: Vec<Api<Analysed>> = api_or_error(name.clone(), Err(unsupported(ctx)), &mut log2);
    assert_eq!(a, b);
    assert_eq!(log1, log2);
}

#[test]
fn item_mapper_attributes_errors_to_the_item() {
    let input = vec![input_struct("Good"), input_struct("Bad")];
    let mut out: Vec<Api<Analysed>> = Vec::new();
    let mut log = Vec::new();
    convert_item_apis(input, &mut out, &mut log, |api: Api<NullPhase>| {
        match api {
            Api::Struct { name, item, .. } if item.ident == "Good" => {
                Ok(vec![Api::Struct { analysis: "analysed Good".to_string(), name, item }])
            }
            _ => Err(ConvertError::UnresolvedReference("Thing".to_string())),
        }
    });
    assert_eq!(
        out,
        vec![
            output_struct("Good"),
            Api::IgnoredItem {
                name: api_name("Bad"),
                err: ConvertError::UnresolvedReference("Thing".to_string()),
                ctx: ErrorContext::Item("Bad".to_string()),
            },
        ]
    );
    assert_eq!(log, vec!["Ignored outer::Bad: unresolved reference to Thing".to_string()]);
}

#[test]
fn side_effect_runner_returns_value() {
    let mut apis: Vec<Api<NullPhase>> = Vec::new();
    let mut log = Vec::new();
    let r = report_any_error(&ns(), &mut apis, &mut log, || Ok::<u32, ConvertErrorWithContext>(42));
    assert_eq!(r, Some(42));
    assert!(apis.is_empty());
    assert!(log.is_empty());
}

#[test]
fn side_effect_runner_logs_failure_without_context() {
    let mut apis: Vec<Api<NullPhase>> = Vec::new();
    let mut log = Vec::new();
    let r = report_any_error(&ns(), &mut apis, &mut log, || Err::<u32, _>(unsupported(None)));
    assert_eq!(r, None);
    assert!(apis.is_empty());
    assert_eq!(log, vec!["Ignored item: this shape of item is not supported".to_string()]);
}

#[test]
fn side_effect_runner_adds_placeholder_with_context() {
    let mut apis: Vec<Api<NullPhase>> = Vec::new();
    let mut log = Vec::new();
    let ctx = ErrorContext::Method { self_ty: "Holder".to_string(), method: "get".to_string() };
    let r = report_any_error(&ns(), &mut apis, &mut log, || Err::<u32, _>(unsupported(Some(ctx.clone()))));
    assert_eq!(r, None);
    assert_eq!(apis, vec![ignored_item(&ns(), ctx, ConvertError::UnsupportedShape)]);
    assert_eq!(log, vec!["Ignored item Holder::get: this shape of item is not supported".to_string()]);
}

#[test]
fn placeholder_takes_namespace_and_context_id() {
    let inner = ns().child("inner");
    let p: Api<NullPhase> = ignored_item(&inner, ErrorContext::Item("Thing".to_string()), ConvertError::UnsupportedShape);
    match p {
        Api::IgnoredItem { name, err, ctx } => {
            assert_eq!(name.name.render(), "outer::inner::Thing");
            assert_eq!(name.cpp_name, None);
            assert_eq!(err.message(), "this shape of item is not supported");
            assert_eq!(ctx.render(), "Thing");
        }
        _ => panic!("expected a placeholder"),
    }
}

#[test]
fn names_and_messages_render() {
    assert_eq!(Namespace::root().path, "");
    assert_eq!(QualifiedName::new(&Namespace::root(), "Top".to_string()).render(), "Top");
    assert_eq!(QualifiedName::new(&ns(), "Top".to_string()).get_final_ident(), "Top");
    assert_eq!(ConvertError::ShapeMismatch("x".to_string()).message(), "shape mismatch: x");
    assert_eq!(
        ConvertError::UnresolvedReference("y".to_string()).message(),
        "unresolved reference to y"
    );
    let ctx = ErrorContext::Method { self_ty: "A".to_string(), method: "b".to_string() };
    assert_eq!(ctx.get_id(), "A");
    assert_eq!(ctx.render(), "A::b");
}
