use vstd::prelude::*;
use crate::convert_error::{ConvertError, ErrorContext};
use crate::names::{Namespace, QualifiedName};

verus! {

/// A stage of the pipeline: the analysis bundles that the function, struct
/// and typedef records carry at that stage.
pub trait AnalysisPhase {
    type FunAnalysis;
    type StructAnalysis;
    type TypedefAnalysis;
}

/// The phase at which no analysis has been attached yet.
#[derive(Clone, Debug, PartialEq, Eq)]
pub struct NullPhase;

impl AnalysisPhase for NullPhase {
    type FunAnalysis = ();
    type StructAnalysis = ();
    type TypedefAnalysis = ();
}

/// The name of an API record.
#[derive(Clone, Debug, PartialEq, Eq)]
pub struct ApiName {
    pub name: QualifiedName,
    pub cpp_name: Option<String>,
}

impl ApiName {
    /// The name `id` inside `ns`, with no separate C++ name.
    pub fn new(ns: &Namespace, id: String) -> (r: ApiName)
        ensures
            r.name.ns == *ns,
            r.name.id == id,
            r.cpp_name is None,
    {
        ApiName { name: QualifiedName::new(ns, id), cpp_name: None }
    }
}

/// A declaration as parsed from the source: its identifier and its text.
#[derive(Clone, Debug, PartialEq, Eq)]
pub struct ItemDecl {
    pub ident: String,
    pub source: String,
}

/// How a typedef was written.
#[derive(Clone, Debug, PartialEq, Eq)]
pub enum TypedefKind {
    /// A `using` declaration, by its target path.
    Use(String),
    /// A `typedef` declaration.
    Type(ItemDecl),
}

/// A function, or a method of `self_ty`, still to be analysed.
#[derive(Clone, Debug, PartialEq, Eq)]
pub struct FuncToConvert {
    pub ident: String,
    pub self_ty: Option<QualifiedName>,
    pub source: String,
}

/// One API description record at phase `P`.
#[allow(inconsistent_fields)]
#[derive(Clone, Debug, PartialEq)]
pub enum Api<P: AnalysisPhase> {
    ConcreteType { name: ApiName, rs_definition: String, cpp_definition: String },
    ForwardDeclaration { name: ApiName },
    StringConstructor { name: ApiName },
    Const { name: ApiName, const_item: String },
    CType { name: ApiName, typename: QualifiedName },
    RustType { name: ApiName, path: String },
    RustFn { name: ApiName, sig: String, path: String },
    RustSubclassFn { name: ApiName, subclass: QualifiedName, details: String },
    RustSubclassConstructor {
        name: ApiName,
        subclass: QualifiedName,
        cpp_impl: String,
        is_trivial: bool,
    },
    Subclass { name: ApiName, superclass: QualifiedName },
    /// A placeholder for an item that could not be converted.
    IgnoredItem { name: ApiName, err: ConvertError, ctx: ErrorContext },
    Enum { name: ApiName, item: ItemDecl },
    Typedef {
        name: ApiName,
        item: TypedefKind,
        old_tyname: Option<QualifiedName>,
        analysis: P::TypedefAnalysis,
    },
    Function {
        name: ApiName,
        fun: FuncToConvert,
        analysis: P::FunAnalysis,
        name_for_gc: Option<QualifiedName>,
    },
    Struct { name: ApiName, item: ItemDecl, analysis: P::StructAnalysis },
}

/// The record's name.
pub open spec fn api_name<P: AnalysisPhase>(api: Api<P>) -> ApiName {
    match api {
        Api::ConcreteType { name, .. } => name,
        Api::ForwardDeclaration { name } => name,
        Api::StringConstructor { name } => name,
        Api::Const { name, .. } => name,
        Api::CType { name, .. } => name,
        Api::RustType { name, .. } => name,
        Api::RustFn { name, .. } => name,
        Api::RustSubclassFn { name, .. } => name,
        Api::RustSubclassConstructor { name, .. } => name,
        Api::Subclass { name, .. } => name,
        Api::IgnoredItem { name, .. } => name,
        Api::Enum { name, .. } => name,
        Api::Typedef { name, .. } => name,
        Api::Function { name, .. } => name,
        Api::Struct { name, .. } => name,
    }
}

/// Whether the record's payload changes between phases.
pub open spec fn is_transformable<P: AnalysisPhase>(api: Api<P>) -> bool {
    api is Enum || api is Typedef || api is Function || api is Struct
}

/// The same pass-through record at phase `B`, field for field.
pub open spec fn pass_through<A: AnalysisPhase, B: AnalysisPhase>(api: Api<A>) -> Api<B>
    recommends
        !is_transformable(api),
{
    match api {
        Api::ConcreteType { name, rs_definition, cpp_definition } => Api::ConcreteType {
            name,
            rs_definition,
            cpp_definition,
        },
        Api::ForwardDeclaration { name } => Api::ForwardDeclaration { name },
        Api::StringConstructor { name } => Api::StringConstructor { name },
        Api::Const { name, const_item } => Api::Const { name, const_item },
        Api::CType { name, typename } => Api::CType { name, typename },
        Api::RustType { name, path } => Api::RustType { name, path },
        Api::RustFn { name, sig, path } => Api::RustFn { name, sig, path },
        Api::RustSubclassFn { name, subclass, details } => Api::RustSubclassFn {
            name,
            subclass,
            details,
        },
        Api::RustSubclassConstructor { name, subclass, cpp_impl, is_trivial } =>
            Api::RustSubclassConstructor { name, subclass, cpp_impl, is_trivial },
        Api::Subclass { name, superclass } => Api::Subclass { name, superclass },
        Api::IgnoredItem { name, err, ctx } => Api::IgnoredItem { name, err, ctx },
        // A transformable record has no pass-through form; its rule converts it.
        _ => Api::ForwardDeclaration { name: api_name(api) },
    }
}

impl<P: AnalysisPhase> Api<P> {
    /// The record's qualified name.
    pub fn name(&self) -> (r: &QualifiedName)
        ensures
            *r == api_name(*self).name,
    {
        match self {
            Api::ConcreteType { name, .. } => &name.name,
            Api::ForwardDeclaration { name } => &name.name,
            Api::StringConstructor { name } => &name.name,
            Api::Const { name, .. } => &name.name,
            Api::CType { name, .. } => &name.name,
            Api::RustType { name, .. } => &name.name,
            Api::RustFn { name, .. } => &name.name,
            Api::RustSubclassFn { name, .. } => &name.name,
            Api::RustSubclassConstructor { name, .. } => &name.name,
            Api::Subclass { name, .. } => &name.name,
            Api::IgnoredItem { name, .. } => &name.name,
            Api::Enum { name, .. } => &name.name,
            Api::Typedef { name, .. } => &name.name,
            Api::Function { name, .. } => &name.name,
            Api::Struct { name, .. } => &name.name,
        }
    }
}

} // verus!
