use vstd::prelude::*;

verus! {

/// Why a record's shape cannot be honoured by the current phase.
#[derive(Clone, Debug, PartialEq, Eq)]
pub enum ConvertError {
    UnsupportedShape,
    UnresolvedReference(String),
    ShapeMismatch(String),
}

impl ConvertError {
    /// The human-readable rendering of the error.
    pub open spec fn message_text(&self) -> Seq<char> {
        match self {
            ConvertError::UnsupportedShape => "this shape of item is not supported"@,
            ConvertError::UnresolvedReference(n) => "unresolved reference to "@ + n@,
            ConvertError::ShapeMismatch(d) => "shape mismatch: "@ + d@,
        }
    }

    pub fn message(&self) -> (r: String)
        ensures
            r@ == self.message_text(),
    {
        match self {
            ConvertError::UnsupportedShape => "this shape of item is not supported".to_owned(),
            ConvertError::UnresolvedReference(n) => {
                let mut s = "unresolved reference to ".to_owned();
                s.append(n.as_str());
                s
            },
            ConvertError::ShapeMismatch(d) => {
                let mut s = "shape mismatch: ".to_owned();
                s.append(d.as_str());
                s
            },
        }
    }
}

/// The part of a record that an error is attributed to.
#[derive(Clone, Debug, PartialEq, Eq)]
pub enum ErrorContext {
    /// A whole item.
    Item(String),
    /// A method of a type: the documentation goes on the type.
    Method { self_ty: String, method: String },
}

impl ErrorContext {
    /// The identifier that a placeholder for this context is named by.
    pub open spec fn id(&self) -> String {
        match self {
            ErrorContext::Item(id) => *id,
            ErrorContext::Method { self_ty, .. } => *self_ty,
        }
    }

    /// The text of the context, for diagnostics.
    pub open spec fn text(&self) -> Seq<char> {
        match self {
            ErrorContext::Item(id) => id@,
            ErrorContext::Method { self_ty, method } => self_ty@ + "::"@ + method@,
        }
    }

    pub fn get_id(&self) -> (r: &String)
        ensures
            *r == self.id(),
    {
        match self {
            ErrorContext::Item(id) => id,
            ErrorContext::Method { self_ty, .. } => self_ty,
        }
    }

    pub fn render(&self) -> (r: String)
        ensures
            r@ == self.text(),
    {
        match self {
            ErrorContext::Item(id) => id.clone(),
            ErrorContext::Method { self_ty, method } => {
                let mut s = self_ty.clone();
                s.append("::");
                s.append(method.as_str());
                s
            },
        }
    }
}

/// An error together with the part of the record it concerns, if any.
#[derive(Clone, Debug, PartialEq, Eq)]
pub struct ConvertErrorWithContext(pub ConvertError, pub Option<ErrorContext>);

} // verus!
