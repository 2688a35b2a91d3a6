use vstd::prelude::*;

verus! {

/// A scope path such as `outer::inner`; the empty path is the root scope.
#[derive(Clone, Debug, PartialEq, Eq)]
pub struct Namespace {
    pub path: String,
}

/// `a` joined to `b` by `::`, where an empty `a` stands for the root.
pub open spec fn join_path(a: Seq<char>, b: Seq<char>) -> Seq<char> {
    if a.len() == 0 {
        b
    } else {
        a + "::"@ + b
    }
}

impl Namespace {
    /// The root scope.
    pub fn root() -> (r: Namespace)
        ensures
            r.path@ == Seq::<char>::empty(),
    {
        Namespace { path: String::new() }
    }

    /// The scope named `segment` inside this one.
    pub fn child(&self, segment: &str) -> (r: Namespace)
        ensures
            r.path@ == join_path(self.path@, segment@),
    {
        if self.path.as_str().is_empty() {
            Namespace { path: segment.to_owned() }
        } else {
            let mut path = self.path.clone();
            path.append("::");
            path.append(segment);
            Namespace { path }
        }
    }

    /// A copy of this namespace, equal to it.
    pub fn duplicate(&self) -> (r: Namespace)
        ensures
            r == *self,
    {
        Namespace { path: self.path.clone() }
    }
}

/// A fully qualified identifier: a namespace and a local identifier.
#[derive(Clone, Debug, PartialEq, Eq)]
pub struct QualifiedName {
    pub ns: Namespace,
    pub id: String,
}

impl QualifiedName {
    /// The name `id` inside `ns`.
    pub fn new(ns: &Namespace, id: String) -> (r: QualifiedName)
        ensures
            r.ns == *ns,
            r.id == id,
    {
        QualifiedName { ns: ns.duplicate(), id }
    }

    /// The text of the name, its namespace and identifier joined by `::`.
    pub open spec fn text(&self) -> Seq<char> {
        join_path(self.ns.path@, self.id@)
    }

    pub fn get_namespace(&self) -> (r: &Namespace)
        ensures
            *r == self.ns,
    {
        &self.ns
    }

    pub fn get_final_ident(&self) -> (r: String)
        ensures
            r == self.id,
    {
        self.id.clone()
    }

    /// Renders the name as text, for diagnostics.
    pub fn render(&self) -> (r: String)
        ensures
            r@ == self.text(),
    {
        let ns = self.ns.child(self.id.as_str());
        ns.path
    }

    /// A copy of this name, equal to it.
    pub fn duplicate(&self) -> (r: QualifiedName)
        ensures
            r == *self,
    {
        QualifiedName { ns: self.ns.duplicate(), id: self.id.clone() }
    }
}

} // verus!
