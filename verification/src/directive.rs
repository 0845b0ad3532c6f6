//! The input shape of the translation: a named configuration directive with
//! positional string arguments and optionally one list of nested child
//! directives, as an external dialect parser hands it over.

use vstd::prelude::*;

verus! {

/// One parsed directive. The tree is consumed read-only; the model builder
/// descends one level of children only, so deeper nesting is invisible to
/// the translation.
#[derive(Debug)]
pub struct Directive {
    pub name: String,
    pub args: Vec<String>,
    pub children: Option<Vec<Directive>>,
}

/// The child directives of `d`, one level deep; a directive without a child
/// list has none.
pub open spec fn children_of(d: Directive) -> Seq<Directive> {
    match d.children {
        Some(cs) => cs@,
        None => Seq::empty(),
    }
}

impl Directive {
    /// A leaf directive: a name, its positional arguments, no children.
    pub fn leaf(name: String, args: Vec<String>) -> (r: Directive)
        ensures
            r.name@ == name@,
            r.args == args,
            r.children is None,
    {
        Directive { name, args, children: None }
    }

    /// A block directive holding one level of child directives.
    pub fn block(name: String, args: Vec<String>, children: Vec<Directive>) -> (r: Directive)
        ensures
            r.name@ == name@,
            r.args == args,
            r.children == Some(children),
            children_of(r) == children@,
    {
        Directive { name, args, children: Some(children) }
    }
}

} // verus!
