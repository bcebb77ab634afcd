//! The input model: an already-parsed source-language type expression.
//!
//! Parsing source text is a collaborator's job; translation starts from this
//! closed set of variants and pattern-matches over it.

use vstd::prelude::*;

verus! {

/// A parsed type expression, as handed over by the source-language parser.
#[derive(Debug)]
pub enum TypeExpr {
    /// The unit type.
    Unit,
    /// A named type: the first path segment and any following segments, so a
    /// path always has at least one segment.
    Path { head: String, tail: Vec<String> },
    /// One level of indirection; `is_const` is the negation of the source
    /// expression's mutability and is evaluated independently per level.
    Ptr { is_const: bool, pointee: Box<TypeExpr> },
    /// A function-pointer type; `c_abi` records whether the source declared
    /// it with the C calling convention.
    BareFn { c_abi: bool, params: Vec<FnParam>, ret: Box<TypeExpr> },
}

/// One parameter of a function-pointer type: an optional name and a type.
#[derive(Debug)]
pub struct FnParam {
    pub name: Option<String>,
    pub ty: TypeExpr,
}

/// The character sequences of a list of path segments.
pub open spec fn seg_views(segs: Seq<String>) -> Seq<Seq<char>> {
    segs.map_values(|s: String| s@)
}

} // verus!
