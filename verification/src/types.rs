//! The resolved C type model and its rendering to declarator strings.
//!
//! A `CType` is built fresh for each translation and rendered immediately: a
//! declarator string for the bare type, or a full declaration once a name is
//! supplied. A `Function` value can only be rendered with a name, since C has
//! no anonymous function-pointer declarator.

use vstd::prelude::*;
use vstd::string::StringExecFns;

verus! {

/// A fully-resolved C type.
#[derive(Debug, PartialEq, Eq)]
pub enum CType {
    /// The C `void` type.
    Void,
    /// A primitive C type spelled as a literal keyword or fixed-width token.
    Native(String),
    /// One level of indirection; `is_const` means the pointee is immutable
    /// through this pointer.
    Pointer { is_const: bool, pointee: Box<CType> },
    /// A function-pointer signature; parameter order is preserved.
    Function { ret: Box<CType>, params: Vec<CParam> },
    /// An opaque, previously-declared C type name, passed through verbatim.
    Named(String),
}

/// One parameter of a C function-pointer signature.
#[derive(Debug, PartialEq, Eq)]
pub struct CParam {
    /// The parameter name, if the source supplied one.
    pub name: Option<String>,
    /// The parameter's type.
    pub ty: CType,
}

/// Why a type expression could not be translated.
#[derive(Debug, Clone, Copy, PartialEq, Eq, Structural)]
pub enum TranslateError {
    /// The type expression has no defined mapping to C.
    UnsupportedType,
    /// A multi-segment name whose first segment is not the alias module.
    InvalidPath,
    /// A function-pointer type was rendered without a name to embed.
    MissingName,
}

/// True when no `Function` variant occurs anywhere in the type: exactly the
/// types that have an anonymous declarator.
pub open spec fn fn_free(c: CType) -> bool
    decreases c,
{
    match c {
        CType::Pointer { pointee, .. } => fn_free(*pointee),
        CType::Function { .. } => false,
        _ => true,
    }
}

/// True when the type can be rendered as a named declaration: a function
/// whose return and parameter types are function-free, or any function-free
/// type.
pub open spec fn renderable_named(c: CType) -> bool {
    match c {
        CType::Function { ret, params } => fn_free(*ret) && (forall|i: int|
            0 <= i < params@.len() ==> fn_free(#[trigger] params@[i].ty)),
        _ => fn_free(c),
    }
}

/// Wrap an already-rendered pointee declarator in one level of indirection:
/// append `" const"` when the level is const-qualified, then `"*"`. Reading
/// the result right to left gives C's constness order.
pub open spec fn compose_spec(inner: Seq<char>, is_const: bool) -> Seq<char> {
    inner + (if is_const {
        " const"@
    } else {
        Seq::<char>::empty()
    }) + "*"@
}

/// The anonymous declarator of a function-free type.
pub open spec fn render_anon_spec(c: CType) -> Seq<char>
    decreases c,
{
    match c {
        CType::Void => "void"@,
        CType::Native(tok) => tok@,
        CType::Named(id) => id@,
        CType::Pointer { is_const, pointee } => compose_spec(render_anon_spec(*pointee), is_const),
        CType::Function { .. } => Seq::<char>::empty(),
    }
}

/// One rendered parameter: its type's declarator, then a space and the
/// parameter name when one is present.
pub open spec fn render_cparam_spec(p: CParam) -> Seq<char> {
    render_anon_spec(p.ty) + (match p.name {
        Some(n) => " "@ + n@,
        None => Seq::<char>::empty(),
    })
}

/// A rendered parameter list, joined by `", "` in source order.
pub open spec fn render_cparams_spec(ps: Seq<CParam>) -> Seq<char>
    decreases ps.len(),
{
    if ps.len() == 0 {
        Seq::<char>::empty()
    } else if ps.len() == 1 {
        render_cparam_spec(ps[0])
    } else {
        render_cparams_spec(ps.drop_last()) + ", "@ + render_cparam_spec(ps.last())
    }
}

/// The full named declaration: for a function, the name is embedded in the
/// parenthesized function-pointer slot; for everything else, the anonymous
/// declarator followed by a space and the name.
pub open spec fn render_named_spec(c: CType, name: Seq<char>) -> Seq<char> {
    match c {
        CType::Function { ret, params } => render_anon_spec(*ret) + " (*"@ + name + ")("@
            + render_cparams_spec(params@) + ")"@,
        _ => render_anon_spec(c) + " "@ + name,
    }
}

impl CType {
    /// Render the bare declarator with no variable name. Yields `None` exactly
    /// when a function type occurs anywhere inside, since C cannot express an
    /// anonymous function-pointer declarator.
    pub fn anon_declarator(&self) -> (r: Option<String>)
        ensures
            r is Some <==> fn_free(*self),
            r matches Some(s) ==> s@ == render_anon_spec(*self),
        decreases *self,
    {
        match self {
            CType::Void => Some(String::from_str("void")),
            CType::Native(tok) => Some(tok.clone()),
            CType::Named(id) => Some(id.clone()),
            CType::Pointer { is_const, pointee } => match (**pointee).anon_declarator() {
                Some(inner) => {
                    let mut s = inner;
                    if *is_const {
                        s.append(" const");
                    }
                    s.append("*");
                    Some(s)
                },
                None => None,
            },
            CType::Function { .. } => None,
        }
    }

    /// Render the full declaration for `name`. Yields `None` exactly when a
    /// nested function type leaves the value unrenderable.
    pub fn named_declaration(&self, name: &str) -> (r: Option<String>)
        ensures
            r is Some <==> renderable_named(*self),
            r matches Some(s) ==> s@ == render_named_spec(*self, name@),
    {
        match self {
            CType::Function { ret, params } => match (**ret).anon_declarator() {
                None => None,
                Some(rd) => match rendered_params(params) {
                    None => None,
                    Some(pd) => {
                        let mut s = rd;
                        s.append(" (*");
                        s.append(name);
                        s.append(")(");
                        s.append(pd.as_str());
                        s.append(")");
                        Some(s)
                    },
                },
            },
            _ => match self.anon_declarator() {
                None => None,
                Some(d) => {
                    let mut s = d;
                    s.append(" ");
                    s.append(name);
                    Some(s)
                },
            },
        }
    }
}

fn rendered_param(p: &CParam) -> (r: Option<String>)
    ensures
        r is Some <==> fn_free(p.ty),
        r matches Some(s) ==> s@ == render_cparam_spec(*p),
{
    match p.ty.anon_declarator() {
        None => None,
        Some(d) => {
            let mut s = d;
            match &p.name {
                Some(n) => {
                    s.append(" ");
                    s.append(n.as_str());
                },
                None => {},
            }
            Some(s)
        },
    }
}

fn rendered_params(ps: &Vec<CParam>) -> (r: Option<String>)
    ensures
        r is Some <==> (forall|i: int| 0 <= i < ps@.len() ==> fn_free(#[trigger] ps@[i].ty)),
        r matches Some(s) ==> s@ == render_cparams_spec(ps@),
{
    let mut out = String::new();
    let mut i: usize = 0;
    while i < ps.len()
        invariant
            i <= ps@.len(),
            forall|j: int| 0 <= j < i ==> fn_free(#[trigger] ps@[j].ty),
            out@ == render_cparams_spec(ps@.subrange(0, i as int)),
        decreases ps@.len() - i,
    {
        match rendered_param(&ps[i]) {
            None => {
                return None;
            },
            Some(d) => {
                if i > 0 {
                    out.append(", ");
                }
                out.append(d.as_str());
            },
        }
        proof {
            let pre = ps@.subrange(0, i as int);
            let ext = ps@.subrange(0, i + 1);
            assert(ext.drop_last() =~= pre);
            assert(ext.last() == ps@[i as int]);
        }
        i = i + 1;
    }
    proof {
        assert(ps@.subrange(0, ps@.len() as int) =~= ps@);
    }
    Some(out)
}

} // verus!
