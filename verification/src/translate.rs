//! The declaration renderer: the two public entry points that turn a type
//! expression into a C declarator string, anonymously or under a name.
//!
//! Translation is a single recursive dispatch over the expression variant:
//! the base type resolves first, then each indirection layer wraps the
//! already-rendered declarator from the innermost level outward, which yields
//! C's right-to-left constness reading. A function-pointer type can only be
//! rendered when a name is supplied, since C has no anonymous
//! function-pointer declarator.

use vstd::prelude::*;

use crate::expr::FnParam;
use crate::expr::TypeExpr;
use crate::expr::seg_views;
use crate::resolve::path_ctype_of;
use crate::resolve::path_decl_spec;
use crate::resolve::path_to_c;
use crate::types::CParam;
use crate::types::CType;
use crate::types::TranslateError;
use crate::types::compose_spec;
use crate::types::fn_free;
use crate::types::render_anon_spec;
use crate::types::render_cparam_spec;
use crate::types::render_cparams_spec;

verus! {

/// The anonymous declarator of a type expression, or the error the
/// expression is rejected with. Any function-pointer type fails with
/// `MissingName`: without a name there is no way to fill the parenthesized
/// slot.
pub open spec fn anon_decl_spec(t: TypeExpr) -> Result<Seq<char>, TranslateError>
    decreases t,
{
    match t {
        TypeExpr::Unit => Ok("void"@),
        TypeExpr::Path { head, tail } => path_decl_spec(head@, seg_views(tail@)),
        TypeExpr::Ptr { is_const, pointee } => match anon_decl_spec(*pointee) {
            Ok(d) => Ok(compose_spec(d, is_const)),
            Err(e) => Err(e),
        },
        TypeExpr::BareFn { .. } => Err(TranslateError::MissingName),
    }
}

/// One rendered parameter of a function-pointer type: the parameter type's
/// anonymous declarator, then a space and the parameter name when one is
/// present.
pub open spec fn param_decl_spec(p: FnParam) -> Result<Seq<char>, TranslateError> {
    match anon_decl_spec(p.ty) {
        Ok(d) => Ok(
            d + (match p.name {
                Some(n) => " "@ + n@,
                None => Seq::<char>::empty(),
            }),
        ),
        Err(e) => Err(e),
    }
}

/// A rendered parameter list, joined by `", "` in source order; the leftmost
/// failing parameter decides the error.
pub open spec fn params_decl_spec(ps: Seq<FnParam>) -> Result<Seq<char>, TranslateError>
    decreases ps.len(),
{
    if ps.len() == 0 {
        Ok(Seq::<char>::empty())
    } else if ps.len() == 1 {
        param_decl_spec(ps[0])
    } else {
        match params_decl_spec(ps.drop_last()) {
            Err(e) => Err(e),
            Ok(rest) => match param_decl_spec(ps.last()) {
                Err(e) => Err(e),
                Ok(d) => Ok(rest + ", "@ + d),
            },
        }
    }
}

/// The full named declaration of a type expression, or the error it is
/// rejected with. A C-ABI function pointer embeds the name in the
/// parenthesized slot; a function type without the C calling convention is
/// rejected as unsupported; every other expression appends the name to its
/// anonymous declarator.
pub open spec fn named_decl_spec(t: TypeExpr, name: Seq<char>) -> Result<
    Seq<char>,
    TranslateError,
> {
    match t {
        TypeExpr::BareFn { c_abi, params, ret } => if !c_abi {
            Err(TranslateError::UnsupportedType)
        } else {
            match anon_decl_spec(*ret) {
                Err(e) => Err(e),
                Ok(rd) => match params_decl_spec(params@) {
                    Err(e) => Err(e),
                    Ok(pd) => Ok(rd + " (*"@ + name + ")("@ + pd + ")"@),
                },
            }
        },
        _ => match anon_decl_spec(t) {
            Ok(d) => Ok(d + " "@ + name),
            Err(e) => Err(e),
        },
    }
}

/// The `CType` a successfully translated expression turns into.
pub open spec fn ctype_of(t: TypeExpr, c: CType) -> bool
    decreases t,
{
    match t {
        TypeExpr::Unit => c == CType::Void,
        TypeExpr::Path { head, tail } => path_ctype_of(head@, seg_views(tail@), c),
        TypeExpr::Ptr { is_const, pointee } => c matches CType::Pointer {
            is_const: pc,
            pointee: inner,
        } && pc == is_const && ctype_of(*pointee, *inner),
        TypeExpr::BareFn { .. } => false,
    }
}

/// The `CParam` a translated function parameter turns into.
pub open spec fn cparam_of(p: FnParam, cp: CParam) -> bool {
    &&& ctype_of(p.ty, cp.ty)
    &&& match (p.name, cp.name) {
        (Some(a), Some(b)) => a@ == b@,
        (None, None) => true,
        _ => false,
    }
}

/// A translated `CType` is function-free and renders to exactly the
/// declarator the expression-level translation promises.
pub proof fn lemma_ctype_render(t: TypeExpr, c: CType)
    requires
        ctype_of(t, c),
    ensures
        fn_free(c),
        anon_decl_spec(t) == Ok::<Seq<char>, TranslateError>(render_anon_spec(c)),
    decreases t,
{
    match t {
        TypeExpr::Ptr { is_const, pointee } => {
            let inner = c->Pointer_pointee;
            lemma_ctype_render(*pointee, *inner);
        },
        _ => {},
    }
}

proof fn lemma_cparam_render(p: FnParam, cp: CParam)
    requires
        cparam_of(p, cp),
    ensures
        fn_free(cp.ty),
        param_decl_spec(p) == Ok::<Seq<char>, TranslateError>(render_cparam_spec(cp)),
{
    lemma_ctype_render(p.ty, cp.ty);
}

proof fn lemma_cparams_render(ps: Seq<FnParam>, cps: Seq<CParam>)
    requires
        ps.len() == cps.len(),
        forall|j: int| 0 <= j < ps.len() ==> cparam_of(#[trigger] ps[j], cps[j]),
    ensures
        forall|j: int| 0 <= j < cps.len() ==> fn_free(#[trigger] cps[j].ty),
        params_decl_spec(ps) == Ok::<Seq<char>, TranslateError>(render_cparams_spec(cps)),
    decreases ps.len(),
{
    assert forall|j: int| 0 <= j < cps.len() implies fn_free(#[trigger] cps[j].ty) by {
        lemma_cparam_render(ps[j], cps[j]);
    }
    if ps.len() == 0 {
    } else if ps.len() == 1 {
        lemma_cparam_render(ps[0], cps[0]);
    } else {
        lemma_cparams_render(ps.drop_last(), cps.drop_last());
        lemma_cparam_render(ps.last(), cps.last());
    }
}

/// If the parameters before `i` translate and parameter `i` fails, the whole
/// list fails with parameter `i`'s error.
proof fn lemma_params_first_err(ps: Seq<FnParam>, i: int)
    requires
        0 <= i < ps.len(),
        params_decl_spec(ps.subrange(0, i)) is Ok,
        param_decl_spec(ps[i]) is Err,
    ensures
        params_decl_spec(ps) == Err::<Seq<char>, TranslateError>(param_decl_spec(ps[i])->Err_0),
    decreases ps.len(),
{
    if i == ps.len() - 1 {
        if ps.len() == 1 {
        } else {
            assert(ps.drop_last() =~= ps.subrange(0, i));
        }
    } else {
        assert(ps.drop_last().subrange(0, i) =~= ps.subrange(0, i));
        assert(ps.drop_last()[i] == ps[i]);
        lemma_params_first_err(ps.drop_last(), i);
    }
}

/// Translate a type expression to its `CType` with no name attached. Fails
/// exactly where the expression-level specification fails; on success the
/// result is a faithful, function-free translation of the expression.
pub fn anon_rust_to_c(ty: &TypeExpr) -> (r: Result<CType, TranslateError>)
    ensures
        match r {
            Ok(c) => ctype_of(*ty, c) && fn_free(c) && anon_decl_spec(*ty) == Ok::<
                Seq<char>,
                TranslateError,
            >(render_anon_spec(c)),
            Err(e) => anon_decl_spec(*ty) == Err::<Seq<char>, TranslateError>(e),
        },
    decreases *ty,
{
    let r = match ty {
        TypeExpr::Unit => Ok(CType::Void),
        TypeExpr::Path { head, tail } => path_to_c(head, tail),
        TypeExpr::Ptr { is_const, pointee } => match anon_rust_to_c(&**pointee) {
            Ok(inner) => Ok(CType::Pointer { is_const: *is_const, pointee: Box::new(inner) }),
            Err(e) => Err(e),
        },
        TypeExpr::BareFn { .. } => Err(TranslateError::MissingName),
    };
    proof {
        if r is Ok {
            lemma_ctype_render(*ty, r->Ok_0);
        }
    }
    r
}

/// Translate a type expression to the full C declaration of `assoc`. For a
/// C-ABI function pointer the name is embedded in the parenthesized slot;
/// for every other supported expression the result is the anonymous
/// declarator, a space, and the name.
#[verifier::loop_isolation(false)]
pub fn rust_to_c(ty: &TypeExpr, assoc: &str) -> (r: Result<String, TranslateError>)
    ensures
        match r {
            Ok(s) => named_decl_spec(*ty, assoc@) == Ok::<Seq<char>, TranslateError>(s@),
            Err(e) => named_decl_spec(*ty, assoc@) == Err::<Seq<char>, TranslateError>(e),
        },
{
    match ty {
        TypeExpr::BareFn { c_abi, params, ret } => {
            if !*c_abi {
                return Err(TranslateError::UnsupportedType);
            }
            let rc = match anon_rust_to_c(&**ret) {
                Ok(c) => c,
                Err(e) => {
                    return Err(e);
                },
            };
            let mut cparams: Vec<CParam> = Vec::new();
            let mut i: usize = 0;
            while i < params.len()
                invariant
                    i <= params@.len(),
                    cparams@.len() == i as int,
                    forall|j: int|
                        0 <= j < i ==> cparam_of(#[trigger] params@[j], cparams@[j]),
                decreases params@.len() - i,
            {
                let p = &params[i];
                match anon_rust_to_c(&p.ty) {
                    Err(e) => {
                        proof {
                            lemma_cparams_render(params@.subrange(0, i as int), cparams@);
                            lemma_params_first_err(params@, i as int);
                        }
                        return Err(e);
                    },
                    Ok(ct) => {
                        let nm = match &p.name {
                            Some(n) => Some(n.clone()),
                            None => None,
                        };
                        cparams.push(CParam { name: nm, ty: ct });
                    },
                }
                i = i + 1;
            }
            proof {
                assert(params@.subrange(0, params@.len() as int) =~= params@);
                lemma_cparams_render(params@, cparams@);
                lemma_ctype_render(**ret, rc);
            }
            let f = CType::Function { ret: Box::new(rc), params: cparams };
            match f.named_declaration(assoc) {
                Some(s) => Ok(s),
                None => Err(TranslateError::MissingName),
            }
        },
        _ => {
            let c = match anon_rust_to_c(ty) {
                Ok(c) => c,
                Err(e) => {
                    return Err(e);
                },
            };
            proof {
                lemma_ctype_render(*ty, c);
            }
            match c.named_declaration(assoc) {
                Some(s) => Ok(s),
                None => Err(TranslateError::MissingName),
            }
        },
    }
}

} // verus!
