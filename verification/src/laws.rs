//! Properties of the translation as a whole, stated over the specification
//! functions and proved once: how naming relates to anonymous translation,
//! how pointer chains render, and which expressions are always rejected.

use vstd::prelude::*;

use crate::expr::TypeExpr;
use crate::translate::anon_decl_spec;
use crate::translate::named_decl_spec;
use crate::types::TranslateError;
use crate::types::compose_spec;

verus! {

/// Naming a non-function type appends a space and the name to its anonymous
/// declarator, and changes nothing about whether translation succeeds.
pub proof fn lemma_named_appends_name(t: TypeExpr, name: Seq<char>)
    requires
        !(t is BareFn),
    ensures
        anon_decl_spec(t) matches Ok(d) ==> named_decl_spec(t, name) == Ok::<
            Seq<char>,
            TranslateError,
        >(d + " "@ + name),
        anon_decl_spec(t) matches Err(e) ==> named_decl_spec(t, name) == Err::<
            Seq<char>,
            TranslateError,
        >(e),
{
}

/// The base (non-pointer) type at the bottom of a pointer chain; the
/// expression itself when it is not a pointer.
pub open spec fn chain_base(t: TypeExpr) -> TypeExpr
    decreases t,
{
    match t {
        TypeExpr::Ptr { pointee, .. } => chain_base(*pointee),
        _ => t,
    }
}

/// The constness flags of a pointer chain, innermost level first.
pub open spec fn chain_flags(t: TypeExpr) -> Seq<bool>
    decreases t,
{
    match t {
        TypeExpr::Ptr { is_const, pointee } => chain_flags(*pointee).push(is_const),
        _ => Seq::<bool>::empty(),
    }
}

/// What one indirection level appends to the declarator: `" const*"` for a
/// const-qualified level, `"*"` otherwise.
pub open spec fn level_marks(is_const: bool) -> Seq<char> {
    if is_const {
        " const*"@
    } else {
        "*"@
    }
}

/// Everything a pointer chain appends after the base declarator: each
/// level's marks in order, innermost level first.
pub open spec fn chain_marks(flags: Seq<bool>) -> Seq<char>
    decreases flags.len(),
{
    if flags.len() == 0 {
        Seq::<char>::empty()
    } else {
        chain_marks(flags.drop_last()) + level_marks(flags.last())
    }
}

/// The number of `*` characters in a declarator.
pub open spec fn star_count(s: Seq<char>) -> nat
    decreases s.len(),
{
    if s.len() == 0 {
        0
    } else {
        star_count(s.drop_last()) + (if s.last() == '*' {
            1nat
        } else {
            0nat
        })
    }
}

proof fn lemma_compose_marks(d: Seq<char>, is_const: bool)
    ensures
        compose_spec(d, is_const) == d + level_marks(is_const),
{
    reveal_strlit(" const");
    reveal_strlit("*");
    reveal_strlit(" const*");
    assert(compose_spec(d, is_const) =~= d + level_marks(is_const));
}

/// A pointer chain renders bottom-up: the base declarator first, then one
/// level of marks per indirection, innermost first, so constness reads right
/// to left. A chain over an unsupported base fails with the base's error.
pub proof fn lemma_pointer_chain(t: TypeExpr)
    ensures
        anon_decl_spec(chain_base(t)) matches Ok(d) ==> anon_decl_spec(t) == Ok::<
            Seq<char>,
            TranslateError,
        >(d + chain_marks(chain_flags(t))),
        anon_decl_spec(chain_base(t)) matches Err(e) ==> anon_decl_spec(t) == Err::<
            Seq<char>,
            TranslateError,
        >(e),
    decreases t,
{
    match t {
        TypeExpr::Ptr { is_const, pointee } => {
            lemma_pointer_chain(*pointee);
            if anon_decl_spec(chain_base(t)) is Ok {
                let d = anon_decl_spec(chain_base(t))->Ok_0;
                let below = d + chain_marks(chain_flags(*pointee));
                lemma_compose_marks(below, is_const);
                assert(chain_flags(*pointee).push(is_const).drop_last() =~= chain_flags(
                    *pointee,
                ));
                assert(chain_flags(*pointee).push(is_const).last() == is_const);
                assert(d + chain_marks(chain_flags(t)) =~= below + level_marks(is_const));
            }
        },
        _ => {
            if anon_decl_spec(t) is Ok {
                let d = anon_decl_spec(t)->Ok_0;
                assert(d + chain_marks(chain_flags(t)) =~= d);
            }
        },
    }
}

proof fn lemma_star_count_add(a: Seq<char>, b: Seq<char>)
    ensures
        star_count(a + b) == star_count(a) + star_count(b),
    decreases b.len(),
{
    if b.len() == 0 {
        assert(a + b =~= a);
    } else {
        lemma_star_count_add(a, b.drop_last());
        assert((a + b).drop_last() =~= a + b.drop_last());
        assert((a + b).last() == b.last());
    }
}

proof fn lemma_star_count_none(s: Seq<char>)
    requires
        forall|i: int| 0 <= i < s.len() ==> s[i] != '*',
    ensures
        star_count(s) == 0,
    decreases s.len(),
{
    if s.len() > 0 {
        lemma_star_count_none(s.drop_last());
    }
}

proof fn lemma_level_marks_one_star(is_const: bool)
    ensures
        star_count(level_marks(is_const)) == 1,
{
    reveal_strlit(" const*");
    reveal_strlit("*");
    let s = level_marks(is_const);
    assert(s.last() == '*');
    lemma_star_count_none(s.drop_last());
}

/// A chain's marks hold exactly one `*` per indirection level.
pub proof fn lemma_chain_marks_star_count(flags: Seq<bool>)
    ensures
        star_count(chain_marks(flags)) == flags.len(),
    decreases flags.len(),
{
    if flags.len() > 0 {
        lemma_chain_marks_star_count(flags.drop_last());
        lemma_star_count_add(chain_marks(flags.drop_last()), level_marks(flags.last()));
        lemma_level_marks_one_star(flags.last());
    }
}

/// A rendered pointer chain holds exactly one `*` per indirection level
/// beyond whatever the base declarator holds; over a star-free base, exactly
/// one per level.
pub proof fn lemma_chain_declarator_stars(t: TypeExpr)
    ensures
        anon_decl_spec(chain_base(t)) matches Ok(d) ==> (anon_decl_spec(t) matches Ok(w)
            && star_count(w) == star_count(d) + chain_flags(t).len()),
        anon_decl_spec(chain_base(t)) matches Ok(d) && star_count(d) == 0 ==> (anon_decl_spec(t)
            matches Ok(w) && star_count(w) == chain_flags(t).len()),
{
    lemma_pointer_chain(t);
    if anon_decl_spec(chain_base(t)) is Ok {
        let d = anon_decl_spec(chain_base(t))->Ok_0;
        lemma_star_count_add(d, chain_marks(chain_flags(t)));
        lemma_chain_marks_star_count(chain_flags(t));
    }
}

/// A multi-segment path whose first segment is not the alias module fails
/// both anonymous and named translation, whatever the remaining segments
/// are.
pub proof fn lemma_foreign_path_rejected(t: TypeExpr, name: Seq<char>)
    requires
        t matches TypeExpr::Path { head, tail } && tail@.len() > 0 && head@ != "libc"@,
    ensures
        anon_decl_spec(t) == Err::<Seq<char>, TranslateError>(TranslateError::InvalidPath),
        named_decl_spec(t, name) == Err::<Seq<char>, TranslateError>(TranslateError::InvalidPath),
{
}

/// Anonymous translation of any function-pointer type fails for want of a
/// name, whatever its signature or calling convention.
pub proof fn lemma_anon_function_rejected(t: TypeExpr)
    requires
        t is BareFn,
    ensures
        anon_decl_spec(t) == Err::<Seq<char>, TranslateError>(TranslateError::MissingName),
{
}

} // verus!
