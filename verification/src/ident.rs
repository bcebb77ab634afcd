//! Identifier sanitization: reduce an arbitrary name to a legal C identifier
//! fragment by dropping every character that is not an ASCII letter, digit or
//! underscore, keeping the survivors in their original order.

use vstd::prelude::*;
use vstd::string::StrSliceExecFns;
use vstd::string::StringExecFns;

verus! {

/// A character that may appear in a C identifier: ASCII letter, digit or
/// underscore.
pub open spec fn is_c_ident_char(c: char) -> bool {
    let v = c as u32;
    (65 <= v && v <= 90) || (97 <= v && v <= 122) || (48 <= v && v <= 57) || v == 95
}

/// The sanitized form of a name: the subsequence of its characters that are
/// legal in a C identifier.
pub open spec fn sanitised(s: Seq<char>) -> Seq<char> {
    s.filter(|c: char| is_c_ident_char(c))
}

fn ident_char(c: char) -> (r: bool)
    ensures
        r == is_c_ident_char(c),
{
    let v = c as u32;
    (65 <= v && v <= 90) || (97 <= v && v <= 122) || (48 <= v && v <= 57) || v == 95
}

/// Drop every character of `name` that is not an ASCII letter, digit or
/// underscore; the retained characters keep their relative order. The result
/// may be empty, and no uniqueness or keyword checking is done: both are the
/// caller's responsibility.
pub fn sanitise_id(name: &str) -> (r: String)
    ensures
        r@ == sanitised(name@),
{
    let n = name.unicode_len();
    let mut out = String::new();
    let mut i: usize = 0;
    while i < n
        invariant
            n as nat == name@.len(),
            i <= n,
            out@ == sanitised(name@.subrange(0, i as int)),
        decreases n - i,
    {
        let c = name.get_char(i);
        if ident_char(c) {
            let piece = name.substring_char(i, i + 1);
            out.append(piece);
        }
        proof {
            let pre = name@.subrange(0, i as int);
            let ext = name@.subrange(0, i + 1);
            assert(ext.drop_last() =~= pre);
            assert(ext.last() == name@[i as int]);
            reveal_with_fuel(Seq::filter, 2);
            if is_c_ident_char(name@[i as int]) {
                assert(sanitised(ext) =~= sanitised(pre).push(name@[i as int]));
            } else {
                assert(sanitised(ext) =~= sanitised(pre));
            }
        }
        i = i + 1;
    }
    proof {
        assert(name@.subrange(0, n as int) =~= name@);
    }
    out
}

/// Every character of a sanitized name is a legal C identifier character.
pub proof fn lemma_sanitised_chars_legal(s: Seq<char>)
    ensures
        forall|i: int| 0 <= i < sanitised(s).len() ==> is_c_ident_char(#[trigger] sanitised(s)[i]),
{
    broadcast use vstd::seq_lib::group_filter_ensures;

    assert forall|i: int| 0 <= i < sanitised(s).len() implies is_c_ident_char(
        #[trigger] sanitised(s)[i],
    ) by {
        assert(sanitised(s) == s.filter(|c: char| is_c_ident_char(c)));
    }
}

proof fn lemma_sanitised_all_legal_identity(s: Seq<char>)
    requires
        forall|i: int| 0 <= i < s.len() ==> is_c_ident_char(#[trigger] s[i]),
    ensures
        sanitised(s) == s,
    decreases s.len(),
{
    reveal_with_fuel(Seq::filter, 2);
    if s.len() == 0 {
        assert(sanitised(s) =~= s);
    } else {
        lemma_sanitised_all_legal_identity(s.drop_last());
        assert(is_c_ident_char(s.last()));
        assert(sanitised(s) =~= s.drop_last().push(s.last()));
        assert(s.drop_last().push(s.last()) =~= s);
    }
}

/// Sanitization is idempotent: sanitizing an already-sanitized name changes
/// nothing.
pub proof fn lemma_sanitise_idempotent(s: Seq<char>)
    ensures
        sanitised(sanitised(s)) == sanitised(s),
{
    lemma_sanitised_chars_legal(s);
    lemma_sanitised_all_legal_identity(sanitised(s));
}

/// Sanitizing the empty name yields the empty name.
pub proof fn lemma_sanitise_empty()
    ensures
        sanitised(Seq::<char>::empty()) == Seq::<char>::empty(),
{
    reveal_with_fuel(Seq::filter, 1);
    assert(sanitised(Seq::<char>::empty()) =~= Seq::<char>::empty());
}

} // verus!
