//! Type and path resolution: the two disjoint token tables and the rule for
//! qualified names.
//!
//! A single-segment name resolves through the fixed-width primitive table, or
//! passes through verbatim as an opaque named type. A multi-segment name is
//! accepted only when its first segment is the native-ABI alias module
//! `libc`: its final segment then resolves through the alias table, with
//! unlisted members passed through verbatim. Every other multi-segment name
//! is rejected, since resolving it would need cross-module analysis this
//! crate does not perform.

use vstd::prelude::*;
use vstd::string::StringExecFns;

use crate::expr::seg_views;
use crate::types::CType;
use crate::types::TranslateError;

verus! {

/// The fixed-width primitive table: source primitive names mapped to C
/// keyword or `stdint.h` tokens. Unlisted names are not primitives.
pub open spec fn prim_token_spec(name: Seq<char>) -> Option<Seq<char>> {
    if name == "f32"@ {
        Some("float"@)
    } else if name == "f64"@ {
        Some("double"@)
    } else if name == "i8"@ {
        Some("int8_t"@)
    } else if name == "i16"@ {
        Some("int16_t"@)
    } else if name == "i32"@ {
        Some("int32_t"@)
    } else if name == "i64"@ {
        Some("int64_t"@)
    } else if name == "isize"@ {
        Some("intptr_t"@)
    } else if name == "u8"@ {
        Some("uint8_t"@)
    } else if name == "u16"@ {
        Some("uint16_t"@)
    } else if name == "u32"@ {
        Some("uint32_t"@)
    } else if name == "u64"@ {
        Some("uint64_t"@)
    } else if name == "usize"@ {
        Some("uintptr_t"@)
    } else {
        None
    }
}

/// The native-ABI alias table: members of the alias module mapped to literal
/// C spellings; members not listed (such as `size_t`, `dirent`, `FILE`) pass
/// through verbatim as pre-declared type names.
pub open spec fn libc_token_spec(name: Seq<char>) -> Seq<char> {
    if name == "c_void"@ {
        "void"@
    } else if name == "c_float"@ {
        "float"@
    } else if name == "c_double"@ {
        "double"@
    } else if name == "c_char"@ {
        "char"@
    } else if name == "c_schar"@ {
        "signed char"@
    } else if name == "c_uchar"@ {
        "unsigned char"@
    } else if name == "c_short"@ {
        "short"@
    } else if name == "c_ushort"@ {
        "unsigned short"@
    } else if name == "c_int"@ {
        "int"@
    } else if name == "c_uint"@ {
        "unsigned int"@
    } else if name == "c_long"@ {
        "long"@
    } else if name == "c_ulong"@ {
        "unsigned long"@
    } else if name == "c_longlong"@ {
        "long long"@
    } else if name == "c_ulonglong"@ {
        "unsigned long long"@
    } else {
        name
    }
}

/// The declarator token a path resolves to, or the error it is rejected
/// with. `head` is the first segment, `tail` the following ones.
pub open spec fn path_decl_spec(head: Seq<char>, tail: Seq<Seq<char>>) -> Result<
    Seq<char>,
    TranslateError,
> {
    if tail.len() == 0 {
        match prim_token_spec(head) {
            Some(tok) => Ok(tok),
            None => Ok(head),
        }
    } else if head == "libc"@ {
        Ok(libc_token_spec(tail.last()))
    } else {
        Err(TranslateError::InvalidPath)
    }
}

/// The `CType` a successfully resolved path turns into: `Native` for a table
/// hit, `Named` for an opaque single-segment name.
pub open spec fn path_ctype_of(head: Seq<char>, tail: Seq<Seq<char>>, c: CType) -> bool {
    if tail.len() == 0 {
        match prim_token_spec(head) {
            Some(tok) => c matches CType::Native(s) && s@ == tok,
            None => c matches CType::Named(s) && s@ == head,
        }
    } else if head == "libc"@ {
        c matches CType::Native(s) && s@ == libc_token_spec(tail.last())
    } else {
        false
    }
}

fn seg_is(seg: &String, lit: &str) -> (r: bool)
    ensures
        r == (seg@ == lit@),
{
    let other = String::from_str(lit);
    seg.eq(&other)
}

fn prim_token(seg: &String) -> (r: Option<String>)
    ensures
        r is Some <==> prim_token_spec(seg@) is Some,
        r matches Some(t) ==> prim_token_spec(seg@) == Some(t@),
{
    if seg_is(seg, "f32") {
        Some(String::from_str("float"))
    } else if seg_is(seg, "f64") {
        Some(String::from_str("double"))
    } else if seg_is(seg, "i8") {
        Some(String::from_str("int8_t"))
    } else if seg_is(seg, "i16") {
        Some(String::from_str("int16_t"))
    } else if seg_is(seg, "i32") {
        Some(String::from_str("int32_t"))
    } else if seg_is(seg, "i64") {
        Some(String::from_str("int64_t"))
    } else if seg_is(seg, "isize") {
        Some(String::from_str("intptr_t"))
    } else if seg_is(seg, "u8") {
        Some(String::from_str("uint8_t"))
    } else if seg_is(seg, "u16") {
        Some(String::from_str("uint16_t"))
    } else if seg_is(seg, "u32") {
        Some(String::from_str("uint32_t"))
    } else if seg_is(seg, "u64") {
        Some(String::from_str("uint64_t"))
    } else if seg_is(seg, "usize") {
        Some(String::from_str("uintptr_t"))
    } else {
        None
    }
}

fn libc_token(seg: &String) -> (r: String)
    ensures
        r@ == libc_token_spec(seg@),
{
    if seg_is(seg, "c_void") {
        String::from_str("void")
    } else if seg_is(seg, "c_float") {
        String::from_str("float")
    } else if seg_is(seg, "c_double") {
        String::from_str("double")
    } else if seg_is(seg, "c_char") {
        String::from_str("char")
    } else if seg_is(seg, "c_schar") {
        String::from_str("signed char")
    } else if seg_is(seg, "c_uchar") {
        String::from_str("unsigned char")
    } else if seg_is(seg, "c_short") {
        String::from_str("short")
    } else if seg_is(seg, "c_ushort") {
        String::from_str("unsigned short")
    } else if seg_is(seg, "c_int") {
        String::from_str("int")
    } else if seg_is(seg, "c_uint") {
        String::from_str("unsigned int")
    } else if seg_is(seg, "c_long") {
        String::from_str("long")
    } else if seg_is(seg, "c_ulong") {
        String::from_str("unsigned long")
    } else if seg_is(seg, "c_longlong") {
        String::from_str("long long")
    } else if seg_is(seg, "c_ulonglong") {
        String::from_str("unsigned long long")
    } else {
        seg.clone()
    }
}

/// Resolve a path to its `CType`, or reject it.
pub fn path_to_c(head: &String, tail: &Vec<String>) -> (r: Result<CType, TranslateError>)
    ensures
        match r {
            Ok(c) => path_decl_spec(head@, seg_views(tail@)) is Ok && path_ctype_of(
                head@,
                seg_views(tail@),
                c,
            ),
            Err(e) => path_decl_spec(head@, seg_views(tail@)) == Err::<Seq<char>, TranslateError>(
                e,
            ),
        },
{
    if tail.len() == 0 {
        match prim_token(head) {
            Some(t) => Ok(CType::Native(t)),
            None => Ok(CType::Named(head.clone())),
        }
    } else if seg_is(head, "libc") {
        let last = &tail[tail.len() - 1];
        proof {
            assert(seg_views(tail@).last() == tail@.last()@);
        }
        Ok(CType::Native(libc_token(last)))
    } else {
        Err(TranslateError::InvalidPath)
    }
}

} // verus!
