//! Translation of source-language type expressions into C declarator syntax.
//!
//! The crate turns an already-parsed type expression (primitives, pointer
//! chains with per-level constness, C-ABI function pointers, opaque named
//! types) into the C declarator string that describes the same type, plus the
//! identifier-sanitization routine used to make arbitrary names legal C
//! identifier fragments.

pub mod expr;
pub mod ident;
pub mod laws;
pub mod resolve;
pub mod translate;
pub mod types;
