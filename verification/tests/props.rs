use cheddar::expr::FnParam;
use cheddar::expr::TypeExpr;
use cheddar::translate::anon_rust_to_c;
use cheddar::translate::rust_to_c;
use cheddar::types::CParam;
use cheddar::types::CType;
use cheddar::types::TranslateError;

fn path1(seg: &str) -> TypeExpr {
    TypeExpr::Path { head: seg.to_string(), tail: vec![] }
}

fn path2(first: &str, second: &str) -> TypeExpr {
    TypeExpr::Path { head: first.to_string(), tail: vec![second.to_string()] }
}

fn cptr(pointee: TypeExpr) -> TypeExpr {
    TypeExpr::Ptr { is_const: true, pointee: Box::new(pointee) }
}

fn mptr(pointee: TypeExpr) -> TypeExpr {
    TypeExpr::Ptr { is_const: false, pointee: Box::new(pointee) }
}

#[test]
fn sanitise_is_idempotent_on_samples() {
    for sample in ["filename.h", "!@£$%^&*()_+", "", "already_clean_123", "a-b.c d"] {
        let once = cheddar::ident::sanitise_id(sample);
        let twice = cheddar::ident::sanitise_id(&once);
        assert_eq!(once, twice);
        assert!(once.chars().all(|c| c.is_ascii_alphanumeric() || c == '_'));
    }
}

#[test]
fn named_is_anonymous_plus_name() {
    let cases = [
        path1("u8"),
        cptr(path1("f64")),
        mptr(cptr(path2("libc", "c_int"))),
        path1("MyType"),
        TypeExpr::Unit,
    ];
    for ty in &cases {
        let anon = anon_rust_to_c(ty).unwrap().anon_declarator().unwrap();
        let named = rust_to_c(ty, "n").unwrap();
        assert_eq!(named, format!("{} n", anon));
    }
}

#[test]
fn anonymous_function_pointer_is_missing_name() {
    let fn_ty = TypeExpr::BareFn {
        c_abi: true,
        params: vec![],
        ret: Box::new(TypeExpr::Unit),
    };
    assert_eq!(anon_rust_to_c(&fn_ty), Err(TranslateError::MissingName));

    // A pointer to a function type fails the same way: the name cannot reach
    // the inner parenthesized slot.
    let ptr_to_fn = mptr(TypeExpr::BareFn {
        c_abi: true,
        params: vec![],
        ret: Box::new(TypeExpr::Unit),
    });
    assert!(anon_rust_to_c(&ptr_to_fn).is_err());
    assert_eq!(rust_to_c(&ptr_to_fn, "f"), Err(TranslateError::MissingName));
}

#[test]
fn non_c_abi_function_pointer_is_unsupported() {
    let fn_ty = TypeExpr::BareFn {
        c_abi: false,
        params: vec![],
        ret: Box::new(TypeExpr::Unit),
    };
    assert_eq!(rust_to_c(&fn_ty, "f"), Err(TranslateError::UnsupportedType));
}

#[test]
fn foreign_multi_segment_path_is_invalid() {
    let ty = path2("my_mod", "MyType");
    assert_eq!(anon_rust_to_c(&ty).unwrap_err(), TranslateError::InvalidPath);
    assert_eq!(rust_to_c(&ty, "x").unwrap_err(), TranslateError::InvalidPath);

    let deep = TypeExpr::Path {
        head: "a".to_string(),
        tail: vec!["b".to_string(), "c".to_string()],
    };
    assert_eq!(anon_rust_to_c(&deep).unwrap_err(), TranslateError::InvalidPath);
}

#[test]
fn libc_member_not_in_table_passes_through() {
    let ty = path2("libc", "time_t");
    assert_eq!(
        anon_rust_to_c(&ty).unwrap().anon_declarator().unwrap(),
        "time_t"
    );
}

#[test]
fn function_pointer_with_unnamed_and_many_params() {
    let fn_ty = TypeExpr::BareFn {
        c_abi: true,
        params: vec![
            FnParam { name: None, ty: path2("libc", "c_int") },
            FnParam { name: Some("buf".to_string()), ty: mptr(path1("u8")) },
        ],
        ret: Box::new(path1("i32")),
    };
    assert_eq!(
        rust_to_c(&fn_ty, "cb").unwrap(),
        "int32_t (*cb)(int, uint8_t* buf)"
    );
}

#[test]
fn function_pointer_with_no_params() {
    let fn_ty = TypeExpr::BareFn {
        c_abi: true,
        params: vec![],
        ret: Box::new(TypeExpr::Unit),
    };
    assert_eq!(rust_to_c(&fn_ty, "tick").unwrap(), "void (*tick)()");
}

#[test]
fn function_pointer_with_bad_param_reports_param_error() {
    let fn_ty = TypeExpr::BareFn {
        c_abi: true,
        params: vec![FnParam { name: Some("x".to_string()), ty: path2("other", "T") }],
        ret: Box::new(TypeExpr::Unit),
    };
    assert_eq!(rust_to_c(&fn_ty, "f"), Err(TranslateError::InvalidPath));
}

#[test]
fn pointer_chain_star_counts() {
    // One star per indirection level, each preceded by " const" exactly for
    // the const-qualified levels, innermost level leftmost.
    let ty = cptr(mptr(cptr(path1("u8"))));
    let decl = anon_rust_to_c(&ty).unwrap().anon_declarator().unwrap();
    assert_eq!(decl, "uint8_t const** const*");
    assert_eq!(decl.matches('*').count(), 3);

    let ty = mptr(mptr(mptr(mptr(path1("u8")))));
    let decl = anon_rust_to_c(&ty).unwrap().anon_declarator().unwrap();
    assert_eq!(decl.matches('*').count(), 4);
    assert!(!decl.contains("const"));
}

#[test]
fn renderer_refuses_anonymous_function_value() {
    let f = CType::Function {
        ret: Box::new(CType::Void),
        params: vec![CParam { name: None, ty: CType::Native("int".to_string()) }],
    };
    assert!(f.anon_declarator().is_none());
    assert_eq!(f.named_declaration("g").unwrap(), "void (*g)(int)");
}

#[test]
fn opaque_names_pass_through_unvalidated() {
    // Opaque single-segment names are not checked against any symbol table,
    // and are not sanitized either: translation trusts the parser's name.
    let ty = path1("SomeType");
    assert_eq!(
        anon_rust_to_c(&ty).unwrap(),
        CType::Named("SomeType".to_string())
    );
}
