use monadicast::ast::{Declaration, Expr, Pattern, RawPointer, TypeShape, UnaryOp};
use monadicast::lattice::RustPointerType;
use monadicast::raw_pointers::{PhaseError, RawPointerSanitizer, SiteRewrite};

fn path(name: &str) -> Expr {
    Expr::Path { qualified: false, segments: vec![name.to_string()] }
}

fn ptr_decl(name: &str, mutable: bool) -> Declaration {
    Declaration {
        pat: Pattern::Ident(name.to_string()),
        ty: TypeShape::Ptr(RawPointer { mutable, pointee: "i32".to_string() }),
    }
}

fn call(receiver: Expr, method: &str) -> Expr {
    Expr::MethodCall {
        receiver: Box::new(receiver),
        method: method.to_string(),
        args: vec![path("i")],
    }
}

fn deref_assign(receiver: Expr, method: &str, value: Expr) -> Expr {
    Expr::Assign {
        left: Box::new(Expr::Unary { op: UnaryOp::Deref, operand: Box::new(call(receiver, method)) }),
        right: Box::new(value),
    }
}

#[test]
fn parameter_only_read_is_immutable_reference() {
    let ds = vec![ptr_decl("p", false)];
    let es = vec![call(path("p"), "read")];
    let a = RawPointerSanitizer::run(&ds, &es);
    let p = "p".to_string();
    assert_eq!(a.safe_type_of(&p), Ok(Some(RustPointerType::ImmutableReference)));
    assert_eq!(a.rewrite_target(&p), Ok(Some(RustPointerType::ImmutableReference)));
    assert!(!a.bindings()[0].accesses.write);
}

#[test]
fn write_through_offset_is_undefined_and_left_raw() {
    let ds = vec![ptr_decl("q", true)];
    let es = vec![deref_assign(path("q"), "offset", path("v"))];
    let a = RawPointerSanitizer::run(&ds, &es);
    let q = "q".to_string();
    let acc = a.bindings()[0].accesses;
    assert!(acc.write && acc.offset_add && !acc.unique && !acc.free && !acc.offset_sub);
    assert_eq!(a.safe_type_of(&q), Ok(Some(RustPointerType::Undefined)));
    assert_eq!(a.rewrite_target(&q), Ok(None));
}

#[test]
fn write_alone_is_cell_reference_binding() {
    let ds = vec![ptr_decl("q", true)];
    let es = vec![deref_assign(path("q"), "cast", path("v"))];
    let a = RawPointerSanitizer::run(&ds, &es);
    assert_eq!(a.safe_type_of(&"q".to_string()), Ok(Some(RustPointerType::CellReference)));
}

#[test]
fn offset_calls_make_an_immutable_slice() {
    let ds = vec![ptr_decl("p", false), ptr_decl("r", false)];
    let es = vec![call(path("p"), "add"), call(path("r"), "wrapping_sub")];
    let a = RawPointerSanitizer::run(&ds, &es);
    assert!(a.bindings()[0].accesses.offset_add && !a.bindings()[0].accesses.offset_sub);
    assert!(a.bindings()[1].accesses.offset_sub && !a.bindings()[1].accesses.offset_add);
    assert_eq!(a.safe_type_of(&"p".to_string()), Ok(Some(RustPointerType::ImmutableSlice)));
    assert_eq!(a.safe_type_of(&"r".to_string()), Ok(Some(RustPointerType::ImmutableSlice)));
}

#[test]
fn qualified_paths_are_no_access() {
    let ds = vec![ptr_decl("p", true)];
    let qualified = Expr::Path { qualified: true, segments: vec!["p".to_string()] };
    let es = vec![deref_assign(qualified, "offset", path("v"))];
    let a = RawPointerSanitizer::run(&ds, &es);
    assert_eq!(a.safe_type_of(&"p".to_string()), Ok(Some(RustPointerType::ImmutableReference)));
}

#[test]
fn non_pointer_declarations_and_unknown_names_are_ignored() {
    let ds = vec![
        Declaration { pat: Pattern::Ident("n".to_string()), ty: TypeShape::Other },
        Declaration { pat: Pattern::Other, ty: TypeShape::Ptr(RawPointer { mutable: true, pointee: "u8".to_string() }) },
    ];
    let es = vec![deref_assign(path("x"), "offset", path("v"))];
    let a = RawPointerSanitizer::run(&ds, &es);
    assert_eq!(a.bindings().len(), 0);
    assert_eq!(a.safe_type_of(&"n".to_string()), Ok(None));
    assert_eq!(a.safe_type_of(&"x".to_string()), Ok(None));
}

#[test]
fn phases_out_of_order_are_refused() {
    let ds = vec![ptr_decl("p", false)];
    let es: Vec<Expr> = vec![];
    let mut a = RawPointerSanitizer::new();
    assert_eq!(a.accumulate_accesses(&es), Err(PhaseError::NotComputing));
    assert_eq!(a.compute_equivalent_safe_types(), Err(PhaseError::NotComputing));
    assert_eq!(a.safe_type_of(&"p".to_string()), Err(PhaseError::NotInitialized));
    assert_eq!(a.identify_raw_pointer_args(&ds), Ok(()));
    assert_eq!(a.identify_raw_pointer_args(&ds), Err(PhaseError::NotUninitialized));
    assert_eq!(a.bindings().len(), 1);
    assert_eq!(a.rewrite_target(&"p".to_string()), Err(PhaseError::NotInitialized));
    assert_eq!(a.accumulate_accesses(&es), Ok(()));
    assert_eq!(a.compute_equivalent_safe_types(), Ok(()));
    assert_eq!(a.compute_equivalent_safe_types(), Err(PhaseError::NotComputing));
    assert_eq!(a.accumulate_accesses(&es), Err(PhaseError::NotComputing));
    assert_eq!(a.safe_type_of(&"p".to_string()), Ok(Some(RustPointerType::ImmutableReference)));
}

#[test]
fn discovering_twice_gives_the_same_bindings() {
    let ds = vec![ptr_decl("p", false), ptr_decl("q", true), ptr_decl("p", true)];
    let mut once = RawPointerSanitizer::new();
    assert_eq!(once.identify_raw_pointer_args(&ds), Ok(()));
    let mut twice = RawPointerSanitizer::new();
    assert_eq!(twice.identify_raw_pointer_args(&ds), Ok(()));
    assert_eq!(twice.identify_raw_pointer_args(&ds), Err(PhaseError::NotUninitialized));
    for name in ["p", "q", "r"] {
        let find = |a: &RawPointerSanitizer| {
            a.bindings().iter().rev().find(|b| b.name == name).map(|b| (b.pointer.mutable, b.accesses))
        };
        assert_eq!(find(&once), find(&twice));
    }
    // the later declaration of `p` hides the earlier one
    assert_eq!(once.bindings().iter().rev().find(|b| b.name == "p").map(|b| b.pointer.mutable), Some(true));
}

#[test]
fn recorded_write_is_never_removed() {
    let ds = vec![ptr_decl("q", true)];
    let mut a = RawPointerSanitizer::new();
    let _ = a.identify_raw_pointer_args(&ds);
    assert_eq!(a.accumulate_accesses(&vec![deref_assign(path("q"), "offset", path("v"))]), Ok(()));
    assert!(a.bindings()[0].accesses.write);
    let more = vec![
        call(path("q"), "read"),
        call(path("q"), "sub"),
        deref_assign(path("q"), "as_mut", path("w")),
    ];
    assert_eq!(a.accumulate_accesses(&more), Ok(()));
    let acc = a.bindings()[0].accesses;
    assert!(acc.write && acc.offset_add && acc.offset_sub);
}

#[test]
fn offset_call_on_slice_binding_becomes_subslice() {
    let ds = vec![ptr_decl("p", false), ptr_decl("q", true)];
    let es = vec![call(path("p"), "offset"), deref_assign(path("q"), "offset", path("v"))];
    let a = RawPointerSanitizer::run(&ds, &es);
    assert_eq!(a.rewrite_site(&call(path("p"), "offset")), Ok(SiteRewrite::SliceFrom { mutable: false }));
    assert_eq!(a.rewrite_site(&call(path("p"), "sub")), Ok(SiteRewrite::Unchanged));
    // `q` stays raw: its sites stay as they are
    assert_eq!(a.rewrite_site(&deref_assign(path("q"), "offset", path("v"))), Ok(SiteRewrite::Unchanged));
    assert_eq!(a.rewrite_site(&call(path("q"), "offset")), Ok(SiteRewrite::Unchanged));
}

#[test]
fn write_through_cell_reference_becomes_set() {
    let ds = vec![ptr_decl("c", true)];
    let site = deref_assign(path("c"), "cast", path("v"));
    let mut a = RawPointerSanitizer::new();
    let _ = a.identify_raw_pointer_args(&ds);
    let _ = a.accumulate_accesses(&vec![deref_assign(path("c"), "cast", path("v"))]);
    assert_eq!(a.rewrite_site(&site), Err(PhaseError::NotInitialized));
    assert_eq!(a.compute_equivalent_safe_types(), Ok(()));
    assert_eq!(a.safe_type_of(&"c".to_string()), Ok(Some(RustPointerType::CellReference)));
    assert_eq!(a.rewrite_site(&site), Ok(SiteRewrite::CellSet));
    assert_eq!(a.rewrite_site(&call(path("c"), "read")), Ok(SiteRewrite::Unchanged));
}
