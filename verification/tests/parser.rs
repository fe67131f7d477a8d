use milika::ast::{Declaration, Expr, Ty};
use milika::parser::parse;

fn decls(src: &str) -> Vec<Declaration> {
    match parse(src) {
        Ok(d) => d,
        Err(e) => panic!("parse error at {}", e.offset),
    }
}

fn only_function_body(src: &str) -> Vec<Expr> {
    let mut ds = decls(src);
    assert_eq!(ds.len(), 1);
    match ds.remove(0) {
        Declaration::Function(f) => f.body_stmts,
        _ => panic!("expected a function"),
    }
}

#[test]
fn parses_extern_with_modifiers() {
    let ds = decls("extern(internal,async) chiika_main() -> Int;\nextern print(Int n) -> Null;");
    assert_eq!(ds.len(), 2);
    match &ds[0] {
        Declaration::Extern(e) => {
            assert!(e.is_async);
            assert!(e.is_internal);
            assert_eq!(e.name, "chiika_main");
            assert_eq!(e.params.len(), 0);
        }
        _ => panic!("expected an extern"),
    }
    match &ds[1] {
        Declaration::Extern(e) => {
            assert!(!e.is_async);
            assert!(!e.is_internal);
            assert_eq!(e.name, "print");
            assert_eq!(e.params.len(), 1);
            assert_eq!(e.params[0].name, "n");
            assert!(matches!(&e.params[0].ty, Ty::Raw(s) if s == "Int"));
        }
        _ => panic!("expected an extern"),
    }
}

#[test]
fn parses_function_type() {
    let ds = decls("fun f(ENV env, FN((ENV,Int)->FUTURE) cont) -> FUTURE { return cont(env, 1); }");
    match &ds[0] {
        Declaration::Function(f) => {
            assert_eq!(f.params.len(), 2);
            match &f.params[1].ty {
                Ty::Fun(ft) => {
                    assert_eq!(ft.param_tys.len(), 2);
                    assert!(matches!(&*ft.ret_ty, Ty::Raw(s) if s == "FUTURE"));
                }
                _ => panic!("expected a function type"),
            }
            assert_eq!(f.body_stmts.len(), 1);
        }
        _ => panic!("expected a function"),
    }
}

#[test]
fn operators_are_left_associative_with_precedence() {
    let body = only_function_body("fun f() -> Int { return 1 - 2 - 3 * 4; }");
    match &body[0] {
        Expr::Return(e) => match &**e {
            Expr::OpCall(op, l, r) => {
                assert_eq!(op, "-");
                assert!(matches!(&**l, Expr::OpCall(o, _, _) if o == "-"));
                assert!(matches!(&**r, Expr::OpCall(o, _, _) if o == "*"));
            }
            _ => panic!("expected an operator call"),
        },
        _ => panic!("expected a return"),
    }
}

#[test]
fn parses_comparison_and_if_else() {
    let body = only_function_body(
        "fun f(Int x) -> Int {\n  # a comment\n  if (x < 1) { yield 2; } else { yield 3; };\n  return 0;\n}",
    );
    assert_eq!(body.len(), 2);
    match &body[0] {
        Expr::If(c, t, e) => {
            assert!(matches!(&**c, Expr::OpCall(o, _, _) if o == "<"));
            assert_eq!(t.len(), 1);
            assert!(matches!(&t[0], Expr::Yield(_)));
            assert_eq!(e.as_ref().map(|v| v.len()), Some(1));
        }
        _ => panic!("expected an if"),
    }
}

#[test]
fn statements_ending_with_a_block_need_no_semicolon() {
    let body = only_function_body("fun f() -> Null { alloc i; i = 0; while (i < 3) { i = i + 1; } return null; }");
    assert_eq!(body.len(), 4);
    assert!(matches!(&body[0], Expr::Alloc(n) if n == "i"));
    assert!(matches!(&body[1], Expr::Assign(n, _) if n == "i"));
    assert!(matches!(&body[2], Expr::While(_, b) if b.len() == 1));
}

#[test]
fn numbers_saturate() {
    let body = only_function_body("fun f() -> Int { g(-5, +7, 99999999999999999999); }");
    match &body[0] {
        Expr::FunCall(_, args) => {
            assert!(matches!(args[0], Expr::Number(-5)));
            assert!(matches!(args[1], Expr::Number(7)));
            assert!(matches!(args[2], Expr::Number(i64::MAX)));
        }
        _ => panic!("expected a call"),
    }
}

#[test]
fn reports_the_offset_of_a_parse_error() {
    match parse("extern f() -> Int;\nfun g() -> Int { return 1 }") {
        Ok(_) => panic!("expected a parse error"),
        Err(e) => assert_eq!(e.offset, 19),
    }
}

#[test]
fn empty_source_has_no_declarations() {
    assert_eq!(decls("  # nothing here\n").len(), 0);
}

#[test]
fn declarations_keep_their_offsets() {
    let src = "extern print(Int n) -> Null;\n# a comment\nfun f() -> Int { return 1; }";
    let ds = decls(src);
    match &ds[0] {
        Declaration::Extern(e) => assert_eq!(e.offset, 0),
        _ => panic!("expected an extern"),
    }
    match &ds[1] {
        Declaration::Function(f) => assert_eq!(f.offset, src.find("fun").unwrap()),
        _ => panic!("expected a function"),
    }
}
