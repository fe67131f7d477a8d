use milika::chiika_env::{chiika_env_pop_frame, chiika_env_push_frame, chiika_env_ref, chiika_env_set, ChiikaEnv};
use milika::hir::{Asyncness, Expr, Ty, TypedExpr};
use milika::hir_lowering::{async_splitter, lower_async_if, lower_if};

fn untyped(src: &str) -> milika::hir::Program {
    let ast = milika::parser::parse(src).ok().unwrap();
    milika::hir::untyped::create(&ast).ok().unwrap()
}

fn typed(src: &str) -> milika::hir::Program {
    let mut hir = untyped(src);
    milika::hir::asyncness_check::run(&mut hir);
    milika::hir::typing::run(hir).ok().unwrap()
}

fn has_if(e: &TypedExpr) -> bool {
    match &e.0 {
        Expr::If(_, _, _) => true,
        Expr::OpCall(_, l, r) => has_if(l) || has_if(r),
        Expr::FunCall(f, args) => has_if(f) || args.iter().any(has_if),
        Expr::Yield(v) | Expr::Assign(_, v) | Expr::Return(v) | Expr::Cast(_, v) | Expr::Br(v, _) => has_if(v),
        Expr::CondBr(c, _, _) => has_if(c),
        Expr::While(c, b) => has_if(c) || b.iter().any(has_if),
        Expr::CondReturn(c, ft, at, ff, af) => {
            has_if(c) || has_if(ft) || at.iter().any(has_if) || has_if(ff) || af.iter().any(has_if)
        }
        _ => false,
    }
}

const NESTED_IF_SRC: &str = "fun f(Int x) -> Int {
  alloc y;
  y = if (x < 1) { yield if (x < 0) { yield 1; } else { yield 2; }; } else { yield 3; };
  return y + 1;
}";

#[test]
fn set_item_reads_back_and_others_stay() {
    // `chiika_env_ref` reads the n-th last item: a frame [1, 2] read at 0 gives 2.
    let mut small = ChiikaEnv::new();
    chiika_env_push_frame(&mut small, 2);
    chiika_env_set(&mut small, 0, 1, 0);
    chiika_env_set(&mut small, 1, 2, 0);
    assert_eq!(chiika_env_ref(&small, 0, 0), 2);
    assert_eq!(chiika_env_ref(&small, 1, 0), 1);

    let mut env = ChiikaEnv::new();
    chiika_env_push_frame(&mut env, 3);
    chiika_env_set(&mut env, 0, 10, 1);
    chiika_env_set(&mut env, 2, 30, 2);
    chiika_env_set(&mut env, 0, 11, 1);
    assert_eq!(chiika_env_ref(&env, 2, 1), 11);
    assert_eq!(chiika_env_ref(&env, 0, 2), 30);
    assert_eq!(env.current_frame()[1], None);
}

#[test]
fn pop_gives_back_the_environment_before_the_push() {
    let mut env = ChiikaEnv::new();
    chiika_env_push_frame(&mut env, 1);
    chiika_env_set(&mut env, 0, 7, 0);
    assert_eq!(env.depth(), 2);
    chiika_env_push_frame(&mut env, 2);
    chiika_env_set(&mut env, 0, 8, 0);
    assert_eq!(chiika_env_pop_frame(&mut env, 2), 8);
    assert_eq!(env.depth(), 2);
    assert_eq!(chiika_env_ref(&env, 0, 0), 7);
    assert_eq!(chiika_env_pop_frame(&mut env, 1), 7);
    assert_eq!(env.depth(), 1);
    assert_eq!(env.current_frame().len(), 0);
}

#[test]
fn asyncness_check_decides_every_function_and_again_the_same() {
    let mut p = untyped(
        "extern print(Int n) -> Null; extern(async) sleep_sec(Int n) -> Null;
         fun a() -> Int { print(1); return 0; }
         fun b() -> Int { sleep_sec(1); return 0; }",
    );
    milika::hir::asyncness_check::run(&mut p);
    let first: Vec<Asyncness> = p.funcs.iter().map(|f| f.asyncness).collect();
    assert_eq!(first, vec![Asyncness::Sync, Asyncness::Async]);
    milika::hir::asyncness_check::run(&mut p);
    let second: Vec<Asyncness> = p.funcs.iter().map(|f| f.asyncness).collect();
    assert_eq!(first, second);
}

#[test]
fn typing_keeps_the_signatures() {
    let mut p = untyped("extern print(Int n) -> Null; fun f(Int x, Bool b) -> Int { print(x); return x; }");
    milika::hir::asyncness_check::run(&mut p);
    let t = milika::hir::typing::run(p).ok().unwrap();
    assert_eq!(t.externs.len(), 1);
    assert_eq!(t.externs[0].name, "print");
    let f = &t.funcs[0];
    assert_eq!(f.name, "f");
    assert_eq!(f.params.len(), 2);
    assert_eq!(f.params[1].name, "b");
    assert!(matches!(f.params[1].ty, Ty::Bool));
    assert!(matches!(f.ret_ty, Ty::Int));
    assert!(matches!(f.asyncness, Asyncness::Sync));
    assert!(matches!(f.body_stmts[1].1, Ty::Void));
}

#[test]
fn lower_if_leaves_no_if_in_any_block() {
    let b = lower_if::run(typed(NESTED_IF_SRC)).ok().unwrap();
    let f = &b.funcs[0];
    // The first block, then three blocks for each `if`.
    assert_eq!(f.body_blocks.len(), 7);
    for block in &f.body_blocks {
        assert!(!block.stmts.iter().any(has_if));
    }
}

#[test]
fn lower_async_if_leaves_no_if() {
    let p = lower_async_if::run(typed(NESTED_IF_SRC)).ok().unwrap();
    // f, then the clause and endif chapters of each `if`.
    assert_eq!(p.funcs.len(), 7);
    assert_eq!(p.funcs[0].name, "f");
    assert_eq!(p.funcs[0].params.len(), 1);
    let mut cond_returns = 0;
    for f in &p.funcs {
        for s in &f.body_stmts {
            assert!(!has_if(s));
            if let Expr::CondReturn(c, ft, _, ff, _) = &s.0 {
                assert!(!has_if(c));
                assert!(matches!(ft.0, Expr::FuncRef(_)));
                assert!(matches!(ff.0, Expr::FuncRef(_)));
                cond_returns += 1;
            }
        }
    }
    assert_eq!(cond_returns, 2);
}

#[test]
fn async_splitter_keeps_names_and_gives_async_functions_env_and_cont() {
    let p = lower_async_if::run(typed(
        "extern(async) sleep_sec(Int n) -> Null; extern print(Int n) -> Null;
         fun g(Int a) -> Int { sleep_sec(a); return 0; }
         fun h(Int a) -> Int { print(a); return a; }",
    ))
    .ok()
    .unwrap();
    let s = milika::hir::split::Program::from_program(p).ok().unwrap();
    let s = async_splitter::run(s).ok().unwrap();
    assert_eq!(s.funcs.len(), 2);
    let g = &s.funcs[0][0];
    assert_eq!(g.name, "g");
    assert_eq!(g.params.len(), 3);
    assert_eq!(g.params[0].name, "$env");
    assert_eq!(g.params[1].name, "$cont");
    assert_eq!(g.params[2].name, "a");
    assert!(matches!(g.ret_ty, Ty::RustFuture));
    let h = &s.funcs[1][0];
    assert_eq!(h.name, "h");
    assert_eq!(h.params.len(), 1);
    assert!(matches!(h.ret_ty, Ty::Int));
    for group in &s.funcs {
        for f in group {
            assert!(matches!(f.asyncness, Asyncness::Lowered));
        }
    }
    // The async extern takes `$env` and `$cont`; the other keeps its signature.
    assert_eq!(s.externs[0].params.len(), 3);
    assert_eq!(s.externs[0].params[1].name, "$cont");
    assert!(matches!(s.externs[0].params[2].ty, Ty::Int));
    assert!(matches!(s.externs[0].ret_ty, Ty::RustFuture));
    assert_eq!(s.externs[1].params.len(), 1);
    assert!(matches!(s.externs[1].ret_ty, Ty::Null));
}

#[test]
fn split_program_text_lists_externs_then_every_function() {
    let p = lower_async_if::run(typed("extern print(Int n) -> Null; fun h(Int a) -> Int { print(a); return a; }"))
        .ok()
        .unwrap();
    let s = milika::hir::split::Program::from_program(p).ok().unwrap();
    assert!(s.is_printable());
    let text = s.to_string();
    assert!(text.starts_with("extern print(Int n) -> Null;\n"));
    assert!(text.contains("fun h"));
}

#[test]
fn typing_leaves_argument_types_and_while_conditions_to_later_checks() {
    // A call with an argument of another type than the parameter, and a
    // `while` on an Int, are typed; the type consistency check sees them later.
    let mut p = untyped(
        "extern print(Int n) -> Null;
         fun f(Bool b) -> Int { print(b); alloc i; while (i) { i = 0; } return 0; }",
    );
    milika::hir::asyncness_check::run(&mut p);
    let t = milika::hir::typing::run(p).ok().unwrap();
    assert!(matches!(t.funcs[0].body_stmts[0].1, Ty::Null));
    assert!(matches!(t.funcs[0].body_stmts[2].1, Ty::Void));
}

#[test]
fn funcall_arg_types_are_checked_on_request() {
    let ok = milika::hir::typing::check_funcall_arg_types(&vec![Ty::Int], &vec![Expr::number(1)]);
    assert!(ok.is_ok());
    let bad = milika::hir::typing::check_funcall_arg_types(&vec![Ty::Bool], &vec![Expr::number(1)]);
    assert!(bad.is_err());
}

#[test]
fn gather_sigs_gives_one_signature_per_declaration_with_decided_asyncness() {
    let ast = milika::parser::parse(
        "extern(async) sleep_sec(Int n) -> Null;
         fun a() -> Int { return 0; }
         fun b(Int x) -> Int { sleep_sec(x); return 0; }",
    )
    .ok()
    .unwrap();
    let sigs = milika::hir::asyncness_check::gather_sigs(&ast).ok().unwrap();
    let names: Vec<&str> = sigs.iter().map(|s| s.0.as_str()).collect();
    assert_eq!(names, vec!["sleep_sec", "a", "b"]);
    assert!(sigs[0].1.is_async);
    assert!(!sigs[1].1.is_async);
    assert!(sigs[2].1.is_async);
    assert_eq!(sigs[2].1.param_tys.len(), 1);
    // An unknown variable: no untyped HIR, so no signatures.
    let bad = milika::parser::parse("fun f() -> Int { return y; }").ok().unwrap();
    assert!(milika::hir::asyncness_check::gather_sigs(&bad).is_err());
}
