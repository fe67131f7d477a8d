use milika::hir::blocked::{Block, Function, Program};
use milika::hir::visitor::Allocs;
use milika::hir::{Asyncness, Expr, Ty};
use milika::hir_lowering::{async_splitter, lower_async_if, lower_if};
use milika::hir_verifier;

fn typed(src: &str) -> milika::hir::Program {
    let ast = milika::parser::parse(src).ok().unwrap();
    let mut hir = milika::hir::untyped::create(&ast).ok().unwrap();
    milika::hir::asyncness_check::run(&mut hir);
    milika::hir::typing::run(hir).ok().unwrap()
}

const IF_SRC: &str = "fun f(Int x) -> Int {
  alloc y;
  y = if (x < 1) { yield 2; } else { yield 3; };
  return y;
}";

#[test]
fn asyncness_follows_the_calls() {
    let p = typed(
        "extern print(Int n) -> Null; extern(async) sleep_sec(Int n) -> Null;
         fun a() -> Int { print(1); return 0; }
         fun b() -> Int { sleep_sec(1); return 0; }
         fun c() -> Int { return a(); }",
    );
    assert!(matches!(p.funcs[0].asyncness, Asyncness::Sync));
    assert!(matches!(p.funcs[1].asyncness, Asyncness::Async));
    // A call of a function that is not an extern may be async.
    assert!(matches!(p.funcs[2].asyncness, Asyncness::Async));
}

#[test]
fn if_becomes_blocks() {
    let b = lower_if::run(typed(IF_SRC)).ok().unwrap();
    let f = &b.funcs[0];
    assert_eq!(f.body_blocks.len(), 4);
    assert_eq!(f.body_blocks[0].param_tys.len(), 1);
    // The statement before the `if` stays in the first block, before the branch.
    assert_eq!(f.body_blocks[0].stmts.len(), 2);
    assert!(matches!(f.body_blocks[0].stmts[0].0, Expr::Alloc(_)));
    assert!(matches!(f.body_blocks[0].stmts[1].0, Expr::CondBr(_, 1, 2)));
    assert!(matches!(f.body_blocks[1].stmts[0].0, Expr::Br(_, 3)));
    assert!(matches!(f.body_blocks[2].stmts[0].0, Expr::Br(_, 3)));
    assert_eq!(f.body_blocks[3].param_tys.len(), 1);
    // The assignment of the `if`'s value, then the rest of the body.
    assert_eq!(f.body_blocks[3].stmts.len(), 2);
    assert!(matches!(&f.body_blocks[3].stmts[0].0, Expr::Assign(_, v) if matches!(v.0, Expr::BlockArgRef)));
    assert!(matches!(f.body_blocks[3].stmts[1].0, Expr::Return(_)));
    assert!(hir_verifier::run(&b).is_ok());
}

#[test]
fn clause_ending_with_return_is_not_lowered_to_blocks() {
    let src = "fun f(Int x) -> Int { if (x < 1) { return 2; } else { return 3; } }";
    assert!(lower_if::run(typed(src)).is_err());
}

#[test]
fn verifier_rejects_a_return_of_the_wrong_type() {
    let f = Function {
        name: "f".to_string(),
        params: vec![],
        ret_ty: Ty::Bool,
        body_blocks: vec![Block::new(vec![], vec![Expr::return_(Expr::number(1))])],
    };
    let p = Program { externs: vec![], funcs: vec![f] };
    assert!(hir_verifier::run(&p).is_err());
}

#[test]
fn verifier_rejects_a_branch_out_of_range() {
    let f = Function {
        name: "f".to_string(),
        params: vec![],
        ret_ty: Ty::Int,
        body_blocks: vec![Block::new(vec![], vec![Expr::br(Expr::number(1), 1)])],
    };
    let p = Program { externs: vec![], funcs: vec![f] };
    assert!(hir_verifier::run(&p).is_err());
}

#[test]
fn allocs_are_collected_from_statements_and_their_parts() {
    let p = typed("fun f(Int x) -> Int { alloc a; while (x < 1) { alloc b; } return x; }");
    let allocs = Allocs::collect(&p.funcs[0].body_stmts).ok().unwrap();
    let names: Vec<String> = allocs.iter().map(|a| a.0.clone()).collect();
    assert_eq!(names, vec!["a".to_string(), "b".to_string()]);
}

fn split(src: &str) -> Result<milika::hir::split::Program, milika::error::Error> {
    let p = lower_async_if::run(typed(src)).ok().unwrap();
    let s = milika::hir::split::Program::from_program(p).ok().unwrap();
    async_splitter::run(s)
}

#[test]
fn async_function_saves_its_continuation_and_arguments() {
    let s = split("extern(async) sleep_sec(Int n) -> Null; fun g(Int a, Int b) -> Int { sleep_sec(a); return 0; }")
        .ok()
        .unwrap();
    let g = &s.funcs[0][0];
    assert_eq!(g.name, "g");
    // $env, $cont, a, b
    assert_eq!(g.params.len(), 4);
    assert_eq!(g.params[1].name, "$cont");
    assert_eq!(g.params[3].name, "b");
    // The call passes `$env`, then the next chapter, then the argument.
    match &g.body_stmts[3].0 {
        Expr::Return(v) => match &v.0 {
            Expr::FunCall(_, args) => {
                assert_eq!(args.len(), 3);
                assert!(matches!(&args[1].0, Expr::FuncRef(name) if name == "g_1"));
            }
            _ => panic!("expected a call"),
        },
        _ => panic!("expected a return"),
    }
    // push $cont, push b, push a, then the call of sleep_sec.
    assert_eq!(g.body_stmts.len(), 4);
    let g1 = &s.funcs[0][1];
    assert_eq!(g1.name, "g_1");
    assert_eq!(g1.params.len(), 2);
    // The result of the call, then the return.
    assert_eq!(g1.body_stmts.len(), 2);
}

#[test]
fn returning_an_argument_after_an_async_call_is_rejected() {
    // The argument is read back with `chiika_env_ref`, whose asyncness is
    // lowered; a `return` of such a call cannot be classified.
    assert!(split("extern(async) sleep_sec(Int n) -> Null; fun g(Int a) -> Int { sleep_sec(a); return a; }").is_err());
}

#[test]
fn lowered_asyncness_is_kept_in_chapters() {
    let p = lower_async_if::run(typed(IF_SRC)).ok().unwrap();
    for f in &p.funcs {
        assert!(matches!(f.asyncness, Asyncness::Sync));
        assert!(matches!(f.ret_ty, Ty::Int));
    }
}

#[test]
fn verifier_rejects_an_inconsistent_part_nested_in_a_statement() {
    // The operand `return 1` is inconsistent (the function returns Bool), so
    // the addition that holds it is rejected too; alone, `1 + 2` passes.
    let bad = Expr::op_call("+".to_string(), Expr::return_(Expr::number(1)), Expr::number(2));
    let f = Function {
        name: "f".to_string(),
        params: vec![],
        ret_ty: Ty::Bool,
        body_blocks: vec![Block::new(vec![], vec![Expr::yield_(bad)])],
    };
    assert!(hir_verifier::run(&Program { externs: vec![], funcs: vec![f] }).is_err());
    let good = Expr::op_call("+".to_string(), Expr::number(1), Expr::number(2));
    let g = Function {
        name: "g".to_string(),
        params: vec![],
        ret_ty: Ty::Bool,
        body_blocks: vec![Block::new(vec![], vec![Expr::yield_(good)])],
    };
    assert!(hir_verifier::run(&Program { externs: vec![], funcs: vec![g] }).is_ok());
}
