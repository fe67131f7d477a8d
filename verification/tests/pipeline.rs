use milika::driver::{compile, link_prelude, lower_for_codegen, main_is_async, CompileError};
use milika::hir::split::Program;
use milika::hir::{Asyncness, Ty};
use milika::prelude::prelude_funcs;

const SYNC_SRC: &str = "extern print(Int n) -> Null;
fun chiika_main() -> Int {
  print(1);
  return 0;
}";

const ASYNC_SRC: &str = "extern print(Int n) -> Null;
extern(async) sleep_sec(Int n) -> Null;
fun chiika_main() -> Int {
  print(1);
  sleep_sec(1);
  print(2);
  return 0;
}";

fn compiled(src: &str) -> Program {
    match compile(src) {
        Ok(p) => p,
        Err(CompileError::Parse(e)) => panic!("parse error at {}", e.offset),
        Err(CompileError::Pass(e)) => panic!("{}", e.message),
    }
}

fn names(p: &Program) -> Vec<String> {
    p.funcs.iter().flat_map(|g| g.iter().map(|f| f.name.clone())).collect()
}

#[test]
fn sync_program_keeps_one_function() {
    let p = compiled(SYNC_SRC);
    assert_eq!(names(&p), vec!["chiika_main".to_string()]);
    let f = &p.funcs[0][0];
    assert!(matches!(f.asyncness, Asyncness::Lowered));
    assert_eq!(f.params.len(), 0);
    assert!(matches!(f.ret_ty, Ty::Int));
    assert_eq!(f.body_stmts.len(), 2);
    assert!(!main_is_async(&p).unwrap());
}

#[test]
fn async_program_is_split_at_the_async_call() {
    let p = compiled(ASYNC_SRC);
    assert_eq!(p.funcs.len(), 1);
    assert_eq!(names(&p), vec!["chiika_main".to_string(), "chiika_main_1".to_string()]);
    let main = &p.funcs[0][0];
    // $env and $cont
    assert_eq!(main.params.len(), 2);
    assert_eq!(main.params[0].name, "$env");
    assert_eq!(main.params[1].name, "$cont");
    assert!(matches!(main.ret_ty, Ty::RustFuture));
    let receiver = &p.funcs[0][1];
    assert_eq!(receiver.params[1].name, "$async_result");
    assert!(main_is_async(&p).unwrap());
    // The async extern takes $env and $cont, and returns a future.
    let sleep = p.externs.iter().find(|e| e.name == "sleep_sec").unwrap();
    assert_eq!(sleep.params.len(), 3);
    assert!(matches!(sleep.ret_ty, Ty::RustFuture));
    let print = p.externs.iter().find(|e| e.name == "print").unwrap();
    assert_eq!(print.params.len(), 1);
}

fn typed(src: &str) -> milika::hir::Program {
    let ast = milika::parser::parse(src).ok().unwrap();
    let mut hir = milika::hir::untyped::create(&ast).ok().unwrap();
    milika::hir::asyncness_check::run(&mut hir);
    milika::hir::typing::run(hir).ok().unwrap()
}

#[test]
fn if_is_split_into_chapters() {
    let src = "fun f(Int x) -> Int {
  alloc y;
  y = if (x < 1) { yield 2; } else { yield 3; };
  return y;
}";
    let p = milika::hir_lowering::lower_async_if::run(typed(src)).ok().unwrap();
    let ns: Vec<String> = p.funcs.iter().map(|f| f.name.clone()).collect();
    assert_eq!(ns, vec!["f".to_string(), "f't".to_string(), "f'f".to_string(), "f'e".to_string()]);
    // The endif chapter takes the value of the `if` after the parameters.
    assert_eq!(p.funcs[3].params.len(), 2);
    assert_eq!(p.funcs[3].params[1].name, "$ifResult");
    // The statements after the `if` go to the endif chapter.
    assert_eq!(p.funcs[0].body_stmts.len(), 2);
    assert_eq!(p.funcs[3].body_stmts.len(), 2);
    // The split function ends with `cond_return x < 1, f't(x), f'f(x)`.
    match &p.funcs[0].body_stmts[1].0 {
        milika::hir::Expr::CondReturn(_, ft, at, ff, af) => {
            assert!(matches!(&ft.0, milika::hir::Expr::FuncRef(n) if n == "f't"));
            assert!(matches!(&ff.0, milika::hir::Expr::FuncRef(n) if n == "f'f"));
            assert_eq!(at.len(), 1);
            assert_eq!(af.len(), 1);
        }
        _ => panic!("expected a cond_return"),
    }
}

#[test]
fn async_splitter_rejects_a_cond_return() {
    // `async_splitter` does not take the `cond_return` that `lower_async_if`
    // leaves, so a program with an `if` does not compile past it.
    let src = "fun chiika_main() -> Int { alloc y; y = if (1 < 2) { yield 2; } else { yield 3; }; return y; }";
    assert!(matches!(compile(src), Err(CompileError::Pass(_))));
}

#[test]
fn parse_errors_are_reported_by_compile() {
    match compile("fun f( -> Int {}") {
        Err(CompileError::Parse(e)) => assert_eq!(e.offset, 0),
        _ => panic!("expected a parse error"),
    }
}

#[test]
fn unknown_variable_is_rejected() {
    assert!(matches!(compile("fun f() -> Int { return z; }"), Err(CompileError::Pass(_))));
}

#[test]
fn return_type_mismatch_is_rejected() {
    assert!(matches!(
        compile("extern print(Int n) -> Null; fun f() -> Int { return print(1); }"),
        Err(CompileError::Pass(_))
    ));
}

#[test]
fn missing_main_is_an_error() {
    let p = compiled("fun f() -> Int { return 1; }");
    assert!(main_is_async(&p).is_err());
}

#[test]
fn prelude_uses_lowercase_int_which_is_not_a_type() {
    // The prelude declares `-> int`, which no type is named; compiling it fails.
    assert!(matches!(compile(&prelude_funcs(false)), Err(CompileError::Pass(_))));
}

#[test]
fn linking_rejects_duplicate_names() {
    let a = compiled(SYNC_SRC);
    let b = compiled(SYNC_SRC);
    assert!(link_prelude(a, b).is_err());
}

#[test]
fn linking_keeps_only_public_externs_of_the_prelude() {
    let a = compiled(SYNC_SRC);
    let b = compiled("extern(internal) hidden() -> Int; extern shown() -> Int; fun g() -> Int { return 1; }");
    let p = link_prelude(a, b).unwrap();
    let ext: Vec<String> = p.externs.iter().map(|e| e.name.clone()).collect();
    assert_eq!(ext, vec!["print".to_string(), "shown".to_string()]);
    assert_eq!(names(&p), vec!["chiika_main".to_string(), "g".to_string()]);
}

#[test]
fn lowering_a_sync_main_trips_the_type_consistency_check() {
    // A `return` is lowered to a call of the popped continuation, which
    // returns a future; in a synchronous function that disagrees with the
    // declared return type.
    let p = compiled(SYNC_SRC);
    assert!(lower_for_codegen(p).is_err());
}
