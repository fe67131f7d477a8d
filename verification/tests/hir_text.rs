use milika::hir::{Asyncness, CastType, Expr, FunTy, Param, PseudoVar, Ty};

fn fun_ty(params: Vec<Ty>, ret: Ty) -> FunTy {
    FunTy { asyncness: Asyncness::Sync, param_tys: params, ret_ty: Box::new(ret) }
}

#[test]
fn type_texts() {
    assert_eq!(Ty::Int.to_string(), "Int");
    assert_eq!(Ty::ChiikaEnv.to_string(), "ChiikaEnv");
    assert_eq!(Ty::Fun(fun_ty(vec![Ty::Int, Ty::Bool], Ty::Null)).to_string(), "(Int,Bool)->Null");
    assert_eq!(Ty::Fun(fun_ty(vec![], Ty::Any)).to_string(), "()->Any");
    assert_eq!(Ty::chiika_cont().to_string(), "(ChiikaEnv,Any)->RustFuture");
}

#[test]
fn asyncness_marks() {
    assert_eq!(Asyncness::Unknown.to_string(), "[?]");
    assert_eq!(Asyncness::Sync.to_string(), "[+]");
    assert_eq!(Asyncness::Async.to_string(), "[*]");
    assert_eq!(Asyncness::Lowered.to_string(), "");
}

#[test]
fn expression_texts() {
    let call = Expr::fun_call(
        Expr::func_ref("print".to_string(), fun_ty(vec![Ty::Int], Ty::Null)),
        vec![Expr::op_call("+".to_string(), Expr::number(1), Expr::arg_ref(0, Ty::Int))],
    );
    assert!(call.0.is_printable());
    assert_eq!(call.0.to_string(), "print[+]((1 + %arg_0))");
    assert_eq!(Expr::number(-12).0.to_string(), "-12");
    assert_eq!(Expr::return_(Expr::number(3)).0.to_string(), "return 3  # Int");
    assert_eq!(Expr::cast(CastType::IntToAny, Expr::number(3)).0.to_string(), "(3 as Any)");
    assert_eq!(Expr::br(Expr::number(1), 2).0.to_string(), "%br ^bb2(1)  # Int");
    let t = (Expr::PseudoVar(PseudoVar::True), Ty::Bool);
    assert_eq!(Expr::cond_br(t, 1, 2).0.to_string(), "%cond_br true ^bb1 ^bb2");
    assert_eq!(Expr::block_arg_ref(Ty::Int).0.to_string(), "%block_arg");
}

#[test]
fn call_of_a_non_function_is_not_printable() {
    let bad = (Expr::FunCall(Box::new(Expr::number(1)), vec![]), Ty::Int);
    assert!(!bad.0.is_printable());
}

#[test]
fn param_text() {
    assert_eq!(Param::new(Ty::Int, "n".to_string()).to_string(), "Int n");
}
