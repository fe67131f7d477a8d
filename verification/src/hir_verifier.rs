//! Checks the type consistency of the (blocked) HIR to detect bugs in the compiler.
use crate::error::Error;
use crate::hir::blocked;
use crate::hir::model::{group_hir_model, texpr_view, texprs_view, tys_view, STyped, SpecCastType, SpecExpr, SpecTy};
use crate::hir::{self, CastType, Expr, Ty, TypedExpr};
use vstd::prelude::*;

verus! {

broadcast use {vstd::std_specs::vec::group_vec_axioms, group_hir_model};

/// The value `v` has type `expected`.
pub open spec fn has_ty(v: STyped, expected: SpecTy) -> bool {
    v.1 == expected
}

/// The type annotations of an expression (and of the expressions in it) are
/// consistent, in a function returning `ret_ty` with `n_blocks` blocks.
pub open spec fn spec_verify_expr(ret_ty: SpecTy, n_blocks: nat, e: STyped) -> bool
    decreases e,
{
    match e.0 {
        SpecExpr::Number(_) => has_ty(e, SpecTy::Int),
        SpecExpr::OpCall(_, a, b) => spec_verify_expr(ret_ty, n_blocks, *a) && spec_verify_expr(ret_ty, n_blocks, *b),
        SpecExpr::FunCall(fexpr, args) => {
            &&& spec_verify_expr(ret_ty, n_blocks, *fexpr)
            &&& spec_verify_exprs(ret_ty, n_blocks, args)
            &&& fexpr.1 is Fun
            &&& forall|i: int|
                0 <= i < fexpr.1->Fun_0.param_tys.len() && 0 <= i < args.len()
                    ==> has_ty(#[trigger] args[i], fexpr.1->Fun_0.param_tys[i])
        },
        SpecExpr::If(c, t, f) => spec_verify_expr(ret_ty, n_blocks, *c) && spec_verify_exprs(ret_ty, n_blocks, t)
            && spec_verify_exprs(ret_ty, n_blocks, f),
        SpecExpr::Yield(v) => spec_verify_expr(ret_ty, n_blocks, *v),
        SpecExpr::While(c, b) => spec_verify_expr(ret_ty, n_blocks, *c) && spec_verify_exprs(ret_ty, n_blocks, b),
        SpecExpr::Assign(_, v) => spec_verify_expr(ret_ty, n_blocks, *v),
        SpecExpr::Return(v) => spec_verify_expr(ret_ty, n_blocks, *v) && has_ty(*v, ret_ty),
        SpecExpr::Cast(ct, v) => spec_verify_expr(ret_ty, n_blocks, *v) && match ct {
            SpecCastType::AnyToFun(ft) => has_ty(*v, SpecTy::Any) && has_ty(e, SpecTy::Fun(ft)),
            SpecCastType::AnyToInt => has_ty(*v, SpecTy::Any) && has_ty(e, SpecTy::Int),
            SpecCastType::NullToAny => has_ty(*v, SpecTy::Null) && has_ty(e, SpecTy::Any),
            SpecCastType::IntToAny => has_ty(*v, SpecTy::Int) && has_ty(e, SpecTy::Any),
            SpecCastType::FunToAny => v.1 is Fun && has_ty(e, SpecTy::Any),
        },
        SpecExpr::CondReturn(c, ft, at, ff, af) => {
            &&& spec_verify_expr(ret_ty, n_blocks, *c)
            &&& spec_verify_expr(ret_ty, n_blocks, *ft)
            &&& spec_verify_exprs(ret_ty, n_blocks, at)
            &&& spec_verify_expr(ret_ty, n_blocks, *ff)
            &&& spec_verify_exprs(ret_ty, n_blocks, af)
        },
        SpecExpr::Br(v, n) => n < n_blocks && spec_verify_expr(ret_ty, n_blocks, *v),
        SpecExpr::CondBr(c, t, f) => spec_verify_expr(ret_ty, n_blocks, *c) && t < n_blocks && f < n_blocks,
        _ => true,
    }
}

pub open spec fn spec_verify_exprs(ret_ty: SpecTy, n_blocks: nat, es: Seq<STyped>) -> bool
    decreases es,
{
    if es.len() == 0 {
        true
    } else {
        spec_verify_exprs(ret_ty, n_blocks, es.drop_last()) && spec_verify_expr(ret_ty, n_blocks, es.last())
    }
}

/// Every statement of every block of every function is consistent.
pub open spec fn spec_verify(p: blocked::SpecProgram) -> bool {
    forall|i: int, j: int|
        0 <= i < p.funcs.len() && 0 <= j < p.funcs[i].body_blocks.len() ==> spec_verify_exprs(
            p.funcs[i].ret_ty,
            p.funcs[i].body_blocks.len(),
            #[trigger] p.funcs[i].body_blocks[j].stmts,
        )
}

pub(crate) proof fn lemma_verify_exprs_all(ret_ty: SpecTy, n: nat, es: Seq<STyped>)
    ensures
        spec_verify_exprs(ret_ty, n, es) <==> forall|i: int| 0 <= i < es.len() ==> spec_verify_expr(ret_ty, n, #[trigger] es[i]),
    decreases es.len(),
{
    if es.len() > 0 {
        lemma_verify_exprs_all(ret_ty, n, es.drop_last());
        if spec_verify_exprs(ret_ty, n, es) {
            assert forall|i: int| 0 <= i < es.len() implies spec_verify_expr(ret_ty, n, #[trigger] es[i]) by {
                if i < es.len() - 1 {
                    assert(es.drop_last()[i] == es[i]);
                }
            }
        }
        if forall|i: int| 0 <= i < es.len() ==> spec_verify_expr(ret_ty, n, #[trigger] es[i]) {
            assert forall|i: int| 0 <= i < es.drop_last().len() implies spec_verify_expr(ret_ty, n, #[trigger] es.drop_last()[i]) by {
                assert(es.drop_last()[i] == es[i]);
            }
            assert(spec_verify_expr(ret_ty, n, es[es.len() - 1]));
        }
    }
}

fn assert_ty(v: &TypedExpr, expected: &Ty) -> (r: Result<(), Error>)
    ensures
        r is Ok <==> has_ty(v@, expected@),
{
    if !v.1.eq_ty(expected) {
        return Err(Error::new("[BUG] Type verifier failed: unexpected type"));
    }
    Ok(())
}

fn assert_fun(ty: &Ty) -> (r: Result<(), Error>)
    ensures
        r is Ok <==> ty@ is Fun,
{
    match ty {
        Ty::Fun(_) => Ok(()),
        _ => Err(Error::new("[BUG] Type verifier failed: expected Ty::Fun")),
    }
}

/// The arguments of a call agree with the parameter types of the callee.
fn verify_args(fun_ty: &hir::FunTy, args: &Vec<TypedExpr>) -> (r: Result<(), Error>)
    ensures
        r is Ok <==> forall|i: int|
            0 <= i < fun_ty@.param_tys.len() && 0 <= i < args.len() ==> has_ty(
                #[trigger] texprs_view(args@)[i],
                fun_ty@.param_tys[i],
            ),
{
    let mut i: usize = 0;
    while i < fun_ty.param_tys.len() && i < args.len()
        invariant
            i <= fun_ty.param_tys.len(),
            fun_ty@.param_tys == tys_view(fun_ty.param_tys@),
            forall|j: int|
                0 <= j < i && j < args.len() ==> has_ty(#[trigger] texprs_view(args@)[j], fun_ty@.param_tys[j]),
        decreases fun_ty.param_tys.len() - i,
    {
        if assert_ty(&args[i], &fun_ty.param_tys[i]).is_err() {
            assert(!has_ty(texprs_view(args@)[i as int], fun_ty@.param_tys[i as int]));
            return Err(Error::new("[BUG] Type verifier failed: argument type"));
        }
        i += 1;
    }
    Ok(())
}

/// The operand and the result of a cast have the types it converts.
fn verify_cast(cast_type: &CastType, val: &TypedExpr, e: &TypedExpr) -> (r: Result<(), Error>)
    ensures
        r is Ok <==> match cast_type@ {
            SpecCastType::AnyToFun(ft) => has_ty(val@, SpecTy::Any) && has_ty(e@, SpecTy::Fun(ft)),
            SpecCastType::AnyToInt => has_ty(val@, SpecTy::Any) && has_ty(e@, SpecTy::Int),
            SpecCastType::NullToAny => has_ty(val@, SpecTy::Null) && has_ty(e@, SpecTy::Any),
            SpecCastType::IntToAny => has_ty(val@, SpecTy::Int) && has_ty(e@, SpecTy::Any),
            SpecCastType::FunToAny => val@.1 is Fun && has_ty(e@, SpecTy::Any),
        },
{
    match cast_type {
        CastType::AnyToFun(fun_ty) => {
            assert_ty(val, &Ty::Any)?;
            assert_ty(e, &Ty::Fun(fun_ty.clone_fun_ty()))
        },
        CastType::AnyToInt => {
            assert_ty(val, &Ty::Any)?;
            assert_ty(e, &Ty::Int)
        },
        CastType::NullToAny => {
            assert_ty(val, &Ty::Null)?;
            assert_ty(e, &Ty::Any)
        },
        CastType::IntToAny => {
            assert_ty(val, &Ty::Int)?;
            assert_ty(e, &Ty::Any)
        },
        CastType::FunToAny => {
            assert_fun(&val.1)?;
            assert_ty(e, &Ty::Any)
        },
    }
}

fn verify_expr(ret_ty: &Ty, n_blocks: usize, e: &TypedExpr) -> (r: Result<(), Error>)
    ensures
        r is Ok <==> spec_verify_expr(ret_ty@, n_blocks as nat, e@),
    decreases e,
{
    match &e.0 {
        Expr::Number(_) => assert_ty(e, &Ty::Int),
        Expr::OpCall(_, a, b) => {
            verify_expr(ret_ty, n_blocks, a)?;
            verify_expr(ret_ty, n_blocks, b)
        },
        Expr::FunCall(fexpr, args) => {
            verify_expr(ret_ty, n_blocks, fexpr)?;
            verify_exprs(ret_ty, n_blocks, args)?;
            match &fexpr.1 {
                Ty::Fun(f) => verify_args(f, args),
                _ => Err(Error::new("[BUG] Type verifier failed: expected function")),
            }
        },
        Expr::If(cond, then, els) => {
            verify_expr(ret_ty, n_blocks, cond)?;
            verify_exprs(ret_ty, n_blocks, then)?;
            verify_exprs(ret_ty, n_blocks, els)
        },
        Expr::Yield(v) => verify_expr(ret_ty, n_blocks, v),
        Expr::While(cond, body) => {
            verify_expr(ret_ty, n_blocks, cond)?;
            verify_exprs(ret_ty, n_blocks, body)
        },
        Expr::Assign(_, v) => verify_expr(ret_ty, n_blocks, v),
        Expr::Return(v) => {
            verify_expr(ret_ty, n_blocks, v)?;
            assert_ty(v, ret_ty)
        },
        Expr::Cast(cast_type, val) => {
            verify_expr(ret_ty, n_blocks, val)?;
            verify_cast(cast_type, val, e)
        },
        Expr::CondReturn(cond, fexpr_t, args_t, fexpr_f, args_f) => {
            verify_expr(ret_ty, n_blocks, cond)?;
            verify_expr(ret_ty, n_blocks, fexpr_t)?;
            verify_exprs(ret_ty, n_blocks, args_t)?;
            verify_expr(ret_ty, n_blocks, fexpr_f)?;
            verify_exprs(ret_ty, n_blocks, args_f)
        },
        Expr::Br(v, n) => {
            if *n >= n_blocks {
                return Err(Error::new("[BUG] Type verifier failed: block index out of range"));
            }
            verify_expr(ret_ty, n_blocks, v)
        },
        Expr::CondBr(cond, then, els) => {
            verify_expr(ret_ty, n_blocks, cond)?;
            if *then >= n_blocks || *els >= n_blocks {
                return Err(Error::new("[BUG] Type verifier failed: block index out of range"));
            }
            Ok(())
        },
        _ => Ok(()),
    }
}

fn verify_exprs(ret_ty: &Ty, n_blocks: usize, es: &Vec<TypedExpr>) -> (r: Result<(), Error>)
    ensures
        r is Ok <==> spec_verify_exprs(ret_ty@, n_blocks as nat, texprs_view(es@)),
    decreases es,
{
    let mut i: usize = 0;
    while i < es.len()
        invariant
            i <= es.len(),
            forall|j: int| 0 <= j < i ==> spec_verify_expr(ret_ty@, n_blocks as nat, #[trigger] texprs_view(es@)[j]),
        decreases es.len() - i,
    {
        assert(decreases_to!(es => es@[i as int]));
        if verify_expr(ret_ty, n_blocks, &es[i]).is_err() {
            assert(texprs_view(es@)[i as int] == es@[i as int]@);
            proof {
                lemma_verify_exprs_all(ret_ty@, n_blocks as nat, texprs_view(es@));
            }
            return Err(Error::new("[BUG] Type verifier failed"));
        }
        i += 1;
    }
    proof {
        lemma_verify_exprs_all(ret_ty@, n_blocks as nat, texprs_view(es@));
    }
    Ok(())
}

/// Checks the type consistency of the HIR to detect bugs in the compiler:
/// `Ok` exactly when every statement of every block is consistent (numbers
/// are `Int`, arguments have the types of the parameters, a returned value
/// has the function's return type, casts have the types they convert,
/// branch targets are blocks of the function).
pub fn run(hir: &blocked::Program) -> (r: Result<(), Error>)
    ensures
        r is Ok <==> spec_verify(hir@),
{
    let ghost p = hir@;
    let mut i: usize = 0;
    while i < hir.funcs.len()
        invariant
            i <= hir.funcs.len(),
            p == hir@,
            forall|k: int, j: int|
                0 <= k < i && 0 <= j < p.funcs[k].body_blocks.len() ==> spec_verify_exprs(
                    p.funcs[k].ret_ty,
                    p.funcs[k].body_blocks.len(),
                    #[trigger] p.funcs[k].body_blocks[j].stmts,
                ),
        decreases hir.funcs.len() - i,
    {
        let f = &hir.funcs[i];
        let mut j: usize = 0;
        while j < f.body_blocks.len()
            invariant
                i < hir.funcs.len(),
                j <= f.body_blocks.len(),
                p == hir@,
                *f == hir.funcs@[i as int],
                forall|k: int, j: int|
                    0 <= k < i && 0 <= j < p.funcs[k].body_blocks.len() ==> spec_verify_exprs(
                        p.funcs[k].ret_ty,
                        p.funcs[k].body_blocks.len(),
                        #[trigger] p.funcs[k].body_blocks[j].stmts,
                    ),
                forall|jj: int|
                    0 <= jj < j ==> spec_verify_exprs(
                        p.funcs[i as int].ret_ty,
                        p.funcs[i as int].body_blocks.len(),
                        #[trigger] p.funcs[i as int].body_blocks[jj].stmts,
                    ),
            decreases f.body_blocks.len() - j,
        {
            assert(p.funcs[i as int] == f@);
            assert(p.funcs[i as int].body_blocks[j as int] == f.body_blocks@[j as int]@);
            if verify_exprs(&f.ret_ty, f.body_blocks.len(), &f.body_blocks[j].stmts).is_err() {
                assert(!spec_verify_exprs(
                    p.funcs[i as int].ret_ty,
                    p.funcs[i as int].body_blocks.len(),
                    p.funcs[i as int].body_blocks[j as int].stmts,
                ));
                return Err(Error::new("[BUG] Type verifier failed"));
            }
            j += 1;
        }
        i += 1;
    }
    Ok(())
}

} // verus!
