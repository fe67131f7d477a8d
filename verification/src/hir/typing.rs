//! Type checking: creates typed HIR from untyped HIR.
use crate::error::{result_is, Error};
use crate::hir::model::{
    group_hir_model, lemma_texprs_view_push, texpr_view, texprs_view, tys_view, STyped, SpecExpr,
    SpecExtern, SpecFunTy, SpecFunction, SpecParam, SpecProgram, SpecTy,
};
use crate::hir::{
    self, is_arith_op, is_arith_op_string, is_comparison_op, is_comparison_op_string, op_result_ty, spec_sig,
    spec_asyncness_from_bool, spec_yielded_ty, Expr, FunTy, PseudoVar, Ty, TypedExpr,
};
use crate::strings::{contains_name, lemma_name_set_empty, lemma_name_set_push, name_set};
use vstd::prelude::*;

verus! {

broadcast use {vstd::std_specs::vec::group_vec_axioms, group_hir_model};

/// The signatures of the functions of a program, in the order they are
/// recorded: the externs, then the functions.
pub open spec fn spec_sigs(p: SpecProgram) -> Seq<(Seq<char>, SpecFunTy)> {
    p.externs.map_values(
        |e: SpecExtern| (e.name, spec_sig(spec_asyncness_from_bool(e.is_async), e.params, e.ret_ty)),
    ) + p.funcs.map_values(|f: SpecFunction| (f.name, spec_sig(f.asyncness, f.params, f.ret_ty)))
}

/// The signature last recorded for `name`.
pub open spec fn lookup_sig(sigs: Seq<(Seq<char>, SpecFunTy)>, name: Seq<char>) -> Option<SpecFunTy>
    decreases sigs.len(),
{
    if sigs.len() == 0 {
        None
    } else if sigs.last().0 == name {
        Some(sigs.last().1)
    } else {
        lookup_sig(sigs.drop_last(), name)
    }
}

/// Each argument has the type of the corresponding parameter.
pub open spec fn spec_arg_types_ok(param_tys: Seq<SpecTy>, args: Seq<STyped>) -> bool {
    forall|i: int| 0 <= i < param_tys.len() && 0 <= i < args.len() ==> param_tys[i] == #[trigger] args[i].1
}

/// What the type checker knows while checking a function.
pub struct TypingCtx {
    pub sigs: Seq<(Seq<char>, SpecFunTy)>,
    pub params: Seq<SpecParam>,
    pub ret_ty: SpecTy,
}

/// The typed form of an expression, and the local variables declared after
/// it; `None` when the expression is ill-typed.
pub open spec fn spec_type_expr(ctx: TypingCtx, lvars: Set<Seq<char>>, e: STyped) -> Option<(STyped, Set<Seq<char>>)>
    decreases e,
{
    match e.0 {
        SpecExpr::Number(n) => Some(((SpecExpr::Number(n), SpecTy::Int), lvars)),
        SpecExpr::PseudoVar(pv) => Some(
            (
                (
                    SpecExpr::PseudoVar(pv),
                    if pv == PseudoVar::Null {
                        SpecTy::Null
                    } else {
                        SpecTy::Bool
                    },
                ),
                lvars,
            ),
        ),
        SpecExpr::LVarRef(name) => if lvars.contains(name) {
            Some(((SpecExpr::LVarRef(name), SpecTy::Int), lvars))
        } else {
            None
        },
        SpecExpr::ArgRef(i) => if i < ctx.params.len() {
            Some(((SpecExpr::ArgRef(i), ctx.params[i as int].ty), lvars))
        } else {
            None
        },
        SpecExpr::FuncRef(name) => match lookup_sig(ctx.sigs, name) {
            Some(f) => Some(((SpecExpr::FuncRef(name), SpecTy::Fun(f)), lvars)),
            None => None,
        },
        SpecExpr::OpCall(op, l, r) => match spec_type_expr(ctx, lvars, *l) {
            Some((l2, lv1)) => match spec_type_expr(ctx, lv1, *r) {
                Some((r2, lv2)) => if is_arith_op(op) || is_comparison_op(op) {
                    Some(((SpecExpr::OpCall(op, Box::new(l2), Box::new(r2)), op_result_ty(op)), lv2))
                } else {
                    None
                },
                None => None,
            },
            None => None,
        },
        SpecExpr::FunCall(f, args) => match spec_type_expr(ctx, lvars, *f) {
            Some((f2, lv1)) => match f2.1 {
                SpecTy::Fun(ft) => if ft.param_tys.len() != args.len() {
                    None
                } else {
                    match spec_type_exprs(ctx, lv1, args) {
                        Some((args2, lv2)) => Some(((SpecExpr::FunCall(Box::new(f2), args2), *ft.ret_ty), lv2)),
                        None => None,
                    }
                },
                _ => None,
            },
            None => None,
        },
        SpecExpr::If(c, t, f) => match spec_type_expr(ctx, lvars, *c) {
            Some((c2, lv1)) => if c2.1 != SpecTy::Bool {
                None
            } else {
                match spec_type_exprs(ctx, lv1, t) {
                    Some((t2, lv2)) => match spec_type_exprs(ctx, lv2, f) {
                        Some((f2, lv3)) => match (spec_yielded_ty(t2), spec_yielded_ty(f2)) {
                            (Some(ty1), Some(ty2)) => if ty1 == ty2 {
                                Some(((SpecExpr::If(Box::new(c2), t2, f2), ty1), lv3))
                            } else {
                                None
                            },
                            _ => None,
                        },
                        None => None,
                    },
                    None => None,
                }
            },
            None => None,
        },
        SpecExpr::Yield(v) => match spec_type_expr(ctx, lvars, *v) {
            Some((v2, lv1)) => Some(((SpecExpr::Yield(Box::new(v2)), v2.1), lv1)),
            None => None,
        },
        SpecExpr::While(c, b) => match spec_type_expr(ctx, lvars, *c) {
            Some((c2, lv1)) => match spec_type_exprs(ctx, lv1, b) {
                Some((b2, lv2)) => Some(((SpecExpr::While(Box::new(c2), b2), SpecTy::Void), lv2)),
                None => None,
            },
            None => None,
        },
        SpecExpr::Alloc(name) => Some(((SpecExpr::Alloc(name), SpecTy::Void), lvars.insert(name))),
        SpecExpr::Assign(name, v) => match spec_type_expr(ctx, lvars, *v) {
            Some((v2, lv1)) => Some(((SpecExpr::Assign(name, Box::new(v2)), SpecTy::Void), lv1)),
            None => None,
        },
        SpecExpr::Return(v) => match spec_type_expr(ctx, lvars, *v) {
            Some((v2, lv1)) => if v2.1 == ctx.ret_ty {
                Some(((SpecExpr::Return(Box::new(v2)), SpecTy::Void), lv1))
            } else {
                None
            },
            None => None,
        },
        _ => None,
    }
}

pub open spec fn spec_type_exprs(ctx: TypingCtx, lvars: Set<Seq<char>>, es: Seq<STyped>) -> Option<(Seq<STyped>, Set<Seq<char>>)>
    decreases es,
{
    if es.len() == 0 {
        Some((Seq::empty(), lvars))
    } else {
        match spec_type_exprs(ctx, lvars, es.drop_last()) {
            Some((es2, lv1)) => match spec_type_expr(ctx, lv1, es.last()) {
                Some((e2, lv2)) => Some((es2.push(e2), lv2)),
                None => None,
            },
            None => None,
        }
    }
}

/// The typed form of a function.
pub open spec fn spec_type_func(sigs: Seq<(Seq<char>, SpecFunTy)>, f: SpecFunction) -> Option<SpecFunction> {
    let ctx = TypingCtx { sigs, params: f.params, ret_ty: f.ret_ty };
    match spec_type_exprs(ctx, Set::empty(), f.body_stmts) {
        Some((body, _)) => Some(SpecFunction { body_stmts: body, ..f }),
        None => None,
    }
}

pub open spec fn spec_type_funcs(sigs: Seq<(Seq<char>, SpecFunTy)>, fs: Seq<SpecFunction>) -> Option<Seq<SpecFunction>>
    decreases fs.len(),
{
    if fs.len() == 0 {
        Some(Seq::empty())
    } else {
        match (spec_type_funcs(sigs, fs.drop_last()), spec_type_func(sigs, fs.last())) {
            (Some(fs2), Some(f2)) => Some(fs2.push(f2)),
            _ => None,
        }
    }
}

/// The typed form of a program; `None` when it is ill-typed.
pub open spec fn spec_typing(p: SpecProgram) -> Option<SpecProgram> {
    match spec_type_funcs(spec_sigs(p), p.funcs) {
        Some(fs) => Some(SpecProgram { externs: p.externs, funcs: fs }),
        None => None,
    }
}

} // verus!

verus! {

/// View of a list of recorded signatures.
pub open spec fn sigs_view(v: Seq<(String, FunTy)>) -> Seq<(Seq<char>, SpecFunTy)> {
    v.map_values(|x: (String, FunTy)| x@)
}

/// The signature last recorded for `name`.
fn lookup(sigs: &Vec<(String, FunTy)>, name: &String) -> (r: Option<FunTy>)
    ensures
        match lookup_sig(sigs_view(sigs@), name@) {
            Some(f) => r is Some && r->0@ == f,
            None => r is None,
        },
{
    let ghost sv = sigs_view(sigs@);
    let mut i: usize = sigs.len();
    assert(sv.take(i as int) =~= sv);
    while i > 0
        invariant
            i <= sigs.len(),
            sv == sigs_view(sigs@),
            lookup_sig(sv, name@) == lookup_sig(sv.take(i as int), name@),
        decreases i,
    {
        assert(sv.take(i as int).drop_last() =~= sv.take(i - 1));
        if sigs[i - 1].0.eq(name) {
            return Some(sigs[i - 1].1.clone_fun_ty());
        }
        i -= 1;
    }
    None
}

/// The type an `if` clause yields, if it ends with `yield` or `return`.
fn opt_yielded_ty(stmts: &Vec<TypedExpr>) -> (r: Option<Ty>)
    ensures
        match spec_yielded_ty(texprs_view(stmts@)) {
            Some(t) => r is Some && r->0@ == t,
            None => r is None,
        },
{
    if stmts.len() == 0 {
        return None;
    }
    let stmt = &stmts[stmts.len() - 1];
    assert(texprs_view(stmts@)[stmts.len() - 1] == texpr_view(stmts@[stmts.len() - 1]));
    match &stmt.0 {
        Expr::Yield(val) => Some(val.1.clone_ty()),
        Expr::Return(_) => Some(Ty::Void),
        _ => None,
    }
}

/// Checks that each argument has the type of the corresponding parameter.
pub fn check_funcall_arg_types(param_tys: &Vec<Ty>, args: &Vec<TypedExpr>) -> (r: Result<(), Error>)
    ensures
        r is Ok <==> spec_arg_types_ok(tys_view(param_tys@), texprs_view(args@)),
{
    let mut i: usize = 0;
    while i < param_tys.len() && i < args.len()
        invariant
            i <= param_tys.len(),
            forall|j: int|
                0 <= j < i && j < args.len() ==> tys_view(param_tys@)[j] == #[trigger] texprs_view(args@)[j].1,
        decreases param_tys.len() - i,
    {
        if !param_tys[i].eq_ty(&args[i].1) {
            assert(tys_view(param_tys@)[i as int] != texprs_view(args@)[i as int].1);
            return Err(Error::new("funcall arg type mismatch"));
        }
        i += 1;
    }
    Ok(())
}

struct Typing {
    sigs: Vec<(String, FunTy)>,
}

impl Typing {
    spec fn ctx(&self, params: Seq<hir::Param>, ret_ty: Ty) -> TypingCtx {
        TypingCtx { sigs: sigs_view(self.sigs@), params: hir::params_view(params), ret_ty: ret_ty@ }
    }

    fn compile_expr(&self, params: &Vec<hir::Param>, ret_ty: &Ty, lvars: &mut Vec<String>, e: &TypedExpr) -> (r:
        Result<TypedExpr, Error>)
        ensures
            match spec_type_expr(self.ctx(params@, *ret_ty), name_set(old(lvars)@), e@) {
                Some((e2, lv)) => r is Ok && r->Ok_0@ == e2 && name_set(final(lvars)@) == lv,
                None => r is Err,
            },
        decreases e,
    {
        match &e.0 {
            Expr::Number(n) => Ok((Expr::Number(*n), Ty::Int)),
            Expr::PseudoVar(pv) => {
                let t = match pv {
                    PseudoVar::Null => Ty::Null,
                    _ => Ty::Bool,
                };
                Ok((Expr::PseudoVar(*pv), t))
            },
            Expr::LVarRef(name) => {
                if contains_name(lvars, name) {
                    Ok((Expr::LVarRef(name.clone()), Ty::Int))
                } else {
                    Err(Error::new("[BUG] unknown variable"))
                }
            },
            Expr::ArgRef(i) => {
                if *i < params.len() {
                    let t = params[*i].ty.clone_ty();
                    Ok((Expr::ArgRef(*i), t))
                } else {
                    Err(Error::new("[BUG] argument index out of range"))
                }
            },
            Expr::FuncRef(name) => match lookup(&self.sigs, name) {
                Some(fun_ty) => Ok((Expr::FuncRef(name.clone()), Ty::Fun(fun_ty))),
                None => Err(Error::new("[BUG] unknown function")),
            },
            Expr::OpCall(op, l, r) => {
                let ll = self.compile_expr(params, ret_ty, lvars, l)?;
                let rr = self.compile_expr(params, ret_ty, lvars, r)?;
                if is_arith_op_string(op) {
                    Ok((Expr::OpCall(op.clone(), Box::new(ll), Box::new(rr)), Ty::Int))
                } else if is_comparison_op_string(op) {
                    Ok((Expr::OpCall(op.clone(), Box::new(ll), Box::new(rr)), Ty::Bool))
                } else {
                    Err(Error::new("[BUG] unknown operator"))
                }
            },
            Expr::FunCall(fexpr, arg_exprs) => {
                let new_fexpr = self.compile_expr(params, ret_ty, lvars, fexpr)?;
                match &new_fexpr.1 {
                    Ty::Fun(_) => {},
                    _ => {
                        return Err(Error::new("not a function"));
                    },
                }
                let fun_ty = new_fexpr.1.as_fun_ty();
                assert(texprs_view(arg_exprs@).len() == arg_exprs.len());
                assert(tys_view(fun_ty.param_tys@).len() == fun_ty.param_tys.len());
                if fun_ty.param_tys.len() != arg_exprs.len() {
                    return Err(Error::new("funcall arity mismatch"));
                }
                let new_arg_exprs = self.compile_exprs(params, ret_ty, lvars, arg_exprs)?;
                let t = fun_ty.ret_ty.clone_ty();
                Ok((Expr::FunCall(Box::new(new_fexpr), new_arg_exprs), t))
            },
            Expr::If(cond, then, els) => {
                let new_cond = self.compile_expr(params, ret_ty, lvars, cond)?;
                match &new_cond.1 {
                    Ty::Bool => {},
                    _ => {
                        return Err(Error::new("condition should be bool"));
                    },
                }
                let new_then = self.compile_exprs(params, ret_ty, lvars, then)?;
                let new_els = self.compile_exprs(params, ret_ty, lvars, els)?;
                let t1 = match opt_yielded_ty(&new_then) {
                    Some(t) => t,
                    None => {
                        return Err(Error::new("if branch not terminated with yield"));
                    },
                };
                let t2 = match opt_yielded_ty(&new_els) {
                    Some(t) => t,
                    None => {
                        return Err(Error::new("if branch not terminated with yield"));
                    },
                };
                if !t1.eq_ty(&t2) {
                    return Err(Error::new("then and else should have the same type"));
                }
                Ok((Expr::If(Box::new(new_cond), new_then, new_els), t1))
            },
            Expr::Yield(val) => {
                let new_val = self.compile_expr(params, ret_ty, lvars, val)?;
                let t = new_val.1.clone_ty();
                Ok((Expr::Yield(Box::new(new_val)), t))
            },
            Expr::While(cond, body) => {
                let new_cond = self.compile_expr(params, ret_ty, lvars, cond)?;
                let new_body = self.compile_exprs(params, ret_ty, lvars, body)?;
                Ok((Expr::While(Box::new(new_cond), new_body), Ty::Void))
            },
            Expr::Alloc(name) => {
                // Milika vars are always Int now
                proof {
                    lemma_name_set_push(lvars@, *name);
                }
                lvars.push(name.clone());
                Ok((Expr::Alloc(name.clone()), Ty::Void))
            },
            Expr::Assign(name, val) => {
                let new_val = self.compile_expr(params, ret_ty, lvars, val)?;
                Ok((Expr::Assign(name.clone(), Box::new(new_val)), Ty::Void))
            },
            Expr::Return(val) => {
                let new_val = self.compile_expr(params, ret_ty, lvars, val)?;
                if !new_val.1.eq_ty(ret_ty) {
                    return Err(Error::new("return type mismatch"));
                }
                Ok((Expr::Return(Box::new(new_val)), Ty::Void))
            },
            _ => Err(Error::new("[BUG] unexpected expression before typing")),
        }
    }

    fn compile_exprs(&self, params: &Vec<hir::Param>, ret_ty: &Ty, lvars: &mut Vec<String>, es: &Vec<TypedExpr>) -> (r:
        Result<Vec<TypedExpr>, Error>)
        ensures
            match spec_type_exprs(self.ctx(params@, *ret_ty), name_set(old(lvars)@), texprs_view(es@)) {
                Some((es2, lv)) => r is Ok && texprs_view(r->Ok_0@) == es2 && name_set(final(lvars)@) == lv,
                None => r is Err,
            },
        decreases es,
    {
        let ghost ctx = self.ctx(params@, *ret_ty);
        let ghost lv0 = name_set(lvars@);
        let mut out: Vec<TypedExpr> = Vec::new();
        let mut i: usize = 0;
        assert(texprs_view(es@.take(0)) =~= Seq::<STyped>::empty());
        assert(texprs_view(out@) =~= Seq::<STyped>::empty());
        while i < es.len()
            invariant
                i <= es.len(),
                ctx == self.ctx(params@, *ret_ty),
                lv0 == name_set(old(lvars)@),
                spec_type_exprs(ctx, lv0, texprs_view(es@.take(i as int)))
                    == Some((texprs_view(out@), name_set(lvars@))),
            decreases es.len() - i,
        {
            assert(decreases_to!(es => es@[i as int]));
            let ghost prefix = es@.take(i as int);
            assert(es@.take(i + 1) =~= prefix.push(es@[i as int]));
            assert(texprs_view(es@.take(i + 1)) == texprs_view(prefix).push(es@[i as int]@));
            assert(texprs_view(es@.take(i + 1)).drop_last() =~= texprs_view(prefix));
            match self.compile_expr(params, ret_ty, lvars, &es[i]) {
                Ok(e) => {
                    proof {
                        lemma_texprs_view_push(out@, e);
                    }
                    out.push(e);
                },
                Err(err) => {
                    proof {
                        assert(spec_type_exprs(ctx, lv0, texprs_view(es@.take(i + 1))) is None);
                        assert(texprs_view(es@).take(i + 1) =~= texprs_view(es@.take(i + 1)));
                        lemma_type_exprs_prefix_err(ctx, lv0, texprs_view(es@), i + 1);
                    }
                    return Err(err);
                },
            }
            i += 1;
        }
        assert(es@.take(es.len() as int) =~= es@);
        Ok(out)
    }

    fn compile_func(&self, func: &hir::Function) -> (r: Result<hir::Function, Error>)
        ensures
            result_is(r, spec_type_func(sigs_view(self.sigs@), func@)),
    {
        let mut lvars: Vec<String> = Vec::new();
        proof {
            lemma_name_set_empty();
        }
        let body_stmts = self.compile_exprs(&func.params, &func.ret_ty, &mut lvars, &func.body_stmts)?;
        Ok(hir::Function {
            generated: func.generated,
            asyncness: func.asyncness,
            name: func.name.clone(),
            params: hir::clone_params(&func.params),
            ret_ty: func.ret_ty.clone_ty(),
            body_stmts,
        })
    }
}

proof fn lemma_type_exprs_prefix_err(ctx: TypingCtx, lv: Set<Seq<char>>, s: Seq<STyped>, n: int)
    requires
        0 <= n <= s.len(),
        spec_type_exprs(ctx, lv, s.take(n)) is None,
    ensures
        spec_type_exprs(ctx, lv, s) is None,
    decreases s.len() - n,
{
    if n < s.len() {
        assert(s.take(n + 1).drop_last() =~= s.take(n));
        lemma_type_exprs_prefix_err(ctx, lv, s, n + 1);
    } else {
        assert(s.take(n) =~= s);
    }
}

} // verus!

verus! {

proof fn lemma_type_funcs_prefix_err(sigs: Seq<(Seq<char>, SpecFunTy)>, s: Seq<SpecFunction>, n: int)
    requires
        0 <= n <= s.len(),
        spec_type_funcs(sigs, s.take(n)) is None,
    ensures
        spec_type_funcs(sigs, s) is None,
    decreases s.len() - n,
{
    if n < s.len() {
        assert(s.take(n + 1).drop_last() =~= s.take(n));
        lemma_type_funcs_prefix_err(sigs, s, n + 1);
    } else {
        assert(s.take(n) =~= s);
    }
}

/// Creates typed HIR from untyped HIR: gives each expression its type, and
/// fails when the program is ill-typed (unknown operator, call of a
/// non-function, wrong arity or argument type, non-`Bool` condition, clauses
/// of an `if` that do not yield the same type, `return` of a value of
/// another type than the function's).
pub fn run(hir: hir::Program) -> (r: Result<hir::Program, Error>)
    ensures
        result_is(r, spec_typing(hir@)),
{
    let ghost p = hir@;
    let mut sigs: Vec<(String, FunTy)> = Vec::new();
    let mut i: usize = 0;
    while i < hir.externs.len()
        invariant
            i <= hir.externs.len(),
            p == hir@,
            sigs_view(sigs@) =~= p.externs.take(i as int).map_values(
                |e: SpecExtern| (e.name, spec_sig(spec_asyncness_from_bool(e.is_async), e.params, e.ret_ty)),
            ),
        decreases hir.externs.len() - i,
    {
        let e = &hir.externs[i];
        let ghost old_sigs = sigs@;
        let entry = (e.name.clone(), e.fun_ty());
        sigs.push(entry);
        assert(sigs@ == old_sigs.push(entry));
        assert(sigs_view(sigs@) =~= sigs_view(old_sigs).push(entry@));
        assert(p.externs[i as int] == e@);
        assert(p.externs.take(i + 1) =~= p.externs.take(i as int).push(p.externs[i as int]));
        i += 1;
    }
    let mut i: usize = 0;
    assert(p.externs.take(hir.externs.len() as int) =~= p.externs);
    assert(p.funcs.take(0) =~= Seq::<SpecFunction>::empty());
    while i < hir.funcs.len()
        invariant
            i <= hir.funcs.len(),
            p == hir@,
            sigs_view(sigs@) =~= p.externs.map_values(
                |e: SpecExtern| (e.name, spec_sig(spec_asyncness_from_bool(e.is_async), e.params, e.ret_ty)),
            ) + p.funcs.take(i as int).map_values(
                |f: SpecFunction| (f.name, spec_sig(f.asyncness, f.params, f.ret_ty)),
            ),
        decreases hir.funcs.len() - i,
    {
        let f = &hir.funcs[i];
        let ghost old_sigs = sigs@;
        let entry = (f.name.clone(), f.fun_ty());
        sigs.push(entry);
        assert(sigs@ == old_sigs.push(entry));
        assert(sigs_view(sigs@) =~= sigs_view(old_sigs).push(entry@));
        assert(p.funcs[i as int] == f@);
        assert(p.funcs.take(i + 1) =~= p.funcs.take(i as int).push(p.funcs[i as int]));
        i += 1;
    }
    assert(p.funcs.take(hir.funcs.len() as int) =~= p.funcs);
    let c = Typing { sigs };
    let ghost sv = spec_sigs(p);
    let mut funcs: Vec<hir::Function> = Vec::new();
    let mut i: usize = 0;
    assert(hir::funcs_view(funcs@) =~= Seq::<SpecFunction>::empty());
    assert(p.funcs.take(0) =~= Seq::<SpecFunction>::empty());
    while i < hir.funcs.len()
        invariant
            i <= hir.funcs.len(),
            p == hir@,
            sv == spec_sigs(p),
            sigs_view(c.sigs@) == sv,
            spec_type_funcs(sv, p.funcs.take(i as int)) == Some(hir::funcs_view(funcs@)),
        decreases hir.funcs.len() - i,
    {
        assert(p.funcs.take(i + 1).drop_last() =~= p.funcs.take(i as int));
        match c.compile_func(&hir.funcs[i]) {
            Ok(f) => {
                assert(hir::funcs_view(funcs@.push(f)) =~= hir::funcs_view(funcs@).push(f@));
                funcs.push(f);
            },
            Err(err) => {
                proof {
                    lemma_type_funcs_prefix_err(sv, p.funcs, i + 1);
                }
                return Err(err);
            },
        }
        i += 1;
    }
    assert(p.funcs.take(hir.funcs.len() as int) =~= p.funcs);
    Ok(hir::Program { externs: hir.externs, funcs })
}

} // verus!
