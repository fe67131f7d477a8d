//! What type checking keeps of a program.
use crate::hir::model::{STyped, SpecExpr, SpecFunTy, SpecFunction, SpecParam, SpecProgram};
use crate::hir::typing::{spec_sigs, spec_type_expr, spec_type_exprs, spec_type_funcs, spec_typing, TypingCtx};
use vstd::prelude::*;

verus! {

proof fn lemma_type_funcs_keep(sigs: Seq<(Seq<char>, SpecFunTy)>, fs: Seq<SpecFunction>)
    requires
        spec_type_funcs(sigs, fs) is Some,
    ensures
        spec_type_funcs(sigs, fs)->0.len() == fs.len(),
        forall|i: int|
            0 <= i < fs.len() ==> #[trigger] spec_type_funcs(sigs, fs)->0[i] == (SpecFunction {
                body_stmts: spec_type_funcs(sigs, fs)->0[i].body_stmts,
                ..fs[i]
            }),
    decreases fs.len(),
{
    if fs.len() > 0 {
        lemma_type_funcs_keep(sigs, fs.drop_last());
        let a = spec_type_funcs(sigs, fs.drop_last())->0;
        assert forall|i: int| 0 <= i < fs.len() implies #[trigger] spec_type_funcs(sigs, fs)->0[i] == (SpecFunction {
            body_stmts: spec_type_funcs(sigs, fs)->0[i].body_stmts,
            ..fs[i]
        }) by {
            if i < fs.len() - 1 {
                assert(spec_type_funcs(sigs, fs)->0[i] == a[i]);
                assert(fs.drop_last()[i] == fs[i]);
            }
        }
    }
}

/// Type checking gives types to the statements of each function and changes
/// nothing else: the externs, and each function's name, parameters, return
/// type, asyncness and origin, stay as they were.
pub proof fn law_typing_keeps_signatures(p: SpecProgram)
    requires
        spec_typing(p) is Some,
    ensures
        spec_typing(p)->0.externs == p.externs,
        spec_typing(p)->0.funcs.len() == p.funcs.len(),
        forall|i: int|
            0 <= i < p.funcs.len() ==> #[trigger] spec_typing(p)->0.funcs[i] == (SpecFunction {
                body_stmts: spec_typing(p)->0.funcs[i].body_stmts,
                ..p.funcs[i]
            }),
{
    lemma_type_funcs_keep(spec_sigs(p), p.funcs);
}

} // verus!

verus! {

/// Every reference to a parameter in `e`, at any depth, names one of
/// `params` and has the declared type of the parameter it names.
pub open spec fn argrefs_typed(e: STyped, params: Seq<SpecParam>) -> bool
    decreases e,
{
    match e.0 {
        SpecExpr::ArgRef(i) => i < params.len() && e.1 == params[i as int].ty,
        SpecExpr::OpCall(_, l, r) => argrefs_typed(*l, params) && argrefs_typed(*r, params),
        SpecExpr::FunCall(f, args) => argrefs_typed(*f, params) && all_argrefs_typed(args, params),
        SpecExpr::If(c, t, f) => argrefs_typed(*c, params) && all_argrefs_typed(t, params) && all_argrefs_typed(
            f,
            params,
        ),
        SpecExpr::Yield(v) => argrefs_typed(*v, params),
        SpecExpr::While(c, b) => argrefs_typed(*c, params) && all_argrefs_typed(b, params),
        SpecExpr::Assign(_, v) => argrefs_typed(*v, params),
        SpecExpr::Return(v) => argrefs_typed(*v, params),
        SpecExpr::Cast(_, v) => argrefs_typed(*v, params),
        SpecExpr::CondReturn(c, ft, at, ff, af) => argrefs_typed(*c, params) && argrefs_typed(*ft, params)
            && all_argrefs_typed(at, params) && argrefs_typed(*ff, params) && all_argrefs_typed(af, params),
        SpecExpr::Br(v, _) => argrefs_typed(*v, params),
        SpecExpr::CondBr(c, _, _) => argrefs_typed(*c, params),
        _ => true,
    }
}

/// `argrefs_typed` for each of `es`.
pub open spec fn all_argrefs_typed(es: Seq<STyped>, params: Seq<SpecParam>) -> bool
    decreases es,
{
    if es.len() == 0 {
        true
    } else {
        all_argrefs_typed(es.drop_last(), params) && argrefs_typed(es.last(), params)
    }
}

proof fn lemma_all_argrefs_typed(es: Seq<STyped>, params: Seq<SpecParam>, k: int)
    requires
        all_argrefs_typed(es, params),
        0 <= k < es.len(),
    ensures
        argrefs_typed(es[k], params),
    decreases es.len(),
{
    if k < es.len() - 1 {
        lemma_all_argrefs_typed(es.drop_last(), params, k);
        assert(es.drop_last()[k] == es[k]);
    }
}

proof fn lemma_type_expr_argrefs(ctx: TypingCtx, lv: Set<Seq<char>>, e: STyped)
    requires
        spec_type_expr(ctx, lv, e) is Some,
    ensures
        argrefs_typed(spec_type_expr(ctx, lv, e).unwrap().0, ctx.params),
    decreases e,
{
    match e.0 {
        SpecExpr::OpCall(_, l, r) => {
            lemma_type_expr_argrefs(ctx, lv, *l);
            lemma_type_expr_argrefs(ctx, spec_type_expr(ctx, lv, *l).unwrap().1, *r);
        },
        SpecExpr::FunCall(f, args) => {
            lemma_type_expr_argrefs(ctx, lv, *f);
            lemma_type_exprs_argrefs(ctx, spec_type_expr(ctx, lv, *f).unwrap().1, args);
        },
        SpecExpr::If(c, t, f) => {
            lemma_type_expr_argrefs(ctx, lv, *c);
            let lv1 = spec_type_expr(ctx, lv, *c).unwrap().1;
            lemma_type_exprs_argrefs(ctx, lv1, t);
            let lv2 = spec_type_exprs(ctx, lv1, t).unwrap().1;
            lemma_type_exprs_argrefs(ctx, lv2, f);
        },
        SpecExpr::Yield(v) => lemma_type_expr_argrefs(ctx, lv, *v),
        SpecExpr::While(c, b) => {
            lemma_type_expr_argrefs(ctx, lv, *c);
            lemma_type_exprs_argrefs(ctx, spec_type_expr(ctx, lv, *c).unwrap().1, b);
        },
        SpecExpr::Assign(_, v) => lemma_type_expr_argrefs(ctx, lv, *v),
        SpecExpr::Return(v) => lemma_type_expr_argrefs(ctx, lv, *v),
        _ => {},
    }
}

proof fn lemma_type_exprs_argrefs(ctx: TypingCtx, lv: Set<Seq<char>>, es: Seq<STyped>)
    requires
        spec_type_exprs(ctx, lv, es) is Some,
    ensures
        all_argrefs_typed(spec_type_exprs(ctx, lv, es).unwrap().0, ctx.params),
    decreases es,
{
    if es.len() > 0 {
        lemma_type_exprs_argrefs(ctx, lv, es.drop_last());
        let (es2, lv1) = spec_type_exprs(ctx, lv, es.drop_last()).unwrap();
        assert(decreases_to!(es => es[es.len() - 1]));
        lemma_type_expr_argrefs(ctx, lv1, es.last());
        let e2 = spec_type_expr(ctx, lv1, es.last()).unwrap().0;
        assert(es2.push(e2).drop_last() =~= es2);
    }
}

proof fn lemma_type_funcs_argrefs(sigs: Seq<(Seq<char>, SpecFunTy)>, fs: Seq<SpecFunction>)
    requires
        spec_type_funcs(sigs, fs) is Some,
    ensures
        forall|i: int|
            0 <= i < spec_type_funcs(sigs, fs)->0.len() ==> all_argrefs_typed(
                (#[trigger] spec_type_funcs(sigs, fs)->0[i]).body_stmts,
                fs[i].params,
            ),
    decreases fs.len(),
{
    if fs.len() > 0 {
        lemma_type_funcs_argrefs(sigs, fs.drop_last());
        lemma_type_funcs_keep(sigs, fs.drop_last());
        let f = fs.last();
        let ctx = TypingCtx { sigs, params: f.params, ret_ty: f.ret_ty };
        lemma_type_exprs_argrefs(ctx, Set::empty(), f.body_stmts);
        let a = spec_type_funcs(sigs, fs.drop_last())->0;
        assert forall|i: int| 0 <= i < spec_type_funcs(sigs, fs)->0.len() implies all_argrefs_typed(
            (#[trigger] spec_type_funcs(sigs, fs)->0[i]).body_stmts,
            fs[i].params,
        ) by {
            if i < a.len() {
                assert(fs.drop_last()[i] == fs[i]);
                assert(spec_type_funcs(sigs, fs)->0[i] == a[i]);
            }
        }
    }
}

/// After type checking, every reference to a parameter, in any statement of
/// any function and at any depth, has the declared type of the parameter it
/// names (the `i`-th parameter for `ArgRef(i)`).
pub proof fn law_typing_gives_parameters_their_types(p: SpecProgram)
    requires
        spec_typing(p) is Some,
    ensures
        forall|i: int, k: int|
            0 <= i < spec_typing(p)->0.funcs.len() && 0 <= k < spec_typing(p)->0.funcs[i].body_stmts.len()
                ==> argrefs_typed(
                #[trigger] spec_typing(p)->0.funcs[i].body_stmts[k],
                spec_typing(p)->0.funcs[i].params,
            ),
{
    lemma_type_funcs_argrefs(spec_sigs(p), p.funcs);
    lemma_type_funcs_keep(spec_sigs(p), p.funcs);
    assert forall|i: int, k: int|
        0 <= i < spec_typing(p)->0.funcs.len() && 0 <= k < spec_typing(p)->0.funcs[i].body_stmts.len() implies argrefs_typed(
        #[trigger] spec_typing(p)->0.funcs[i].body_stmts[k],
        spec_typing(p)->0.funcs[i].params,
    ) by {
        assert(spec_typing(p)->0.funcs[i].params == p.funcs[i].params);
        lemma_all_argrefs_typed(spec_typing(p)->0.funcs[i].body_stmts, p.funcs[i].params, k);
    }
}

} // verus!
