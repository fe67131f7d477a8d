//! What `lower_async_if` makes of the functions of a program.
use crate::hir::model::{STyped, SpecExpr, SpecFunction, SpecParam, SpecProgram, SpecTy};
use crate::hir_lowering::lower_async_if::{
    add_stmt, arg_refs, chapter_func, goto_call, goto_endif, if_result_name, la_body, la_clause, la_expr, la_exprs,
    la_func, la_funcs, new_chapter, spec_lower_async_if, suffixed, LowerCtx, SpecChapter,
};
use crate::laws::lower_if::{all_no_if, lemma_all_no_if, no_if};
use vstd::prelude::*;

verus! {

/// No statement of `stmts` holds an `if`.
pub open spec fn stmts_no_if(stmts: Seq<STyped>) -> bool {
    forall|k: int| 0 <= k < stmts.len() ==> #[trigger] no_if(stmts[k])
}

spec fn chaps_ok(chaps: Seq<SpecChapter>) -> bool {
    forall|i: int| 0 <= i < chaps.len() ==> #[trigger] stmts_no_if(chaps[i].stmts)
}

/// `after` keeps the chapters of `before`, by name and parameters, and may
/// add more.
spec fn chaps_kept(before: Seq<SpecChapter>, after: Seq<SpecChapter>) -> bool {
    &&& after.len() >= before.len()
    &&& forall|i: int|
        0 <= i < before.len() ==> (#[trigger] after[i]).name == before[i].name && after[i].params == before[i].params
}

proof fn lemma_arg_refs_no_if(params: Seq<SpecParam>)
    ensures
        all_no_if(arg_refs(params)),
{
    lemma_all_no_if(arg_refs(params));
    assert forall|i: int| 0 <= i < arg_refs(params).len() implies #[trigger] no_if(arg_refs(params)[i]) by {
        assert(arg_refs(params)[i] == (SpecExpr::ArgRef(i as usize), params[i].ty));
    }
}

proof fn lemma_goto_call_no_if(ctx: LowerCtx, name: Seq<char>, to_endif: Option<STyped>)
    requires
        to_endif matches Some(v) ==> no_if(v),
    ensures
        no_if(goto_call(ctx, name, to_endif)),
        all_no_if((goto_call(ctx, name, to_endif).0)->FunCall_1),
{
    lemma_arg_refs_no_if(ctx.params);
    let args = (goto_call(ctx, name, to_endif).0)->FunCall_1;
    match to_endif {
        Some(v) => {
            assert(args.drop_last() =~= arg_refs(ctx.params));
            assert(args.last() == v);
        },
        None => {},
    }
    assert(all_no_if(args));
    let g = goto_call(ctx, name, to_endif);
    assert(no_if(*(g.0->FunCall_0)));
}

proof fn lemma_add_stmt_ok(chaps: Seq<SpecChapter>, s: STyped)
    requires
        chaps.len() > 0,
        chaps_ok(chaps),
        no_if(s),
    ensures
        chaps_ok(add_stmt(chaps, s)),
        chaps_kept(chaps, add_stmt(chaps, s)),
{
    let r = add_stmt(chaps, s);
    assert forall|i: int| 0 <= i < r.len() implies #[trigger] stmts_no_if(r[i].stmts) by {
        assert(stmts_no_if(chaps[i].stmts));
        if i == chaps.len() - 1 {
            assert forall|k: int| 0 <= k < r[i].stmts.len() implies #[trigger] no_if(r[i].stmts[k]) by {
                if k < chaps[i].stmts.len() {
                    assert(no_if(chaps[i].stmts[k]));
                }
            }
        }
    }
}

proof fn lemma_la_expr_ok(ctx: LowerCtx, chaps: Seq<SpecChapter>, e: STyped)
    requires
        chaps.len() > 0,
        chaps_ok(chaps),
        la_expr(ctx, chaps, e) is Some,
    ensures
        chaps_ok(la_expr(ctx, chaps, e).unwrap().0),
        chaps_kept(chaps, la_expr(ctx, chaps, e).unwrap().0),
        no_if(la_expr(ctx, chaps, e).unwrap().1),
    decreases e,
{
    match e.0 {
        SpecExpr::Assign(_, v) => {
            lemma_la_expr_ok(ctx, chaps, *v);
        },
        SpecExpr::OpCall(_, l, r) => {
            lemma_la_expr_ok(ctx, chaps, *l);
            let c1 = la_expr(ctx, chaps, *l).unwrap().0;
            lemma_la_expr_ok(ctx, c1, *r);
        },
        SpecExpr::FunCall(f, args) => {
            lemma_la_expr_ok(ctx, chaps, *f);
            let c1 = la_expr(ctx, chaps, *f).unwrap().0;
            lemma_la_exprs_ok(ctx, c1, args);
        },
        SpecExpr::While(c, b) => {
            lemma_la_expr_ok(ctx, chaps, *c);
            let c1 = la_expr(ctx, chaps, *c).unwrap().0;
            lemma_la_exprs_ok(ctx, c1, b);
        },
        SpecExpr::Return(v) => {
            lemma_la_expr_ok(ctx, chaps, *v);
        },
        SpecExpr::Yield(v) => {
            lemma_la_expr_ok(ctx, chaps, *v);
        },
        SpecExpr::If(c, t, f) => {
            let func_name = chaps.last().name;
            let then_chap = new_chapter(suffixed(func_name, 't'), ctx.params);
            let else_chap = new_chapter(suffixed(func_name, 'f'), ctx.params);
            let endif_chap = new_chapter(
                suffixed(func_name, 'e'),
                ctx.params.push(SpecParam { ty: e.1, name: if_result_name() }),
            );
            lemma_la_expr_ok(ctx, chaps, *c);
            let (c1, cond2) = la_expr(ctx, chaps, *c).unwrap();
            lemma_la_clause_ok(ctx, c1, then_chap, t, endif_chap.name);
            let (c2, then2) = la_clause(ctx, c1, then_chap, t, endif_chap.name).unwrap();
            lemma_la_clause_ok(ctx, c2, else_chap, f, endif_chap.name);
            let (c3, else2) = la_clause(ctx, c2, else_chap, f, endif_chap.name).unwrap();
            let then_call = goto_call(ctx, then_chap.name, None);
            let else_call = goto_call(ctx, else_chap.name, None);
            lemma_goto_call_no_if(ctx, then_chap.name, None);
            lemma_goto_call_no_if(ctx, else_chap.name, None);
            assert(no_if(*(then_call.0->FunCall_0)));
            assert(no_if(*(else_call.0->FunCall_0)));
            let terminator = (
                SpecExpr::CondReturn(
                    Box::new(cond2),
                    then_call.0->FunCall_0,
                    then_call.0->FunCall_1,
                    else_call.0->FunCall_0,
                    else_call.0->FunCall_1,
                ),
                SpecTy::Void,
            );
            assert(no_if(terminator));
            lemma_add_stmt_ok(c3, terminator);
            let c4 = add_stmt(c3, terminator);
            let r = c4.push(then2).push(else2).push(endif_chap);
            assert(r == la_expr(ctx, chaps, e).unwrap().0);
            assert(stmts_no_if(endif_chap.stmts));
            assert forall|i: int| 0 <= i < r.len() implies #[trigger] stmts_no_if(r[i].stmts) by {
                if i < c4.len() {
                    assert(stmts_no_if(c4[i].stmts));
                }
            }
        },
        _ => {},
    }
}

proof fn lemma_la_exprs_ok(ctx: LowerCtx, chaps: Seq<SpecChapter>, es: Seq<STyped>)
    requires
        chaps.len() > 0,
        chaps_ok(chaps),
        la_exprs(ctx, chaps, es) is Some,
    ensures
        chaps_ok(la_exprs(ctx, chaps, es).unwrap().0),
        chaps_kept(chaps, la_exprs(ctx, chaps, es).unwrap().0),
        all_no_if(la_exprs(ctx, chaps, es).unwrap().1),
    decreases es,
{
    if es.len() > 0 {
        lemma_la_exprs_ok(ctx, chaps, es.drop_last());
        let (c1, es2) = la_exprs(ctx, chaps, es.drop_last()).unwrap();
        assert(decreases_to!(es => es[es.len() - 1]));
        lemma_la_expr_ok(ctx, c1, es.last());
        let e2 = la_expr(ctx, c1, es.last()).unwrap().1;
        assert(es2.push(e2).drop_last() =~= es2);
    }
}

proof fn lemma_la_clause_ok(
    ctx: LowerCtx,
    chaps: Seq<SpecChapter>,
    chap: SpecChapter,
    exprs: Seq<STyped>,
    endif_name: Seq<char>,
)
    requires
        chaps.len() > 0,
        chaps_ok(chaps),
        stmts_no_if(chap.stmts),
        la_clause(ctx, chaps, chap, exprs, endif_name) is Some,
    ensures
        chaps_ok(la_clause(ctx, chaps, chap, exprs, endif_name).unwrap().0),
        chaps_kept(chaps, la_clause(ctx, chaps, chap, exprs, endif_name).unwrap().0),
        stmts_no_if(la_clause(ctx, chaps, chap, exprs, endif_name).unwrap().1.stmts),
        la_clause(ctx, chaps, chap, exprs, endif_name).unwrap().1.name == chap.name,
        la_clause(ctx, chaps, chap, exprs, endif_name).unwrap().1.params == chap.params,
    decreases exprs,
{
    match exprs.last().0 {
        SpecExpr::Yield(v) => {
            lemma_la_exprs_ok(ctx, chaps, exprs.drop_last());
            let (c1, body) = la_exprs(ctx, chaps, exprs.drop_last()).unwrap();
            assert(decreases_to!(exprs => exprs[exprs.len() - 1]));
            lemma_la_expr_ok(ctx, c1, *v);
            let v2 = la_expr(ctx, c1, *v).unwrap().1;
            lemma_goto_call_no_if(ctx, endif_name, Some(v2));
            let g = goto_endif(ctx, endif_name, v2);
            assert(no_if(g));
            lemma_all_no_if(body);
            let s = chap.stmts + body + seq![g];
            assert forall|k: int| 0 <= k < s.len() implies #[trigger] no_if(s[k]) by {
                if k < chap.stmts.len() {
                    assert(no_if(chap.stmts[k]));
                } else if k < chap.stmts.len() + body.len() {
                    assert(no_if(body[k - chap.stmts.len()]));
                }
            }
        },
        _ => {},
    }
}

proof fn lemma_la_body_ok(ctx: LowerCtx, chaps: Seq<SpecChapter>, es: Seq<STyped>)
    requires
        chaps.len() > 0,
        chaps_ok(chaps),
        la_body(ctx, chaps, es) is Some,
    ensures
        chaps_ok(la_body(ctx, chaps, es).unwrap()),
        chaps_kept(chaps, la_body(ctx, chaps, es).unwrap()),
    decreases es.len(),
{
    if es.len() > 0 {
        lemma_la_body_ok(ctx, chaps, es.drop_last());
        let c1 = la_body(ctx, chaps, es.drop_last()).unwrap();
        lemma_la_expr_ok(ctx, c1, es.last());
        let (c2, e2) = la_expr(ctx, c1, es.last()).unwrap();
        lemma_add_stmt_ok(c2, e2);
    }
}

/// After `lower_async_if` no statement holds an `if`: each has become a
/// `cond_return` between calls of new functions, to which the rest of each
/// clause, and what followed the `if`, have moved.
pub proof fn law_lower_async_if_splits_ifs(p: SpecProgram)
    requires
        spec_lower_async_if(p) is Some,
    ensures
        forall|i: int|
            0 <= i < spec_lower_async_if(p)->0.funcs.len() ==> stmts_no_if(
                #[trigger] spec_lower_async_if(p)->0.funcs[i].body_stmts,
            ),
{
    lemma_la_funcs_ok(p.funcs);
}

proof fn lemma_la_funcs_ok(fs: Seq<SpecFunction>)
    requires
        la_funcs(fs) is Some,
    ensures
        forall|i: int| 0 <= i < la_funcs(fs)->0.len() ==> stmts_no_if(#[trigger] la_funcs(fs)->0[i].body_stmts),
    decreases fs.len(),
{
    if fs.len() > 0 {
        lemma_la_funcs_ok(fs.drop_last());
        law_lower_async_if_chapters(fs.last());
        let a = la_funcs(fs.drop_last())->0;
        let b = la_func(fs.last())->0;
        assert forall|i: int| 0 <= i < la_funcs(fs)->0.len() implies stmts_no_if(
            #[trigger] la_funcs(fs)->0[i].body_stmts,
        ) by {
            if i < a.len() {
                assert(stmts_no_if(a[i].body_stmts));
            } else {
                assert(stmts_no_if(b[i - a.len()].body_stmts));
            }
        }
    }
}

/// `lower_async_if` splits a function into functions of which the first
/// has the name and parameters of the function; all of them keep its return
/// type, asyncness and origin; and none of them holds an `if`.
pub proof fn law_lower_async_if_chapters(f: SpecFunction)
    requires
        la_func(f) is Some,
    ensures
        la_func(f)->0.len() >= 1,
        la_func(f)->0[0].name == f.name,
        la_func(f)->0[0].params == f.params,
        forall|i: int|
            0 <= i < la_func(f)->0.len() ==> {
                let g = #[trigger] la_func(f)->0[i];
                &&& g.ret_ty == f.ret_ty
                &&& g.asyncness == f.asyncness
                &&& g.generated == f.generated
                &&& stmts_no_if(g.body_stmts)
            },
{
    let ctx = LowerCtx { params: f.params, ret_ty: f.ret_ty };
    let first = seq![new_chapter(f.name, f.params)];
    assert(chaps_ok(first)) by {
        assert forall|i: int| 0 <= i < first.len() implies #[trigger] stmts_no_if(first[i].stmts) by {
            assert(first[i] == new_chapter(f.name, f.params));
        }
    }
    lemma_la_body_ok(ctx, first, f.body_stmts);
    let chaps = la_body(ctx, first, f.body_stmts).unwrap();
    assert(chaps[0].name == f.name);
    assert forall|i: int| 0 <= i < la_func(f)->0.len() implies {
        let g = #[trigger] la_func(f)->0[i];
        &&& g.ret_ty == f.ret_ty
        &&& g.asyncness == f.asyncness
        &&& g.generated == f.generated
        &&& stmts_no_if(g.body_stmts)
    } by {
        assert(la_func(f)->0[i] == chapter_func(f, chaps[i]));
        assert(stmts_no_if(chaps[i].stmts));
    }
}

} // verus!

verus! {

/// Lowering an `if` ends the current chapter with a `cond_return` on the
/// lowered condition: the function it calls when the condition holds is
/// the `'t` chapter holding the lowered `then` clause, and the one it calls
/// otherwise is the `'f` chapter holding the lowered `else` clause; both
/// chapters follow the current one, the `then` chapter first.
pub proof fn law_lower_async_if_clause_chapters(ctx: LowerCtx, chaps: Seq<SpecChapter>, e: STyped)
    requires
        chaps.len() > 0,
        e.0 is If,
        la_expr(ctx, chaps, e) is Some,
    ensures
        ({
            let name = chaps.last().name;
            let then_chap = new_chapter(suffixed(name, 't'), ctx.params);
            let else_chap = new_chapter(suffixed(name, 'f'), ctx.params);
            let endif_name = suffixed(name, 'e');
            let (c1, cond2) = la_expr(ctx, chaps, *(e.0->If_0)).unwrap();
            let (c2, then2) = la_clause(ctx, c1, then_chap, e.0->If_1, endif_name).unwrap();
            let (c3, else2) = la_clause(ctx, c2, else_chap, e.0->If_2, endif_name).unwrap();
            let cs = la_expr(ctx, chaps, e).unwrap().0;
            &&& la_expr(ctx, chaps, *(e.0->If_0)) is Some
            &&& la_clause(ctx, c1, then_chap, e.0->If_1, endif_name) is Some
            &&& la_clause(ctx, c2, else_chap, e.0->If_2, endif_name) is Some
            &&& c3.len() > 0
            &&& cs.len() == c3.len() + 3
            &&& cs[c3.len() - 1].stmts.len() > 0
            &&& cs[c3.len() - 1].stmts.last().0 is CondReturn
            &&& {
                let cr = cs[c3.len() - 1].stmts.last().0;
                &&& *(cr->CondReturn_0) == cond2
                &&& (*(cr->CondReturn_1)).0 == SpecExpr::FuncRef(then2.name)
                &&& (*(cr->CondReturn_3)).0 == SpecExpr::FuncRef(else2.name)
                &&& then2.name == then_chap.name
                &&& else2.name == else_chap.name
                &&& cs[c3.len() as int] == then2
                &&& cs[c3.len() as int + 1] == else2
            }
        }),
{
    let name = chaps.last().name;
    let then_chap = new_chapter(suffixed(name, 't'), ctx.params);
    let else_chap = new_chapter(suffixed(name, 'f'), ctx.params);
    let endif_name = suffixed(name, 'e');
    let (c1, cond2) = la_expr(ctx, chaps, *(e.0->If_0)).unwrap();
    lemma_la_expr_len(ctx, chaps, *(e.0->If_0));
    lemma_la_clause_len(ctx, c1, then_chap, e.0->If_1, endif_name);
    let (c2, then2) = la_clause(ctx, c1, then_chap, e.0->If_1, endif_name).unwrap();
    lemma_la_clause_len(ctx, c2, else_chap, e.0->If_2, endif_name);
    let (c3, else2) = la_clause(ctx, c2, else_chap, e.0->If_2, endif_name).unwrap();
    let then_call = goto_call(ctx, then_chap.name, None);
    let else_call = goto_call(ctx, else_chap.name, None);
    let terminator = (
        SpecExpr::CondReturn(
            Box::new(cond2),
            then_call.0->FunCall_0,
            then_call.0->FunCall_1,
            else_call.0->FunCall_0,
            else_call.0->FunCall_1,
        ),
        SpecTy::Void,
    );
    let c4 = add_stmt(c3, terminator);
    assert(la_expr(ctx, chaps, e).unwrap().0 == c4.push(then2).push(else2).push(
        new_chapter(endif_name, ctx.params.push(SpecParam { ty: e.1, name: if_result_name() })),
    ));
    assert(c4[c3.len() - 1].stmts.last() == terminator);
}


/// Lowering never removes chapters.
proof fn lemma_la_expr_len(ctx: LowerCtx, chaps: Seq<SpecChapter>, e: STyped)
    requires
        la_expr(ctx, chaps, e) is Some,
    ensures
        la_expr(ctx, chaps, e).unwrap().0.len() >= chaps.len(),
    decreases e,
{
    match e.0 {
        SpecExpr::Assign(_, v) => lemma_la_expr_len(ctx, chaps, *v),
        SpecExpr::OpCall(_, l, r) => {
            lemma_la_expr_len(ctx, chaps, *l);
            lemma_la_expr_len(ctx, la_expr(ctx, chaps, *l).unwrap().0, *r);
        },
        SpecExpr::FunCall(f, args) => {
            lemma_la_expr_len(ctx, chaps, *f);
            lemma_la_exprs_len(ctx, la_expr(ctx, chaps, *f).unwrap().0, args);
        },
        SpecExpr::While(c, b) => {
            lemma_la_expr_len(ctx, chaps, *c);
            lemma_la_exprs_len(ctx, la_expr(ctx, chaps, *c).unwrap().0, b);
        },
        SpecExpr::Return(v) => lemma_la_expr_len(ctx, chaps, *v),
        SpecExpr::Yield(v) => lemma_la_expr_len(ctx, chaps, *v),
        SpecExpr::If(c, t, f) => {
            let name = chaps.last().name;
            let then_chap = new_chapter(suffixed(name, 't'), ctx.params);
            let else_chap = new_chapter(suffixed(name, 'f'), ctx.params);
            let endif_name = suffixed(name, 'e');
            lemma_la_expr_len(ctx, chaps, *c);
            let c1 = la_expr(ctx, chaps, *c).unwrap().0;
            lemma_la_clause_len(ctx, c1, then_chap, t, endif_name);
            let c2 = la_clause(ctx, c1, then_chap, t, endif_name).unwrap().0;
            lemma_la_clause_len(ctx, c2, else_chap, f, endif_name);
        },
        _ => {},
    }
}

proof fn lemma_la_exprs_len(ctx: LowerCtx, chaps: Seq<SpecChapter>, es: Seq<STyped>)
    requires
        la_exprs(ctx, chaps, es) is Some,
    ensures
        la_exprs(ctx, chaps, es).unwrap().0.len() >= chaps.len(),
    decreases es,
{
    if es.len() > 0 {
        lemma_la_exprs_len(ctx, chaps, es.drop_last());
        let c1 = la_exprs(ctx, chaps, es.drop_last()).unwrap().0;
        assert(decreases_to!(es => es[es.len() - 1]));
        lemma_la_expr_len(ctx, c1, es.last());
    }
}

proof fn lemma_la_clause_len(
    ctx: LowerCtx,
    chaps: Seq<SpecChapter>,
    chap: SpecChapter,
    exprs: Seq<STyped>,
    endif_name: Seq<char>,
)
    requires
        la_clause(ctx, chaps, chap, exprs, endif_name) is Some,
    ensures
        la_clause(ctx, chaps, chap, exprs, endif_name).unwrap().0.len() >= chaps.len(),
        la_clause(ctx, chaps, chap, exprs, endif_name).unwrap().1.name == chap.name,
    decreases exprs,
{
    match exprs.last().0 {
        SpecExpr::Yield(v) => {
            lemma_la_exprs_len(ctx, chaps, exprs.drop_last());
            let c1 = la_exprs(ctx, chaps, exprs.drop_last()).unwrap().0;
            assert(decreases_to!(exprs => exprs[exprs.len() - 1]));
            lemma_la_expr_len(ctx, c1, *v);
        },
        _ => {},
    }
}

} // verus!
