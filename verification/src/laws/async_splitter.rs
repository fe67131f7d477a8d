//! What `async_splitter` makes of the functions and externs of a program.
use crate::hir::model::{STyped, SpecExpr, SpecFunction, SpecParam, SpecTy};
use crate::hir::split::{uniq_names, SpecSplitProgram};
use crate::hir::Asyncness;
use crate::hir_lowering::async_splitter as splitter;
use vstd::prelude::*;

verus! {

/// `a` is a prefix of `b`.
pub open spec fn stmts_prefix(a: Seq<STyped>, b: Seq<STyped>) -> bool {
    a.len() <= b.len() && forall|k: int| 0 <= k < a.len() ==> #[trigger] b[k] == a[k]
}

/// `params` begin with `$env`.
pub open spec fn takes_env_first(params: Seq<SpecParam>) -> bool {
    params.len() >= 1 && params[0] == (SpecParam { ty: SpecTy::ChiikaEnv, name: splitter::env_name() })
}

/// A chapter that continues a split function: it takes `$env` first and
/// returns a future.
spec fn continues(c: splitter::SpecChapter) -> bool {
    takes_env_first(c.params) && c.ret_ty == SpecTy::RustFuture
}

/// `after` keeps each chapter of `before`, with its name, parameters and
/// return type, and its statements as a prefix of its own; the chapters it
/// adds continue the function.
spec fn split_kept(before: Seq<splitter::SpecChapter>, after: Seq<splitter::SpecChapter>) -> bool {
    &&& after.len() >= before.len()
    &&& forall|i: int|
        0 <= i < before.len() ==> {
            &&& (#[trigger] after[i]).name == before[i].name
            &&& after[i].params == before[i].params
            &&& after[i].ret_ty == before[i].ret_ty
            &&& stmts_prefix(before[i].stmts, after[i].stmts)
        }
    &&& forall|i: int| before.len() <= i < after.len() ==> continues(#[trigger] after[i])
}

proof fn lemma_split_kept_refl(c: Seq<splitter::SpecChapter>)
    ensures
        split_kept(c, c),
{
}

proof fn lemma_split_kept_trans(a: Seq<splitter::SpecChapter>, b: Seq<splitter::SpecChapter>, c: Seq<splitter::SpecChapter>)
    requires
        split_kept(a, b),
        split_kept(b, c),
    ensures
        split_kept(a, c),
{
    assert forall|i: int| 0 <= i < a.len() implies {
        &&& (#[trigger] c[i]).name == a[i].name
        &&& c[i].params == a[i].params
        &&& c[i].ret_ty == a[i].ret_ty
        &&& stmts_prefix(a[i].stmts, c[i].stmts)
    } by {
        assert(b[i].name == a[i].name);
        assert(c[i].name == b[i].name);
        assert forall|k: int| 0 <= k < a[i].stmts.len() implies #[trigger] c[i].stmts[k] == a[i].stmts[k] by {
            assert(b[i].stmts[k] == a[i].stmts[k]);
            assert(c[i].stmts[k] == b[i].stmts[k]);
        }
    }
    assert forall|i: int| a.len() <= i < c.len() implies continues(#[trigger] c[i]) by {
        if i < b.len() {
            assert(continues(b[i]));
            assert(c[i].params == b[i].params);
        }
    }
}

proof fn lemma_split_add_stmt(chaps: Seq<splitter::SpecChapter>, s: STyped)
    requires
        chaps.len() > 0,
    ensures
        split_kept(chaps, splitter::add_stmt(chaps, s)),
{
    let r = splitter::add_stmt(chaps, s);
    assert forall|i: int| 0 <= i < chaps.len() implies {
        &&& (#[trigger] r[i]).name == chaps[i].name
        &&& r[i].params == chaps[i].params
        &&& r[i].ret_ty == chaps[i].ret_ty
        &&& stmts_prefix(chaps[i].stmts, r[i].stmts)
    } by {
        if i == chaps.len() - 1 {
            assert forall|k: int| 0 <= k < chaps[i].stmts.len() implies #[trigger] r[i].stmts[k] == chaps[i].stmts[k] by {
            }
        }
    }
}

proof fn lemma_split_push(chaps: Seq<splitter::SpecChapter>, c: splitter::SpecChapter)
    requires
        continues(c),
    ensures
        split_kept(chaps, chaps.push(c)),
{
    assert forall|i: int| 0 <= i < chaps.len() implies {
        &&& (#[trigger] chaps.push(c)[i]).name == chaps[i].name
        &&& chaps.push(c)[i].params == chaps[i].params
        &&& chaps.push(c)[i].ret_ty == chaps[i].ret_ty
        &&& stmts_prefix(chaps[i].stmts, chaps.push(c)[i].stmts)
    } by {
        assert(chaps.push(c)[i] == chaps[i]);
    }
}

/// The chapters after an `if`: its terminator ends the current chapter, then
/// come the clause chapters and the endif chapter.
proof fn lemma_if_tail_kept(
    chaps: Seq<splitter::SpecChapter>,
    c3: Seq<splitter::SpecChapter>,
    terminator: STyped,
    then2: splitter::SpecChapter,
    else2: splitter::SpecChapter,
    endif_chap: splitter::SpecChapter,
)
    requires
        chaps.len() > 0,
        split_kept(chaps, c3),
        continues(then2),
        continues(else2),
        continues(endif_chap),
    ensures
        split_kept(chaps, splitter::add_stmt(c3, terminator).push(then2).push(else2)),
        split_kept(chaps, splitter::add_stmt(c3, terminator).push(then2).push(else2).push(endif_chap)),
{
    lemma_split_add_stmt(c3, terminator);
    let a = splitter::add_stmt(c3, terminator);
    lemma_split_push(a, then2);
    lemma_split_push(a.push(then2), else2);
    let c4 = a.push(then2).push(else2);
    lemma_split_push(c4, endif_chap);
    lemma_split_kept_trans(c3, a, a.push(then2));
    lemma_split_kept_trans(c3, a.push(then2), c4);
    lemma_split_kept_trans(c3, c4, c4.push(endif_chap));
    lemma_split_kept_trans(chaps, c3, c4);
    lemma_split_kept_trans(chaps, c3, c4.push(endif_chap));
}

#[verifier::spinoff_prover]
#[verifier::rlimit(100)]
proof fn lemma_as_expr_kept(ctx: splitter::SplitCtx, chaps: Seq<splitter::SpecChapter>, e: STyped, on_return: bool)
    requires
        chaps.len() > 0,
        splitter::as_expr(ctx, chaps, e, on_return) is Some,
    ensures
        split_kept(chaps, splitter::as_expr(ctx, chaps, e, on_return).unwrap().0),
    decreases e, 1int,
{
    match e.0 {
        SpecExpr::OpCall(_, l, r) => {
            lemma_as_value_kept(ctx, chaps, *l, false);
            let c1 = splitter::as_value(ctx, chaps, *l, false).unwrap().0;
            lemma_as_value_kept(ctx, c1, *r, false);
            lemma_split_kept_trans(chaps, c1, splitter::as_value(ctx, c1, *r, false).unwrap().0);
        },
        SpecExpr::FunCall(f, args) => {
            lemma_as_value_kept(ctx, chaps, *f, false);
            let (c1, f2) = splitter::as_value(ctx, chaps, *f, false).unwrap();
            lemma_as_values_kept(ctx, c1, args);
            let (c2, args2) = splitter::as_values(ctx, c1, args).unwrap();
            lemma_split_kept_trans(chaps, c1, c2);
            let ft = f2.1->Fun_0;
            if ft.asyncness == Asyncness::Async && !on_return {
                let next_name = splitter::chapter_func_name(ctx.name, c2.len());
                let terminator = (
                    SpecExpr::Return(Box::new(splitter::modify_async_call(f2, args2, next_name))),
                    SpecTy::Void,
                );
                lemma_split_add_stmt(c2, terminator);
                let c3 = splitter::add_stmt(c2, terminator);
                lemma_split_push(c3, splitter::async_call_receiver_chapter(next_name, e.1));
                lemma_split_kept_trans(c2, c3, c3.push(splitter::async_call_receiver_chapter(next_name, e.1)));
                lemma_split_kept_trans(chaps, c2, c3.push(splitter::async_call_receiver_chapter(next_name, e.1)));
            }
        },
        SpecExpr::Assign(_, v) => {
            lemma_as_value_kept(ctx, chaps, *v, false);
        },
        SpecExpr::Yield(v) => {
            lemma_as_value_kept(ctx, chaps, *v, false);
        },
        SpecExpr::Return(v) => {
            lemma_as_value_kept(ctx, chaps, *v, true);
        },
        SpecExpr::If(c, t, f) => {
            let func_name = chaps.last().name;
            let then_chap = splitter::if_clause_chapter(func_name + seq!['\'', 't']);
            let else_chap = splitter::if_clause_chapter(func_name + seq!['\'', 'f']);
            let endif_chap = splitter::end_if_chapter(func_name + seq!['\'', 'e'], e.1);
            lemma_as_value_kept(ctx, chaps, *c, false);
            let (c1, cond2) = splitter::as_value(ctx, chaps, *c, false).unwrap();
            lemma_as_clause_kept(ctx, c1, then_chap, t, endif_chap.name);
            let (c2, then2) = splitter::as_clause(ctx, c1, then_chap, t, endif_chap.name).unwrap();
            lemma_as_clause_kept(ctx, c2, else_chap, f, endif_chap.name);
            let (c3, else2) = splitter::as_clause(ctx, c2, else_chap, f, endif_chap.name).unwrap();
            lemma_split_kept_trans(chaps, c1, c2);
            lemma_split_kept_trans(chaps, c2, c3);
            let terminator = (
                SpecExpr::If(
                    Box::new(cond2),
                    seq![(SpecExpr::Return(Box::new(splitter::branch_call(ctx, then_chap.name))), SpecTy::Void)],
                    seq![(SpecExpr::Return(Box::new(splitter::branch_call(ctx, else_chap.name))), SpecTy::Void)],
                ),
                SpecTy::Void,
            );
            lemma_if_tail_kept(chaps, c3, terminator, then2, else2, endif_chap);
        },
        _ => {},
    }
}

proof fn lemma_as_value_kept(ctx: splitter::SplitCtx, chaps: Seq<splitter::SpecChapter>, e: STyped, on_return: bool)
    requires
        chaps.len() > 0,
        splitter::as_value(ctx, chaps, e, on_return) is Some,
    ensures
        split_kept(chaps, splitter::as_value(ctx, chaps, e, on_return).unwrap().0),
    decreases e, 2int,
{
    lemma_as_expr_kept(ctx, chaps, e, on_return);
}

proof fn lemma_as_values_kept(ctx: splitter::SplitCtx, chaps: Seq<splitter::SpecChapter>, es: Seq<STyped>)
    requires
        chaps.len() > 0,
        splitter::as_values(ctx, chaps, es) is Some,
    ensures
        split_kept(chaps, splitter::as_values(ctx, chaps, es).unwrap().0),
    decreases es, 0int,
{
    if es.len() == 0 {
        lemma_split_kept_refl(chaps);
    } else {
        lemma_as_values_kept(ctx, chaps, es.drop_last());
        let c1 = splitter::as_values(ctx, chaps, es.drop_last()).unwrap().0;
        assert(decreases_to!(es => es[es.len() - 1]));
        lemma_as_value_kept(ctx, c1, es.last(), false);
        lemma_split_kept_trans(chaps, c1, splitter::as_value(ctx, c1, es.last(), false).unwrap().0);
    }
}

proof fn lemma_as_stmts_kept(
    ctx: splitter::SplitCtx,
    chaps: Seq<splitter::SpecChapter>,
    chap: splitter::SpecChapter,
    es: Seq<STyped>,
)
    requires
        chaps.len() > 0,
        splitter::as_stmts(ctx, chaps, chap, es) is Some,
    ensures
        split_kept(chaps, splitter::as_stmts(ctx, chaps, chap, es).unwrap().0),
        splitter::as_stmts(ctx, chaps, chap, es).unwrap().1.params == chap.params,
        splitter::as_stmts(ctx, chaps, chap, es).unwrap().1.name == chap.name,
        splitter::as_stmts(ctx, chaps, chap, es).unwrap().1.ret_ty == chap.ret_ty,
    decreases es, 0int,
{
    if es.len() == 0 {
        lemma_split_kept_refl(chaps);
    } else {
        lemma_as_stmts_kept(ctx, chaps, chap, es.drop_last());
        let c1 = splitter::as_stmts(ctx, chaps, chap, es.drop_last()).unwrap().0;
        assert(decreases_to!(es => es[es.len() - 1]));
        lemma_as_expr_kept(ctx, c1, es.last(), false);
        lemma_split_kept_trans(chaps, c1, splitter::as_expr(ctx, c1, es.last(), false).unwrap().0);
    }
}

proof fn lemma_as_clause_kept(
    ctx: splitter::SplitCtx,
    chaps: Seq<splitter::SpecChapter>,
    chap: splitter::SpecChapter,
    exprs: Seq<STyped>,
    endif_name: Seq<char>,
)
    requires
        chaps.len() > 0,
        splitter::as_clause(ctx, chaps, chap, exprs, endif_name) is Some,
    ensures
        split_kept(chaps, splitter::as_clause(ctx, chaps, chap, exprs, endif_name).unwrap().0),
        splitter::as_clause(ctx, chaps, chap, exprs, endif_name).unwrap().1.params == chap.params,
        splitter::as_clause(ctx, chaps, chap, exprs, endif_name).unwrap().1.name == chap.name,
        splitter::as_clause(ctx, chaps, chap, exprs, endif_name).unwrap().1.ret_ty == chap.ret_ty,
    decreases exprs, 1int,
{
    match exprs.last().0 {
        SpecExpr::Return(_) => {
            lemma_as_stmts_kept(ctx, chaps, chap, exprs);
        },
        SpecExpr::Yield(v) => {
            lemma_as_stmts_kept(ctx, chaps, chap, exprs.drop_last());
            let c1 = splitter::as_stmts(ctx, chaps, chap, exprs.drop_last()).unwrap().0;
            assert(decreases_to!(exprs => exprs[exprs.len() - 1]));
            lemma_as_value_kept(ctx, c1, *v, false);
            lemma_split_kept_trans(chaps, c1, splitter::as_value(ctx, c1, *v, false).unwrap().0);
        },
        _ => {},
    }
}

proof fn lemma_as_body_kept(ctx: splitter::SplitCtx, chaps: Seq<splitter::SpecChapter>, es: Seq<STyped>)
    requires
        chaps.len() > 0,
        splitter::as_body(ctx, chaps, es) is Some,
    ensures
        split_kept(chaps, splitter::as_body(ctx, chaps, es).unwrap()),
    decreases es.len(),
{
    if es.len() == 0 {
        lemma_split_kept_refl(chaps);
    } else {
        lemma_as_body_kept(ctx, chaps, es.drop_last());
        let c1 = splitter::as_body(ctx, chaps, es.drop_last()).unwrap();
        lemma_as_expr_kept(ctx, c1, es.last(), false);
        let (c2, so) = splitter::as_expr(ctx, c1, es.last(), false).unwrap();
        lemma_split_kept_trans(chaps, c1, c2);
        match so {
            Some(st) => {
                lemma_split_add_stmt(c2, st);
                lemma_split_kept_trans(chaps, c2, splitter::add_stmt(c2, st));
            },
            None => {},
        }
    }
}

/// The first function `async_splitter` makes of a function has its name. For
/// an async function it also takes `$env` and `$cont` as its first two
/// parameters, returns a future, and begins by saving `$cont` and then the arguments, from the last
/// to the first, in the environment; any other function keeps its
/// parameters and return type. Each of the other functions made (the
/// continuations after an async call and the clauses of an `if`) takes
/// `$env` first and returns a future. Every function made is lowered and
/// keeps the origin of the function.
pub proof fn law_async_splitter_function(f: SpecFunction)
    requires
        splitter::as_func(f) is Some,
    ensures
        splitter::as_func(f)->0.len() >= 1,
        splitter::as_func(f)->0[0].name == f.name,
        f.asyncness == Asyncness::Async ==> {
            let g = splitter::as_func(f)->0[0];
            &&& g.params == splitter::append_async_params(f.params, f.ret_ty, false)
            &&& g.ret_ty == SpecTy::RustFuture
            &&& stmts_prefix(
                splitter::intro_items(splitter::split_ctx(f)).map_values(|v: STyped| splitter::env_push_call(v)),
                g.body_stmts,
            )
        },
        f.asyncness != Asyncness::Async ==> {
            let g = splitter::as_func(f)->0[0];
            &&& g.params == f.params
            &&& g.ret_ty == f.ret_ty
        },
        forall|i: int|
            0 <= i < splitter::as_func(f)->0.len() ==> (#[trigger] splitter::as_func(f)->0[i]).asyncness
                == Asyncness::Lowered && splitter::as_func(f)->0[i].generated == f.generated,
        forall|i: int|
            1 <= i < splitter::as_func(f)->0.len() ==> takes_env_first(
                (#[trigger] splitter::as_func(f)->0[i]).params,
            ) && splitter::as_func(f)->0[i].ret_ty == SpecTy::RustFuture,
{
    let ctx = splitter::split_ctx(f);
    let first = splitter::first_chapter(f)->0;
    lemma_as_body_kept(ctx, seq![first], f.body_stmts);
    let chaps = splitter::as_body(ctx, seq![first], f.body_stmts).unwrap();
    assert(seq![first][0] == first);
    assert(splitter::as_func(f)->0[0] == splitter::chapter_func(f, chaps[0]));
    assert forall|i: int| 1 <= i < splitter::as_func(f)->0.len() implies takes_env_first(
        (#[trigger] splitter::as_func(f)->0[i]).params,
    ) && splitter::as_func(f)->0[i].ret_ty == SpecTy::RustFuture by {
        assert(splitter::as_func(f)->0[i] == splitter::chapter_func(f, chaps[i]));
        assert(continues(chaps[i]));
    }
}

proof fn lemma_as_funcs(fs: Seq<SpecFunction>)
    requires
        splitter::as_funcs(fs) is Some,
    ensures
        splitter::as_funcs(fs)->0.len() == fs.len(),
        forall|i: int|
            0 <= i < fs.len() ==> splitter::as_func(#[trigger] fs[i]) == Some(splitter::as_funcs(fs)->0[i]),
    decreases fs.len(),
{
    if fs.len() > 0 {
        lemma_as_funcs(fs.drop_last());
        assert forall|i: int| 0 <= i < fs.len() implies splitter::as_func(#[trigger] fs[i]) == Some(
            splitter::as_funcs(fs)->0[i],
        ) by {
            if i < fs.len() - 1 {
                assert(fs[i] == fs.drop_last()[i]);
            }
        }
    }
}

/// `async_splitter` makes a group of functions of each function, in order,
/// with names unique over all the groups. A synchronous extern keeps its
/// signature; an async one takes `$env` and `$cont` as its first two
/// parameters, and returns a future.
pub proof fn law_async_splitter_program(p: SpecSplitProgram)
    requires
        splitter::spec_async_splitter(p) is Some,
    ensures
        splitter::spec_async_splitter(p)->0.funcs.len() == splitter::flatten_groups(p.funcs).len(),
        forall|i: int|
            0 <= i < splitter::flatten_groups(p.funcs).len() ==> splitter::as_func(
                #[trigger] splitter::flatten_groups(p.funcs)[i],
            ) == Some(splitter::spec_async_splitter(p)->0.funcs[i]),
        uniq_names(splitter::spec_async_splitter(p)->0.funcs),
        splitter::spec_async_splitter(p)->0.externs.len() == p.externs.len(),
        forall|i: int|
            0 <= i < p.externs.len() && !p.externs[i].is_async ==> #[trigger] splitter::spec_async_splitter(
                p,
            )->0.externs[i] == p.externs[i],
        forall|i: int|
            0 <= i < p.externs.len() && p.externs[i].is_async ==> {
                let e = #[trigger] splitter::spec_async_splitter(p)->0.externs[i];
                &&& e.name == p.externs[i].name
                &&& e.params == splitter::append_async_params(p.externs[i].params, p.externs[i].ret_ty, false)
                &&& e.ret_ty == SpecTy::RustFuture
            },
{
    lemma_as_funcs(splitter::flatten_groups(p.funcs));
}

} // verus!

verus! {

/// Splitting at an `if` ends the current chapter with an `if` on the split
/// condition whose `then` clause returns a call of the `'t` chapter, which
/// holds the split `then` clause, and whose `else` clause returns a call of
/// the `'f` chapter, which holds the split `else` clause; both chapters
/// follow the current one, the `then` chapter first.
pub proof fn law_async_splitter_if_clauses(
    ctx: splitter::SplitCtx,
    chaps: Seq<splitter::SpecChapter>,
    e: STyped,
    on_return: bool,
)
    requires
        chaps.len() > 0,
        e.0 is If,
        splitter::as_expr(ctx, chaps, e, on_return) is Some,
    ensures
        ({
            let name = chaps.last().name;
            let then_chap = splitter::if_clause_chapter(name + seq!['\'', 't']);
            let else_chap = splitter::if_clause_chapter(name + seq!['\'', 'f']);
            let endif_name = name + seq!['\'', 'e'];
            let (c1, cond2) = splitter::as_value(ctx, chaps, *(e.0->If_0), false).unwrap();
            let (c2, then2) = splitter::as_clause(ctx, c1, then_chap, e.0->If_1, endif_name).unwrap();
            let (c3, else2) = splitter::as_clause(ctx, c2, else_chap, e.0->If_2, endif_name).unwrap();
            let cs = splitter::as_expr(ctx, chaps, e, on_return).unwrap().0;
            &&& splitter::as_value(ctx, chaps, *(e.0->If_0), false) is Some
            &&& splitter::as_clause(ctx, c1, then_chap, e.0->If_1, endif_name) is Some
            &&& splitter::as_clause(ctx, c2, else_chap, e.0->If_2, endif_name) is Some
            &&& c3.len() > 0
            &&& cs.len() >= c3.len() + 2
            &&& cs[c3.len() - 1].stmts.len() > 0
            &&& cs[c3.len() - 1].stmts.last() == (
                SpecExpr::If(
                    Box::new(cond2),
                    seq![(SpecExpr::Return(Box::new(splitter::branch_call(ctx, then2.name))), SpecTy::Void)],
                    seq![(SpecExpr::Return(Box::new(splitter::branch_call(ctx, else2.name))), SpecTy::Void)],
                ),
                SpecTy::Void,
            )
            &&& then2.name == then_chap.name
            &&& else2.name == else_chap.name
            &&& cs[c3.len() as int] == then2
            &&& cs[c3.len() as int + 1] == else2
        }),
{
    let name = chaps.last().name;
    let then_chap = splitter::if_clause_chapter(name + seq!['\'', 't']);
    let else_chap = splitter::if_clause_chapter(name + seq!['\'', 'f']);
    let endif_chap = splitter::end_if_chapter(name + seq!['\'', 'e'], e.1);
    let endif_name = name + seq!['\'', 'e'];
    assert(endif_chap.name == endif_name);
    lemma_as_value_kept(ctx, chaps, *(e.0->If_0), false);
    let (c1, cond2) = splitter::as_value(ctx, chaps, *(e.0->If_0), false).unwrap();
    lemma_as_clause_kept(ctx, c1, then_chap, e.0->If_1, endif_name);
    let (c2, then2) = splitter::as_clause(ctx, c1, then_chap, e.0->If_1, endif_name).unwrap();
    lemma_as_clause_kept(ctx, c2, else_chap, e.0->If_2, endif_name);
    let (c3, else2) = splitter::as_clause(ctx, c2, else_chap, e.0->If_2, endif_name).unwrap();
    let terminator = (
        SpecExpr::If(
            Box::new(cond2),
            seq![(SpecExpr::Return(Box::new(splitter::branch_call(ctx, then_chap.name))), SpecTy::Void)],
            seq![(SpecExpr::Return(Box::new(splitter::branch_call(ctx, else_chap.name))), SpecTy::Void)],
        ),
        SpecTy::Void,
    );
    let c4 = splitter::add_stmt(c3, terminator).push(then2).push(else2);
    assert(splitter::add_stmt(c3, terminator)[c3.len() - 1].stmts.last() == terminator);
    if e.1 == SpecTy::Void {
        assert(splitter::as_expr(ctx, chaps, e, on_return).unwrap().0 == c4);
    } else {
        assert(splitter::as_expr(ctx, chaps, e, on_return).unwrap().0 == c4.push(endif_chap));
    }
}

} // verus!
