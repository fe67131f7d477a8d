//! Splits asynchronous Milika functions into multiple functions.
//!
//! ```text
//! // Before
//! fun foo() -> Int {
//!   print(sleep_sec(1));
//!   return 42;
//! }
//! // After
//! fun foo($env, $cont) -> RustFuture {
//!   chiika_env_push($env, $cont);
//!   return sleep_sec($env, foo_1, 1);
//! }
//! fun foo_1($env, $async_result) -> RustFuture {
//!   print($async_result);
//!   return chiika_env_pop($env, 1)($env, 42); // Call the original $cont
//! }
//! ```
use crate::error::Error;
use crate::hir::model::{
    group_hir_model, lemma_texprs_view_concat, lemma_texprs_view_push, lemma_tys_view_push, texprs_view, tys_view,
    STyped, SpecCastType, SpecExpr, SpecExtern, SpecFunTy, SpecFunction, SpecParam, SpecTy,
};
use crate::hir::split::{self, groups_view, uniq_names, SpecSplitProgram};
use crate::hir::{
    self, asyncness_known, is_arith_op, is_arith_op_string, is_comparison_op, is_comparison_op_string, op_result_ty,
    params_view, Asyncness, CastType, Expr, Extern, FunTy, Function, Param, Ty, TypedExpr,
};
use crate::strings::{concat_str, decimal, decimal_string};
use vstd::prelude::*;

verus! {

broadcast use {vstd::std_specs::vec::group_vec_axioms, group_hir_model};

/// What the splitter knows of the function it splits.
pub struct SplitCtx {
    pub name: Seq<char>,
    pub params: Seq<SpecParam>,
    pub ret_ty: SpecTy,
    pub asyncness: Asyncness,
}

/// Model of a chapter: one of the functions a function is split into.
pub struct SpecChapter {
    pub name: Seq<char>,
    pub params: Seq<SpecParam>,
    pub ret_ty: SpecTy,
    pub stmts: Seq<STyped>,
}

pub open spec fn env_name() -> Seq<char> {
    seq!['$', 'e', 'n', 'v']
}

pub open spec fn cont_name() -> Seq<char> {
    seq!['$', 'c', 'o', 'n', 't']
}

pub open spec fn async_result_name() -> Seq<char> {
    seq!['$', 'a', 's', 'y', 'n', 'c', '_', 'r', 'e', 's', 'u', 'l', 't']
}

pub open spec fn if_result_name() -> Seq<char> {
    seq!['$', 'i', 'f', 'R', 'e', 's', 'u', 'l', 't']
}

pub open spec fn env_push_name() -> Seq<char> {
    seq!['c', 'h', 'i', 'i', 'k', 'a', '_', 'e', 'n', 'v', '_', 'p', 'u', 's', 'h']
}

pub open spec fn env_pop_name() -> Seq<char> {
    seq!['c', 'h', 'i', 'i', 'k', 'a', '_', 'e', 'n', 'v', '_', 'p', 'o', 'p']
}

pub open spec fn env_ref_name() -> Seq<char> {
    seq!['c', 'h', 'i', 'i', 'k', 'a', '_', 'e', 'n', 'v', '_', 'r', 'e', 'f']
}

/// A function type of the lowered code.
pub open spec fn lowered_fun_ty(param_tys: Seq<SpecTy>, ret_ty: SpecTy) -> SpecFunTy {
    SpecFunTy { asyncness: Asyncness::Lowered, param_tys, ret_ty: Box::new(ret_ty) }
}

/// The type of a continuation that receives a value of type `t`.
pub open spec fn cont_fun_ty(t: SpecTy) -> SpecFunTy {
    lowered_fun_ty(seq![SpecTy::ChiikaEnv, t], SpecTy::RustFuture)
}

/// `(callee)(args)`, of the callee's return type.
pub open spec fn call(f: STyped, args: Seq<STyped>) -> STyped {
    (SpecExpr::FunCall(Box::new(f), args), *f.1->Fun_0.ret_ty)
}

pub open spec fn func_ref(name: Seq<char>, ft: SpecFunTy) -> STyped {
    (SpecExpr::FuncRef(name), SpecTy::Fun(ft))
}

pub open spec fn arg_ref(i: usize, t: SpecTy) -> STyped {
    (SpecExpr::ArgRef(i), t)
}

/// `$env`, the first parameter of a lowered function.
pub open spec fn arg_ref_env() -> STyped {
    arg_ref(0, SpecTy::ChiikaEnv)
}

/// `$cont`, the second parameter of an async function returning `t`.
pub open spec fn arg_ref_cont(t: SpecTy) -> STyped {
    arg_ref(1, SpecTy::Fun(cont_fun_ty(t)))
}

/// The parameters with `$env` and `$cont` as the first two (only `$env` for
/// a generated function).
pub open spec fn append_async_params(params: Seq<SpecParam>, result_ty: SpecTy, generated: bool) -> Seq<SpecParam> {
    if generated {
        seq![SpecParam { ty: SpecTy::ChiikaEnv, name: env_name() }] + params
    } else {
        seq![
            SpecParam { ty: SpecTy::ChiikaEnv, name: env_name() },
            SpecParam { ty: SpecTy::Fun(cont_fun_ty(result_ty)), name: cont_name() },
        ] + params
    }
}

/// `Fun((X)->Y)` becomes `Fun(($env, Fun(($env, Y)->RustFuture), X)->RustFuture)`.
pub open spec fn async_fun_ty(f: SpecFunTy) -> SpecFunTy {
    SpecFunTy {
        asyncness: Asyncness::Async,
        param_tys: seq![SpecTy::ChiikaEnv, SpecTy::Fun(cont_fun_ty(*f.ret_ty))] + f.param_tys,
        ret_ty: Box::new(SpecTy::RustFuture),
    }
}

/// The name of the `i`-th chapter of `name`: `name_i`.
pub open spec fn chapter_func_name(name: Seq<char>, i: nat) -> Seq<char> {
    name + seq!['_'] + decimal(i)
}

/// The way a value of type `t` is stored in the environment.
pub open spec fn push_cast(t: SpecTy) -> Option<SpecCastType> {
    match t {
        SpecTy::Null => Some(SpecCastType::NullToAny),
        SpecTy::Int => Some(SpecCastType::IntToAny),
        SpecTy::Fun(_) => Some(SpecCastType::FunToAny),
        _ => None,
    }
}

/// `chiika_env_push($env, v as Any)`.
pub open spec fn env_push_call(v: STyped) -> STyped {
    call(
        func_ref(env_push_name(), lowered_fun_ty(seq![SpecTy::ChiikaEnv, SpecTy::Any], SpecTy::Null)),
        seq![arg_ref_env(), (SpecExpr::Cast(push_cast(v.1)->0, Box::new(v)), SpecTy::Any)],
    )
}

/// `chiika_env_pop($env, n)` cast back to the continuation type `ft`.
pub open spec fn env_pop_call(n_pop: nat, ft: SpecFunTy) -> STyped {
    (
        SpecExpr::Cast(
            SpecCastType::AnyToFun(ft),
            Box::new(
                call(
                    func_ref(env_pop_name(), lowered_fun_ty(seq![SpecTy::ChiikaEnv, SpecTy::Int], SpecTy::Any)),
                    seq![arg_ref_env(), (SpecExpr::Number(n_pop as i64), SpecTy::Int)],
                ),
            ),
        ),
        SpecTy::Fun(ft),
    )
}

/// `chiika_env_ref($env, idx)`: reads an argument back from the environment.
pub open spec fn env_ref_call(idx: usize) -> STyped {
    call(
        func_ref(env_ref_name(), lowered_fun_ty(seq![SpecTy::ChiikaEnv, SpecTy::Int], SpecTy::Int)),
        seq![arg_ref_env(), (SpecExpr::Number(idx as i64), SpecTy::Int)],
    )
}

/// The statements that save the continuation and the arguments of an async
/// function in the environment: `$cont` first, then the arguments from the
/// last to the first.
pub open spec fn intro_items(ctx: SplitCtx) -> Seq<STyped> {
    let arity = ctx.params.len();
    seq![arg_ref_cont(ctx.ret_ty)] + Seq::new(
        arity,
        |k: int| arg_ref((arity - k + 1) as usize, ctx.params[arity - 1 - k].ty),
    )
}

/// Appends a statement to the last chapter.
pub open spec fn add_stmt(chaps: Seq<SpecChapter>, s: STyped) -> Seq<SpecChapter> {
    chaps.update(chaps.len() - 1, SpecChapter { stmts: chaps.last().stmts.push(s), ..chaps.last() })
}

/// The first chapter: the function itself, taking `$env` and `$cont` if it
/// is async.
pub open spec fn original_chapter(ctx: SplitCtx) -> SpecChapter {
    if ctx.asyncness == Asyncness::Async {
        SpecChapter {
            name: ctx.name,
            params: append_async_params(ctx.params, ctx.ret_ty, false),
            ret_ty: SpecTy::RustFuture,
            stmts: Seq::empty(),
        }
    } else {
        SpecChapter { name: ctx.name, params: ctx.params, ret_ty: ctx.ret_ty, stmts: Seq::empty() }
    }
}

pub open spec fn if_clause_chapter(name: Seq<char>) -> SpecChapter {
    SpecChapter {
        name,
        params: seq![SpecParam { ty: SpecTy::ChiikaEnv, name: env_name() }],
        ret_ty: SpecTy::RustFuture,
        stmts: Seq::empty(),
    }
}

pub open spec fn end_if_chapter(name: Seq<char>, if_ty: SpecTy) -> SpecChapter {
    SpecChapter {
        name,
        params: seq![
            SpecParam { ty: SpecTy::ChiikaEnv, name: env_name() },
            SpecParam { ty: if_ty, name: if_result_name() },
        ],
        ret_ty: SpecTy::RustFuture,
        stmts: Seq::empty(),
    }
}

pub open spec fn async_call_receiver_chapter(name: Seq<char>, t: SpecTy) -> SpecChapter {
    SpecChapter {
        name,
        params: seq![
            SpecParam { ty: SpecTy::ChiikaEnv, name: env_name() },
            SpecParam { ty: t, name: async_result_name() },
        ],
        ret_ty: SpecTy::RustFuture,
        stmts: Seq::empty(),
    }
}

/// The call of an async function `f` with `args`, passing `$env` first and
/// the next chapter, as the continuation, second.
pub open spec fn modify_async_call(f: STyped, args: Seq<STyped>, next_chapter_name: Seq<char>) -> STyped {
    let ft = f.1->Fun_0;
    call(
        (f.0, SpecTy::Fun(async_fun_ty(ft))),
        seq![arg_ref_env(), func_ref(next_chapter_name, cont_fun_ty(*ft.ret_ty))] + args,
    )
}

/// A call of an if-clause chapter.
pub open spec fn branch_call(ctx: SplitCtx, name: Seq<char>) -> STyped {
    call(
        func_ref(name, SpecFunTy { asyncness: ctx.asyncness, param_tys: seq![SpecTy::ChiikaEnv], ret_ty: Box::new(SpecTy::RustFuture) }),
        seq![arg_ref_env()],
    )
}

/// Is `e` a call of a function type whose asyncness is known?
pub open spec fn asyncness_decidable(e: STyped) -> bool {
    e.0 is FunCall ==> {
        let f = *e.0->FunCall_0;
        f.1 is Fun && asyncness_known(f.1->Fun_0.asyncness)
    }
}

/// Is `e` a call of an async function?
pub open spec fn is_async_call(e: STyped) -> bool {
    e.0 is FunCall && (*e.0->FunCall_0).1->Fun_0.asyncness == Asyncness::Async
}

/// The statement a `return v` becomes: the continuation popped from the
/// environment is called with the value, or passed on to an async callee.
pub open spec fn return_value(ctx: SplitCtx, v: STyped) -> STyped {
    let env_pop = env_pop_call(ctx.params.len() + 1, cont_fun_ty(ctx.ret_ty));
    if is_async_call(v) {
        let f = *v.0->FunCall_0;
        let args = v.0->FunCall_1;
        call((f.0, SpecTy::Fun(async_fun_ty(f.1->Fun_0))), seq![arg_ref_env(), env_pop] + args)
    } else {
        call(env_pop, seq![arg_ref_env(), v])
    }
}

/// The split form of `e` and the chapters after splitting at it; the form
/// is `None` for an `if` whose clauses both return. `None` overall when the
/// splitter fails.
pub open spec fn as_expr(ctx: SplitCtx, chaps: Seq<SpecChapter>, e: STyped, on_return: bool) -> Option<
    (Seq<SpecChapter>, Option<STyped>),
>
    decreases e, 1int,
{
    match e.0 {
        SpecExpr::Number(_) => Some((chaps, Some(e))),
        SpecExpr::PseudoVar(_) => Some((chaps, Some(e))),
        SpecExpr::FuncRef(_) => Some((chaps, Some(e))),
        SpecExpr::Alloc(_) => Some((chaps, Some(e))),
        SpecExpr::LVarRef(_) => if chaps.len() == 1 {
            Some((chaps, Some(e)))
        } else {
            None
        },
        SpecExpr::ArgRef(idx) => if chaps.len() == 1 {
            Some((chaps, Some(e)))
        } else {
            Some((chaps, Some(env_ref_call(idx))))
        },
        SpecExpr::OpCall(op, l, r) => match as_value(ctx, chaps, *l, false) {
            Some((c1, l2)) => match as_value(ctx, c1, *r, false) {
                Some((c2, r2)) => if is_arith_op(op) || is_comparison_op(op) {
                    Some((c2, Some((SpecExpr::OpCall(op, Box::new(l2), Box::new(r2)), op_result_ty(op)))))
                } else {
                    None
                },
                None => None,
            },
            None => None,
        },
        SpecExpr::FunCall(f, args) => match as_value(ctx, chaps, *f, false) {
            Some((c1, f2)) => match as_values(ctx, c1, args) {
                Some((c2, args2)) => match f2.1 {
                    SpecTy::Fun(ft) => if !asyncness_known(ft.asyncness) {
                        None
                    } else if ft.asyncness == Asyncness::Async && !on_return {
                        let next_name = chapter_func_name(ctx.name, c2.len());
                        let terminator = (
                            SpecExpr::Return(Box::new(modify_async_call(f2, args2, next_name))),
                            SpecTy::Void,
                        );
                        Some(
                            (
                                add_stmt(c2, terminator).push(async_call_receiver_chapter(next_name, e.1)),
                                Some(arg_ref(1, e.1)),
                            ),
                        )
                    } else {
                        Some((c2, Some(call(f2, args2))))
                    },
                    _ => None,
                },
                None => None,
            },
            None => None,
        },
        SpecExpr::Assign(name, v) => match as_value(ctx, chaps, *v, false) {
            Some((c1, v2)) => Some((c1, Some((SpecExpr::Assign(name, Box::new(v2)), SpecTy::Void)))),
            None => None,
        },
        SpecExpr::Yield(v) => match as_value(ctx, chaps, *v, false) {
            Some((c1, v2)) => Some((c1, Some((SpecExpr::Yield(Box::new(v2)), v2.1)))),
            None => None,
        },
        SpecExpr::Return(v) => match as_value(ctx, chaps, *v, true) {
            Some((c1, v2)) => if asyncness_decidable(v2) {
                Some((c1, Some((SpecExpr::Return(Box::new(return_value(ctx, v2))), SpecTy::Void))))
            } else {
                None
            },
            None => None,
        },
        SpecExpr::If(c, t, f) => {
            let func_name = chaps.last().name;
            let then_chap = if_clause_chapter(func_name + seq!['\'', 't']);
            let else_chap = if_clause_chapter(func_name + seq!['\'', 'f']);
            let endif_chap = end_if_chapter(func_name + seq!['\'', 'e'], e.1);
            match as_value(ctx, chaps, *c, false) {
                Some((c1, cond2)) => match as_clause(ctx, c1, then_chap, t, endif_chap.name) {
                    Some((c2, then2)) => match as_clause(ctx, c2, else_chap, f, endif_chap.name) {
                        Some((c3, else2)) => if cond2.1 == SpecTy::Bool {
                            let terminator = (
                                SpecExpr::If(
                                    Box::new(cond2),
                                    seq![(SpecExpr::Return(Box::new(branch_call(ctx, then_chap.name))), SpecTy::Void)],
                                    seq![(SpecExpr::Return(Box::new(branch_call(ctx, else_chap.name))), SpecTy::Void)],
                                ),
                                SpecTy::Void,
                            );
                            let c4 = add_stmt(c3, terminator).push(then2).push(else2);
                            if e.1 == SpecTy::Void {
                                Some((c4, None))
                            } else {
                                Some((c4.push(endif_chap), Some(arg_ref(1, e.1))))
                            }
                        } else {
                            None
                        },
                        None => None,
                    },
                    None => None,
                },
                None => None,
            }
        },
        _ => None,
    }
}

/// An expression that must have a value.
pub open spec fn as_value(ctx: SplitCtx, chaps: Seq<SpecChapter>, e: STyped, on_return: bool) -> Option<
    (Seq<SpecChapter>, STyped),
>
    decreases e, 2int,
{
    match as_expr(ctx, chaps, e, on_return) {
        Some((c, Some(v))) => Some((c, v)),
        _ => None,
    }
}

/// A list of values (the arguments of a call), in order.
pub open spec fn as_values(ctx: SplitCtx, chaps: Seq<SpecChapter>, es: Seq<STyped>) -> Option<
    (Seq<SpecChapter>, Seq<STyped>),
>
    decreases es, 0int,
{
    if es.len() == 0 {
        Some((chaps, Seq::empty()))
    } else {
        match as_values(ctx, chaps, es.drop_last()) {
            Some((c1, es2)) => match as_value(ctx, c1, es.last(), false) {
                Some((c2, e2)) => Some((c2, es2.push(e2))),
                None => None,
            },
            None => None,
        }
    }
}

/// Statements split into the chapter `chap` (kept apart from `chaps`).
pub open spec fn as_stmts(ctx: SplitCtx, chaps: Seq<SpecChapter>, chap: SpecChapter, es: Seq<STyped>) -> Option<
    (Seq<SpecChapter>, SpecChapter),
>
    decreases es, 0int,
{
    if es.len() == 0 {
        Some((chaps, chap))
    } else {
        match as_stmts(ctx, chaps, chap, es.drop_last()) {
            Some((c1, ch1)) => match as_expr(ctx, c1, es.last(), false) {
                Some((c2, Some(s))) => Some((c2, SpecChapter { stmts: ch1.stmts.push(s), ..ch1 })),
                Some((c2, None)) => Some((c2, ch1)),
                None => None,
            },
            None => None,
        }
    }
}

/// A clause of an `if`: it ends with `return`, or with `yield v`, which
/// becomes a call of the endif chapter with `v`.
pub open spec fn as_clause(
    ctx: SplitCtx,
    chaps: Seq<SpecChapter>,
    chap: SpecChapter,
    exprs: Seq<STyped>,
    endif_name: Seq<char>,
) -> Option<(Seq<SpecChapter>, SpecChapter)>
    decreases exprs, 1int,
{
    if exprs.len() == 0 {
        None
    } else {
        match exprs.last().0 {
            SpecExpr::Return(_) => as_stmts(ctx, chaps, chap, exprs),
            SpecExpr::Yield(v) => match as_stmts(ctx, chaps, chap, exprs.drop_last()) {
                Some((c1, ch1)) => match as_value(ctx, c1, *v, false) {
                    Some((c2, v2)) => {
                        let goto_endif = call(
                            func_ref(endif_name, cont_fun_ty(v2.1)),
                            seq![arg_ref_env(), v2],
                        );
                        Some(
                            (
                                c2,
                                SpecChapter {
                                    stmts: ch1.stmts.push((SpecExpr::Return(Box::new(goto_endif)), SpecTy::Void)),
                                    ..ch1
                                },
                            ),
                        )
                    },
                    None => None,
                },
                None => None,
            },
            _ => None,
        }
    }
}

/// The statements of a function body, each added to the chapter that is the
/// last one after splitting at it.
pub open spec fn as_body(ctx: SplitCtx, chaps: Seq<SpecChapter>, es: Seq<STyped>) -> Option<Seq<SpecChapter>>
    decreases es.len(),
{
    if es.len() == 0 {
        Some(chaps)
    } else {
        match as_body(ctx, chaps, es.drop_last()) {
            Some(c1) => match as_expr(ctx, c1, es.last(), false) {
                Some((c2, Some(s))) => Some(add_stmt(c2, s)),
                Some((c2, None)) => Some(c2),
                None => None,
            },
            None => None,
        }
    }
}

/// The function a chapter becomes.
pub open spec fn chapter_func(f: SpecFunction, c: SpecChapter) -> SpecFunction {
    SpecFunction {
        generated: f.generated,
        asyncness: Asyncness::Lowered,
        name: c.name,
        params: c.params,
        ret_ty: c.ret_ty,
        body_stmts: c.stmts,
    }
}

pub open spec fn split_ctx(f: SpecFunction) -> SplitCtx {
    SplitCtx { name: f.name, params: f.params, ret_ty: f.ret_ty, asyncness: f.asyncness }
}

/// The first chapter of an async function: it saves its continuation and
/// its arguments in the environment; `None` when an argument has a type
/// that cannot be saved.
pub open spec fn intro_chapter(ctx: SplitCtx) -> Option<SpecChapter> {
    let items = intro_items(ctx);
    if forall|i: int| 0 <= i < items.len() ==> (#[trigger] push_cast(items[i].1)) is Some {
        Some(SpecChapter { stmts: items.map_values(|v: STyped| env_push_call(v)), ..original_chapter(ctx) })
    } else {
        None
    }
}

/// The first chapter of `f`, with its intro if `f` is async.
pub open spec fn first_chapter(f: SpecFunction) -> Option<SpecChapter> {
    if f.asyncness == Asyncness::Async {
        intro_chapter(split_ctx(f))
    } else {
        Some(original_chapter(split_ctx(f)))
    }
}

/// The functions `f` is split into; `None` when its asyncness is not known,
/// it has too many parameters to count, or the splitter fails.
pub open spec fn as_func(f: SpecFunction) -> Option<Seq<SpecFunction>> {
    if !asyncness_known(f.asyncness) || f.params.len() >= usize::MAX {
        None
    } else {
        match first_chapter(f) {
            Some(first) => match as_body(split_ctx(f), seq![first], f.body_stmts) {
                Some(chaps) => Some(chaps.map_values(|c: SpecChapter| chapter_func(f, c))),
                None => None,
            },
            None => None,
        }
    }
}

/// Each function of the groups, in order, becomes a group of its own.
pub open spec fn as_funcs(fs: Seq<SpecFunction>) -> Option<Seq<Seq<SpecFunction>>>
    decreases fs.len(),
{
    if fs.len() == 0 {
        Some(Seq::empty())
    } else {
        match (as_funcs(fs.drop_last()), as_func(fs.last())) {
            (Some(a), Some(b)) => Some(a.push(b)),
            _ => None,
        }
    }
}

/// The functions of all the groups, in order.
pub open spec fn flatten_groups(gs: Seq<Seq<SpecFunction>>) -> Seq<SpecFunction>
    decreases gs.len(),
{
    if gs.len() == 0 {
        Seq::empty()
    } else {
        flatten_groups(gs.drop_last()) + gs.last()
    }
}

/// The signature of an async extern takes `$env` and `$cont` and returns a
/// future.
pub open spec fn split_extern(e: SpecExtern) -> SpecExtern {
    if e.is_async {
        SpecExtern { params: append_async_params(e.params, e.ret_ty, false), ret_ty: SpecTy::RustFuture, ..e }
    } else {
        e
    }
}

/// The program after splitting; `None` when the splitter fails or the
/// functions it makes do not have unique names.
pub open spec fn spec_async_splitter(p: SpecSplitProgram) -> Option<SpecSplitProgram> {
    match as_funcs(flatten_groups(p.funcs)) {
        Some(groups) => if uniq_names(groups) {
            Some(SpecSplitProgram { externs: p.externs.map_values(|e: SpecExtern| split_extern(e)), funcs: groups })
        } else {
            None
        },
        None => None,
    }
}

} // verus!

verus! {

fn lowered_fun_ty_of(param_tys: Vec<Ty>, ret_ty: Ty) -> (r: FunTy)
    ensures
        r@ == lowered_fun_ty(tys_view(param_tys@), ret_ty@),
{
    FunTy { asyncness: Asyncness::Lowered, param_tys, ret_ty: Box::new(ret_ty) }
}

/// `[a, b]` as a list of types.
fn two_tys(a: Ty, b: Ty) -> (r: Vec<Ty>)
    ensures
        tys_view(r@) == seq![a@, b@],
{
    let mut v: Vec<Ty> = Vec::new();
    proof {
        lemma_tys_view_push(v@, a);
    }
    v.push(a);
    proof {
        lemma_tys_view_push(v@, b);
    }
    v.push(b);
    assert(tys_view(v@) =~= seq![a@, b@]);
    v
}

/// The type of a continuation that receives a value of type `t`.
fn cont_fun_ty_of(t: Ty) -> (r: FunTy)
    ensures
        r@ == cont_fun_ty(t@),
{
    lowered_fun_ty_of(two_tys(Ty::ChiikaEnv, t), Ty::RustFuture)
}

/// Get the `$env` that is 0-th param of async func
fn arg_ref_env_expr() -> (r: TypedExpr)
    ensures
        r@ == arg_ref_env(),
{
    Expr::arg_ref(0, Ty::ChiikaEnv)
}

/// Get the `$cont` param of async func
fn arg_ref_cont_expr(arg_ty: Ty) -> (r: TypedExpr)
    ensures
        r@ == arg_ref_cont(arg_ty@),
{
    Expr::arg_ref(1, Ty::Fun(cont_fun_ty_of(arg_ty)))
}

/// Get the `$async_result` which is 1-th param of chapter func
fn arg_ref_async_result(ty: Ty) -> (r: TypedExpr)
    ensures
        r@ == arg_ref(1, ty@),
{
    Expr::arg_ref(1, ty)
}

fn env_param() -> (r: Param)
    ensures
        r@ == (SpecParam { ty: SpecTy::ChiikaEnv, name: env_name() }),
{
    proof {
        reveal_strlit("$env");
        assert("$env"@ =~= env_name());
    }
    Param::new(Ty::ChiikaEnv, "$env".to_owned())
}

/// Put `$env` and `$cont` before the params (only `$env` when `generated`)
fn append_async_params_of(params: &Vec<Param>, result_ty: Ty, generated: bool) -> (r: Vec<Param>)
    ensures
        params_view(r@) == append_async_params(params_view(params@), result_ty@, generated),
{
    let mut new_params: Vec<Param> = Vec::new();
    let p = env_param();
    new_params.push(p);
    if !generated {
        proof {
            reveal_strlit("$cont");
            assert("$cont"@ =~= cont_name());
        }
        let c = Param::new(Ty::Fun(cont_fun_ty_of(result_ty)), "$cont".to_owned());
        new_params.push(c);
    }
    let ghost head = new_params@;
    let mut rest = hir::clone_params(params);
    let ghost rv = rest@;
    new_params.append(&mut rest);
    assert(params_view(new_params@) =~= params_view(head) + params_view(rv));
    new_params
}

/// Convert `Fun((X)->Y)` to `Fun((ChiikaEnv, Fun((ChiikaEnv, Y)->RustFuture), X)->RustFuture)`
fn async_fun_ty_of(orig_fun_ty: &FunTy) -> (r: FunTy)
    ensures
        r@ == async_fun_ty(orig_fun_ty@),
{
    let mut param_tys: Vec<Ty> = Vec::new();
    proof {
        lemma_tys_view_push(param_tys@, Ty::ChiikaEnv);
    }
    param_tys.push(Ty::ChiikaEnv);
    let cont = Ty::Fun(cont_fun_ty_of(orig_fun_ty.ret_ty.clone_ty()));
    proof {
        lemma_tys_view_push(param_tys@, cont);
    }
    param_tys.push(cont);
    let ghost head = param_tys@;
    let mut rest = crate::hir::ty::clone_tys(&orig_fun_ty.param_tys);
    let ghost rv = rest@;
    param_tys.append(&mut rest);
    assert(param_tys@ =~= head + rv);
    assert(tys_view(param_tys@) =~= tys_view(head) + tys_view(rv)) by {
        assert forall|i: int| 0 <= i < param_tys@.len() implies tys_view(param_tys@)[i] == (tys_view(head) + tys_view(
            rv,
        ))[i] by {
            if i < head.len() {
                assert(param_tys@[i] == head[i]);
            } else {
                assert(param_tys@[i] == rv[i - head.len()]);
            }
        }
    }
    assert(tys_view(head) =~= seq![SpecTy::ChiikaEnv, SpecTy::Fun(cont_fun_ty(*orig_fun_ty@.ret_ty))]);
    FunTy { asyncness: Asyncness::Async, param_tys, ret_ty: Box::new(Ty::RustFuture) }
}

/// Create name of generated function like `foo_1`
fn chapter_func_name_of(orig_name: &String, chapter_idx: usize) -> (r: String)
    ensures
        r@ == chapter_func_name(orig_name@, chapter_idx as nat),
{
    proof {
        reveal_strlit("_");
        assert("_"@ =~= seq!['_']);
    }
    let s = concat_str(orig_name, "_");
    let d = decimal_string(chapter_idx);
    concat_str(&s, d.as_str())
}

/// `chiika_env_pop($env, n_pop)`, cast to the continuation type `popped_fun_ty`.
fn call_chiika_env_pop(n_pop: usize, popped_fun_ty: FunTy) -> (r: TypedExpr)
    ensures
        r@ == env_pop_call(n_pop as nat, popped_fun_ty@),
{
    proof {
        reveal_strlit("chiika_env_pop");
        assert("chiika_env_pop"@ =~= env_pop_name());
    }
    let fun_ty = lowered_fun_ty_of(two_tys(Ty::ChiikaEnv, Ty::Int), Ty::Any);
    let env_pop = Expr::func_ref("chiika_env_pop".to_owned(), fun_ty);
    let mut args: Vec<TypedExpr> = Vec::new();
    let a0 = arg_ref_env_expr();
    let a1 = Expr::number(n_pop as i64);
    proof {
        lemma_texprs_view_push(args@, a0);
    }
    args.push(a0);
    proof {
        lemma_texprs_view_push(args@, a1);
    }
    args.push(a1);
    assert(texprs_view(args@) =~= seq![arg_ref_env(), (SpecExpr::Number(n_pop as i64), SpecTy::Int)]);
    Expr::cast(CastType::AnyToFun(popped_fun_ty), Expr::fun_call(env_pop, args))
}

/// `chiika_env_push($env, val as Any)`; fails when a value of this type
/// cannot be stored in the environment.
fn call_chiika_env_push(val: TypedExpr) -> (r: Result<TypedExpr, Error>)
    ensures
        match push_cast(val@.1) {
            Some(_) => r is Ok && r->Ok_0@ == env_push_call(val@),
            None => r is Err,
        },
{
    let cast_type = match &val.1 {
        Ty::Null => CastType::NullToAny,
        Ty::Int => CastType::IntToAny,
        Ty::Fun(_) => CastType::FunToAny,
        _ => {
            return Err(Error::new("[BUG] don't know how to cast to Any"));
        },
    };
    let cast_val = Expr::cast(cast_type, val);
    proof {
        reveal_strlit("chiika_env_push");
        assert("chiika_env_push"@ =~= env_push_name());
    }
    let fun_ty = lowered_fun_ty_of(two_tys(Ty::ChiikaEnv, Ty::Any), Ty::Null);
    let mut args: Vec<TypedExpr> = Vec::new();
    let a0 = arg_ref_env_expr();
    proof {
        lemma_texprs_view_push(args@, a0);
    }
    args.push(a0);
    proof {
        lemma_texprs_view_push(args@, cast_val);
    }
    args.push(cast_val);
    assert(texprs_view(args@) =~= seq![a0@, cast_val@]);
    Ok(Expr::fun_call(Expr::func_ref("chiika_env_push".to_owned(), fun_ty), args))
}

/// `chiika_env_ref($env, idx)`.
fn call_chiika_env_ref(idx: usize) -> (r: TypedExpr)
    ensures
        r@ == env_ref_call(idx),
{
    proof {
        reveal_strlit("chiika_env_ref");
        assert("chiika_env_ref"@ =~= env_ref_name());
    }
    // Milika lvars are all int
    let fun_ty = lowered_fun_ty_of(two_tys(Ty::ChiikaEnv, Ty::Int), Ty::Int);
    let mut args: Vec<TypedExpr> = Vec::new();
    let a0 = arg_ref_env_expr();
    let a1 = Expr::number(idx as i64);
    proof {
        lemma_texprs_view_push(args@, a0);
    }
    args.push(a0);
    proof {
        lemma_texprs_view_push(args@, a1);
    }
    args.push(a1);
    assert(texprs_view(args@) =~= seq![arg_ref_env(), (SpecExpr::Number(idx as i64), SpecTy::Int)]);
    Expr::fun_call(Expr::func_ref("chiika_env_ref".to_owned(), fun_ty), args)
}

/// The call of the async function `fexpr` with `args`, passing `$env` first
/// and the next chapter as the continuation.
fn modify_async_call_of(fexpr: TypedExpr, args: Vec<TypedExpr>, next_chapter_name: String) -> (r: TypedExpr)
    requires
        fexpr.1@ is Fun,
    ensures
        r@ == modify_async_call(fexpr@, texprs_view(args@), next_chapter_name@),
{
    let fun_ty = fexpr.1.as_fun_ty();
    let next_chapter = Expr::func_ref(next_chapter_name, cont_fun_ty_of(fun_ty.ret_ty.clone_ty()));
    let new_fun_ty = async_fun_ty_of(fun_ty);
    let mut new_args: Vec<TypedExpr> = Vec::new();
    let a0 = arg_ref_env_expr();
    proof {
        lemma_texprs_view_push(new_args@, a0);
    }
    new_args.push(a0);
    proof {
        lemma_texprs_view_push(new_args@, next_chapter);
    }
    new_args.push(next_chapter);
    let mut args = args;
    let ghost args_view = texprs_view(args@);
    proof {
        lemma_texprs_view_concat(new_args@, args@);
    }
    new_args.append(&mut args);
    assert(texprs_view(new_args@) =~= seq![arg_ref_env(), next_chapter@] + args_view);
    let new_fexpr = (fexpr.0, Ty::Fun(new_fun_ty));
    Expr::fun_call(new_fexpr, new_args)
}

} // verus!

verus! {

/// One of the functions a function is split into.
struct Chapter {
    name: String,
    params: Vec<Param>,
    ret_ty: Ty,
    stmts: Vec<TypedExpr>,
}

impl View for Chapter {
    type V = SpecChapter;

    closed spec fn view(&self) -> SpecChapter {
        SpecChapter {
            name: self.name@,
            params: params_view(self.params@),
            ret_ty: self.ret_ty@,
            stmts: texprs_view(self.stmts@),
        }
    }
}

spec fn chapters_view(s: Seq<Chapter>) -> Seq<SpecChapter> {
    s.map_values(|c: Chapter| c@)
}

impl Chapter {
    fn new(name: String, params: Vec<Param>, ret_ty: Ty) -> (r: Chapter)
        ensures
            r@ == (SpecChapter { name: name@, params: params_view(params@), ret_ty: ret_ty@, stmts: Seq::empty() }),
    {
        let stmts: Vec<TypedExpr> = Vec::new();
        assert(texprs_view(stmts@) =~= Seq::<STyped>::empty());
        Chapter { name, params, ret_ty, stmts }
    }

    /// The first chapter: the function itself, taking `$env` and `$cont` if
    /// it is async.
    fn new_original(name: &String, params: &Vec<Param>, ret_ty: &Ty, asyncness: Asyncness) -> (r: Chapter)
        ensures
            r@ == original_chapter(
                SplitCtx { name: name@, params: params_view(params@), ret_ty: ret_ty@, asyncness },
            ),
    {
        match asyncness {
            Asyncness::Async => Chapter::new(
                name.clone(),
                append_async_params_of(params, ret_ty.clone_ty(), false),
                Ty::RustFuture,
            ),
            _ => Chapter::new(name.clone(), hir::clone_params(params), ret_ty.clone_ty()),
        }
    }

    fn new_async_if_clause(name: String) -> (r: Chapter)
        ensures
            r@ == if_clause_chapter(name@),
    {
        let mut params: Vec<Param> = Vec::new();
        params.push(env_param());
        assert(params_view(params@) =~= seq![SpecParam { ty: SpecTy::ChiikaEnv, name: env_name() }]);
        Chapter::new(name, params, Ty::RustFuture)
    }

    fn new_async_end_if(name: String, if_ty: Ty) -> (r: Chapter)
        ensures
            r@ == end_if_chapter(name@, if_ty@),
    {
        proof {
            reveal_strlit("$ifResult");
            assert("$ifResult"@ =~= if_result_name());
        }
        let mut params: Vec<Param> = Vec::new();
        params.push(env_param());
        params.push(Param::new(if_ty, "$ifResult".to_owned()));
        assert(params_view(params@) =~= seq![
            SpecParam { ty: SpecTy::ChiikaEnv, name: env_name() },
            SpecParam { ty: if_ty@, name: if_result_name() },
        ]);
        Chapter::new(name, params, Ty::RustFuture)
    }

    fn new_async_call_receiver(name: String, async_result_ty: Ty) -> (r: Chapter)
        ensures
            r@ == async_call_receiver_chapter(name@, async_result_ty@),
    {
        proof {
            reveal_strlit("$async_result");
            assert("$async_result"@ =~= async_result_name());
        }
        let mut params: Vec<Param> = Vec::new();
        params.push(env_param());
        params.push(Param::new(async_result_ty, "$async_result".to_owned()));
        assert(params_view(params@) =~= seq![
            SpecParam { ty: SpecTy::ChiikaEnv, name: env_name() },
            SpecParam { ty: async_result_ty@, name: async_result_name() },
        ]);
        Chapter::new(name, params, Ty::RustFuture)
    }

    fn add_stmt(&mut self, stmt: TypedExpr)
        ensures
            final(self)@ == (SpecChapter { stmts: old(self)@.stmts.push(stmt@), ..old(self)@ }),
    {
        self.stmts.push(stmt);
    }
}

struct Chapters {
    chaps: Vec<Chapter>,
}

impl View for Chapters {
    type V = Seq<SpecChapter>;

    closed spec fn view(&self) -> Seq<SpecChapter> {
        chapters_view(self.chaps@)
    }
}

impl Chapters {
    fn new() -> (r: Chapters)
        ensures
            r@ == Seq::<SpecChapter>::empty(),
    {
        let r = Chapters { chaps: Vec::new() };
        assert(r@ =~= Seq::<SpecChapter>::empty());
        r
    }

    fn len(&self) -> (r: usize)
        ensures
            r == self@.len(),
    {
        self.chaps.len()
    }

    /// Returns the name of the last chapter
    fn current_name(&self) -> (r: &String)
        requires
            self@.len() > 0,
        ensures
            r@ == self@.last().name,
    {
        &self.chaps[self.chaps.len() - 1].name
    }

    fn add(&mut self, chap: Chapter)
        ensures
            final(self)@ == old(self)@.push(chap@),
    {
        self.chaps.push(chap);
        assert(final(self)@ =~= old(self)@.push(chap@));
    }

    fn add_stmt(&mut self, stmt: TypedExpr)
        requires
            old(self)@.len() > 0,
        ensures
            final(self)@ == add_stmt(old(self)@, stmt@),
    {
        let mut last = self.chaps.pop().unwrap();
        last.add_stmt(stmt);
        self.chaps.push(last);
        assert(final(self)@ =~= add_stmt(old(self)@, stmt@));
    }
}

pub open spec fn opt_view(o: Option<TypedExpr>) -> Option<STyped> {
    match o {
        Some(e) => Some(e@),
        None => None,
    }
}

} // verus!

verus! {

struct Compiler {
    orig_name: String,
    orig_params: Vec<Param>,
    orig_ret_ty: Ty,
    orig_asyncness: Asyncness,
    chapters: Chapters,
}

impl Compiler {
    spec fn ctx(&self) -> SplitCtx {
        SplitCtx {
            name: self.orig_name@,
            params: params_view(self.orig_params@),
            ret_ty: self.orig_ret_ty@,
            asyncness: self.orig_asyncness,
        }
    }

    /// Examine each expression for special care. Most important part is
    /// calling async function.
    fn compile_expr(&mut self, e: &TypedExpr, on_return: bool) -> (r: Result<Option<TypedExpr>, Error>)
        requires
            old(self).chapters@.len() > 0,
            old(self).orig_params.len() < usize::MAX,
        ensures
            final(self).ctx() == old(self).ctx(),
            final(self).orig_params.len() == old(self).orig_params.len(),
            final(self).chapters@.len() >= old(self).chapters@.len(),
            match as_expr(old(self).ctx(), old(self).chapters@, e@, on_return) {
                Some((c, o)) => r is Ok && opt_view(r->Ok_0) == o && final(self).chapters@ == c,
                None => r is Err,
            },
        decreases e, 1int,
    {
        let new_e = match &e.0 {
            Expr::Number(n) => (Expr::Number(*n), e.1.clone_ty()),
            Expr::PseudoVar(pv) => (Expr::PseudoVar(*pv), e.1.clone_ty()),
            Expr::FuncRef(name) => (Expr::FuncRef(name.clone()), e.1.clone_ty()),
            Expr::Alloc(name) => (Expr::Alloc(name.clone()), e.1.clone_ty()),
            Expr::LVarRef(name) => {
                if self.chapters.len() == 1 {
                    // The variable is just there in the first chapter
                    (Expr::LVarRef(name.clone()), e.1.clone_ty())
                } else {
                    return Err(Error::new("local variables cannot be used after an async call"));
                }
            },
            Expr::ArgRef(idx) => {
                if self.chapters.len() == 1 {
                    Expr::arg_ref(*idx, e.1.clone_ty())
                } else {
                    call_chiika_env_ref(*idx)
                }
            },
            Expr::OpCall(op, lhs, rhs) => {
                let l = self.compile_value_expr(lhs, false)?;
                let r = self.compile_value_expr(rhs, false)?;
                if !(is_arith_op_string(op) || is_comparison_op_string(op)) {
                    return Err(Error::new("[BUG] unknown operator"));
                }
                Expr::op_call(op.clone(), l, r)
            },
            Expr::FunCall(_, _) => {
                return self.compile_funcall(e, on_return);
            },
            Expr::Assign(name, rhs) => {
                let v = self.compile_value_expr(rhs, false)?;
                Expr::assign(name.clone(), v)
            },
            Expr::If(_, _, _) => {
                return self.compile_if(e);
            },
            Expr::Yield(expr) => {
                let v = self.compile_value_expr(expr, false)?;
                Expr::yield_(v)
            },
            Expr::Return(expr) => {
                let v = self.compile_value_expr(expr, true)?;
                self.compile_return(v)?
            },
            Expr::While(_, _) => {
                return Err(Error::new("`while` is not supported by async_splitter"));
            },
            _ => {
                return Err(Error::new("[BUG] unexpected for async_splitter"));
            },
        };
        Ok(Some(new_e))
    }

    fn compile_value_expr(&mut self, e: &TypedExpr, on_return: bool) -> (r: Result<TypedExpr, Error>)
        requires
            old(self).chapters@.len() > 0,
            old(self).orig_params.len() < usize::MAX,
        ensures
            final(self).ctx() == old(self).ctx(),
            final(self).orig_params.len() == old(self).orig_params.len(),
            final(self).chapters@.len() >= old(self).chapters@.len(),
            match as_value(old(self).ctx(), old(self).chapters@, e@, on_return) {
                Some((c, v)) => r is Ok && r->Ok_0@ == v && final(self).chapters@ == c,
                None => r is Err,
            },
        decreases e, 2int,
    {
        match self.compile_expr(e, on_return)? {
            Some(expr) => Ok(expr),
            None => Err(Error::new("[BUG] unexpected void expr")),
        }
    }

    /// A call; the call of an async function (but in a `return`) ends the
    /// current chapter.
    fn compile_funcall(&mut self, e: &TypedExpr, on_return: bool) -> (r: Result<Option<TypedExpr>, Error>)
        requires
            old(self).chapters@.len() > 0,
            old(self).orig_params.len() < usize::MAX,
            e.0 is FunCall,
        ensures
            final(self).ctx() == old(self).ctx(),
            final(self).orig_params.len() == old(self).orig_params.len(),
            final(self).chapters@.len() >= old(self).chapters@.len(),
            match as_expr(old(self).ctx(), old(self).chapters@, e@, on_return) {
                Some((c, o)) => r is Ok && opt_view(r->Ok_0) == o && final(self).chapters@ == c,
                None => r is Err,
            },
        decreases e, 0int,
    {
        match &e.0 {
            Expr::FunCall(fexpr, arg_exprs) => {
                let new_fexpr = self.compile_value_expr(fexpr, false)?;
                let new_args = self.compile_values(arg_exprs)?;
                let is_async = match &new_fexpr.1 {
                    Ty::Fun(fun_ty) => match fun_ty.asyncness {
                        Asyncness::Async => true,
                        Asyncness::Sync => false,
                        _ => {
                            return Err(Error::new("[BUG] asyncness is unknown"));
                        },
                    },
                    _ => {
                        return Err(Error::new("[BUG] not a function type"));
                    },
                };
                // No need to create a new chapter if on_return is true.
                // In that case the args are modified later (see `compile_return`)
                if is_async && !on_return {
                    Ok(Some(self.compile_async_call(new_fexpr, new_args, e.1.clone_ty())))
                } else {
                    Ok(Some(Expr::fun_call(new_fexpr, new_args)))
                }
            },
            _ => vstd::pervasive::unreached(),
        }
    }

    /// Compiles the arguments of a call, in order.
    fn compile_values(&mut self, es: &Vec<TypedExpr>) -> (r: Result<Vec<TypedExpr>, Error>)
        requires
            old(self).chapters@.len() > 0,
            old(self).orig_params.len() < usize::MAX,
        ensures
            final(self).ctx() == old(self).ctx(),
            final(self).orig_params.len() == old(self).orig_params.len(),
            final(self).chapters@.len() >= old(self).chapters@.len(),
            match as_values(old(self).ctx(), old(self).chapters@, texprs_view(es@)) {
                Some((c, vs)) => r is Ok && texprs_view(r->Ok_0@) == vs && final(self).chapters@ == c,
                None => r is Err,
            },
        decreases es, 0int,
    {
        let ghost ctx = self.ctx();
        let ghost chaps0 = self.chapters@;
        let ghost sv = texprs_view(es@);
        let mut out: Vec<TypedExpr> = Vec::new();
        let mut i: usize = 0;
        assert(sv.take(0) =~= Seq::<STyped>::empty());
        assert(texprs_view(out@) =~= Seq::<STyped>::empty());
        while i < es.len()
            invariant
                i <= es.len(),
                ctx == self.ctx(),
                ctx == old(self).ctx(),
                chaps0 == old(self).chapters@,
                self.orig_params.len() == old(self).orig_params.len(),
                self.orig_params.len() < usize::MAX,
                sv == texprs_view(es@),
                self.chapters@.len() >= chaps0.len() > 0,
                as_values(ctx, chaps0, sv.take(i as int)) == Some((self.chapters@, texprs_view(out@))),
            decreases es.len() - i,
        {
            assert(decreases_to!(es => es@[i as int]));
            assert(sv.take(i + 1).drop_last() =~= sv.take(i as int));
            assert(sv.take(i + 1).last() == es@[i as int]@);
            match self.compile_value_expr(&es[i], false) {
                Ok(e) => {
                    proof {
                        lemma_texprs_view_push(out@, e);
                    }
                    out.push(e);
                },
                Err(err) => {
                    proof {
                        lemma_as_values_prefix_err(ctx, chaps0, sv, i + 1);
                    }
                    return Err(err);
                },
            }
            i += 1;
        }
        assert(sv.take(es.len() as int) =~= sv);
        Ok(out)
    }
}

proof fn lemma_as_values_prefix_err(ctx: SplitCtx, chaps: Seq<SpecChapter>, s: Seq<STyped>, k: int)
    requires
        0 <= k <= s.len(),
        as_values(ctx, chaps, s.take(k)) is None,
    ensures
        as_values(ctx, chaps, s) is None,
    decreases s.len() - k,
{
    if k < s.len() {
        assert(s.take(k + 1).drop_last() =~= s.take(k));
        lemma_as_values_prefix_err(ctx, chaps, s, k + 1);
    } else {
        assert(s.take(k) =~= s);
    }
}

} // verus!

verus! {

impl Compiler {
    /// On calling an async function, create a new chapter and
    /// append the async call to the current chapter
    fn compile_async_call(&mut self, fexpr: TypedExpr, args: Vec<TypedExpr>, async_result_ty: Ty) -> (r: TypedExpr)
        requires
            old(self).chapters@.len() > 0,
            fexpr.1@ is Fun,
        ensures
            final(self).ctx() == old(self).ctx(),
            final(self).orig_params.len() == old(self).orig_params.len(),
            final(self).chapters@ == add_stmt(
                old(self).chapters@,
                (
                    SpecExpr::Return(
                        Box::new(
                            modify_async_call(
                                fexpr@,
                                texprs_view(args@),
                                chapter_func_name(old(self).ctx().name, old(self).chapters@.len()),
                            ),
                        ),
                    ),
                    SpecTy::Void,
                ),
            ).push(
                async_call_receiver_chapter(
                    chapter_func_name(old(self).ctx().name, old(self).chapters@.len()),
                    async_result_ty@,
                ),
            ),
            r@ == arg_ref(1, async_result_ty@),
    {
        // Change chapter here
        let next_chapter_name = chapter_func_name_of(&self.orig_name, self.chapters.len());
        let terminator = Expr::return_(modify_async_call_of(fexpr, args, next_chapter_name.clone()));
        self.chapters.add_stmt(terminator);
        let receiver = Chapter::new_async_call_receiver(next_chapter_name, async_result_ty.clone_ty());
        self.chapters.add(receiver);
        arg_ref_async_result(async_result_ty)
    }

    /// The statement a `return` of `v` becomes.
    fn compile_return(&self, v: TypedExpr) -> (r: Result<TypedExpr, Error>)
        requires
            self.orig_params.len() < usize::MAX,
        ensures
            asyncness_decidable(v@) ==> r is Ok && r->Ok_0@ == (
                SpecExpr::Return(Box::new(return_value(self.ctx(), v@))),
                SpecTy::Void,
            ),
            !asyncness_decidable(v@) ==> r is Err,
    {
        let env_pop = call_chiika_env_pop(self.orig_params.len() + 1, cont_fun_ty_of(self.orig_ret_ty.clone_ty()));
        let is_async = match &v.0 {
            Expr::FunCall(fexpr, _) => match &fexpr.1 {
                Ty::Fun(fun_ty) => match fun_ty.asyncness {
                    Asyncness::Async => true,
                    Asyncness::Sync => false,
                    _ => {
                        return Err(Error::new("[BUG] asyncness is unknown"));
                    },
                },
                _ => {
                    return Err(Error::new("[BUG] not a function type"));
                },
            },
            _ => false,
        };
        let ghost vv = v@;
        let value_expr = if is_async {
            // Convert `callee(args...)` to `callee(env, args..., env_pop())`
            match v.0 {
                Expr::FunCall(fexpr, args) => {
                    let fexpr = *fexpr;
                    let new_fun_ty = async_fun_ty_of(fexpr.1.as_fun_ty());
                    let mut new_args: Vec<TypedExpr> = Vec::new();
                    let a0 = arg_ref_env_expr();
                    proof {
                        lemma_texprs_view_push(new_args@, a0);
                    }
                    new_args.push(a0);
                    let ghost ep = env_pop@;
                    proof {
                        lemma_texprs_view_push(new_args@, env_pop);
                    }
                    new_args.push(env_pop);
                    let mut args = args;
                    let ghost args_view = texprs_view(args@);
                    proof {
                        lemma_texprs_view_concat(new_args@, args@);
                    }
                    new_args.append(&mut args);
                    assert(texprs_view(new_args@) =~= seq![arg_ref_env(), ep] + args_view);
                    Expr::fun_call((fexpr.0, Ty::Fun(new_fun_ty)), new_args)
                },
                _ => vstd::pervasive::unreached(),
            }
        } else {
            // `(env_pop())(env, value)`
            let mut new_args: Vec<TypedExpr> = Vec::new();
            let a0 = arg_ref_env_expr();
            proof {
                lemma_texprs_view_push(new_args@, a0);
            }
            new_args.push(a0);
            proof {
                lemma_texprs_view_push(new_args@, v);
            }
            new_args.push(v);
            assert(texprs_view(new_args@) =~= seq![arg_ref_env(), vv]);
            Expr::fun_call(env_pop, new_args)
        };
        Ok(Expr::return_(value_expr))
    }

    /// Generate a call to the if-branch function
    fn branch_call(&self, chap_name: &String) -> (r: TypedExpr)
        ensures
            r@ == branch_call(self.ctx(), chap_name@),
    {
        let mut param_tys: Vec<Ty> = Vec::new();
        proof {
            lemma_tys_view_push(param_tys@, Ty::ChiikaEnv);
        }
        param_tys.push(Ty::ChiikaEnv);
        assert(tys_view(param_tys@) =~= seq![SpecTy::ChiikaEnv]);
        let chap_fun_ty = FunTy {
            asyncness: self.orig_asyncness,
            param_tys,
            ret_ty: Box::new(Ty::RustFuture),
        };
        let mut args: Vec<TypedExpr> = Vec::new();
        let a0 = arg_ref_env_expr();
        proof {
            lemma_texprs_view_push(args@, a0);
        }
        args.push(a0);
        assert(texprs_view(args@) =~= seq![arg_ref_env()]);
        Expr::fun_call(Expr::func_ref(chap_name.clone(), chap_fun_ty), args)
    }
}

} // verus!

verus! {

impl Compiler {
    fn compile_if(&mut self, e: &TypedExpr) -> (r: Result<Option<TypedExpr>, Error>)
        requires
            old(self).chapters@.len() > 0,
            old(self).orig_params.len() < usize::MAX,
            e.0 is If,
        ensures
            final(self).ctx() == old(self).ctx(),
            final(self).orig_params.len() == old(self).orig_params.len(),
            final(self).chapters@.len() >= old(self).chapters@.len(),
            match as_expr(old(self).ctx(), old(self).chapters@, e@, false) {
                Some((c, o)) => r is Ok && opt_view(r->Ok_0) == o && final(self).chapters@ == c,
                None => r is Err,
            },
        decreases e, 0int,
    {
        match &e.0 {
            Expr::If(cond_expr, then_exprs, else_exprs) => {
                let func_name = self.chapters.current_name().clone();
                let new_cond = self.compile_value_expr(cond_expr, false)?;
                proof {
                    reveal_strlit("'t");
                    reveal_strlit("'f");
                    reveal_strlit("'e");
                    assert("'t"@ =~= seq!['\'', 't']);
                    assert("'f"@ =~= seq!['\'', 'f']);
                    assert("'e"@ =~= seq!['\'', 'e']);
                }
                let ghost c1 = self.chapters@;
                let mut then_chap = Chapter::new_async_if_clause(concat_str(&func_name, "'t"));
                let mut else_chap = Chapter::new_async_if_clause(concat_str(&func_name, "'f"));
                // Statements after `if` goes to an "endif" chapter
                let endif_chap = Chapter::new_async_end_if(concat_str(&func_name, "'e"), e.1.clone_ty());
                assert(then_chap@ == if_clause_chapter(func_name@ + seq!['\'', 't']));
                assert(else_chap@ == if_clause_chapter(func_name@ + seq!['\'', 'f']));
                assert(endif_chap@ == end_if_chapter(func_name@ + seq!['\'', 'e'], e@.1));
                assert(as_value(old(self).ctx(), old(self).chapters@, cond_expr@, false) == Some((c1, new_cond@)));
                let then_name = then_chap.name.clone();
                let else_name = else_chap.name.clone();
                self.compile_if_clause(&mut then_chap, then_exprs, &endif_chap.name)?;
                let ghost c2 = self.chapters@;
                self.compile_if_clause(&mut else_chap, else_exprs, &endif_chap.name)?;
                let ghost c3 = self.chapters@;
                match &new_cond.1 {
                    Ty::Bool => {},
                    _ => {
                        return Err(Error::new("[BUG] if cond not bool"));
                    },
                }
                let fcall_t = Expr::return_(self.branch_call(&then_name));
                let fcall_f = Expr::return_(self.branch_call(&else_name));
                let mut then_stmts: Vec<TypedExpr> = Vec::new();
                proof {
                    lemma_texprs_view_push(then_stmts@, fcall_t);
                }
                then_stmts.push(fcall_t);
                let mut else_stmts: Vec<TypedExpr> = Vec::new();
                proof {
                    lemma_texprs_view_push(else_stmts@, fcall_f);
                }
                else_stmts.push(fcall_f);
                assert(texprs_view(then_stmts@) =~= seq![fcall_t@]);
                assert(texprs_view(else_stmts@) =~= seq![fcall_f@]);
                let terminator = Expr::if_(new_cond, then_stmts, else_stmts);
                assert(terminator@ == (
                    SpecExpr::If(
                        Box::new(new_cond@),
                        seq![(SpecExpr::Return(Box::new(branch_call(old(self).ctx(), then_name@))), SpecTy::Void)],
                        seq![(SpecExpr::Return(Box::new(branch_call(old(self).ctx(), else_name@))), SpecTy::Void)],
                    ),
                    SpecTy::Void,
                ));
                assert(as_clause(old(self).ctx(), c1, if_clause_chapter(func_name@ + seq!['\'', 't']), texprs_view(then_exprs@), endif_chap@.name) == Some((c2, then_chap@)));
                assert(as_clause(old(self).ctx(), c2, if_clause_chapter(func_name@ + seq!['\'', 'f']), texprs_view(else_exprs@), endif_chap@.name) == Some((c3, else_chap@)));
                self.chapters.add_stmt(terminator);
                self.chapters.add(then_chap);
                self.chapters.add(else_chap);
                match &e.1 {
                    Ty::Void => {
                        // Both branches end with return
                        assert(e@.1 == SpecTy::Void);
                        assert(as_expr(old(self).ctx(), old(self).chapters@, e@, false) == Some((self.chapters@, None::<STyped>)));
                        Ok(None)
                    },
                    _ => {
                        self.chapters.add(endif_chap);
                        Ok(Some(Expr::arg_ref(1, e.1.clone_ty())))
                    },
                }
            },
            _ => vstd::pervasive::unreached(),
        }
    }

    /// Splits a clause of an `if` into `clause_chap`: it ends with `return`,
    /// or with `yield v`, which becomes a call of the endif chapter with `v`.
    fn compile_if_clause(&mut self, clause_chap: &mut Chapter, exprs: &Vec<TypedExpr>, endif_chap_name: &String) -> (r:
        Result<(), Error>)
        requires
            old(self).chapters@.len() > 0,
            old(self).orig_params.len() < usize::MAX,
        ensures
            final(self).ctx() == old(self).ctx(),
            final(self).orig_params.len() == old(self).orig_params.len(),
            final(self).chapters@.len() >= old(self).chapters@.len(),
            match as_clause(old(self).ctx(), old(self).chapters@, old(clause_chap)@, texprs_view(exprs@), endif_chap_name@) {
                Some((c, ch)) => r is Ok && final(self).chapters@ == c && final(clause_chap)@ == ch,
                None => r is Err,
            },
        decreases exprs, 1int,
    {
        let ghost sv = texprs_view(exprs@);
        if exprs.len() == 0 {
            return Err(Error::new("[BUG] a clause must not be empty"));
        }
        let n = exprs.len() - 1;
        assert(sv.last() == exprs@[n as int]@);
        assert(decreases_to!(exprs => exprs@[n as int]));
        match &exprs[n].0 {
            Expr::Return(_) => {
                assert(sv.take(exprs.len() as int) =~= sv);
                self.compile_stmts(clause_chap, exprs, exprs.len())
            },
            Expr::Yield(vexpr) => {
                assert(sv.drop_last() =~= sv.take(n as int));
                self.compile_stmts(clause_chap, exprs, n)?;
                let new_vexpr = self.compile_value_expr(vexpr, false)?;
                let fun_ty = cont_fun_ty_of(new_vexpr.1.clone_ty());
                let mut args: Vec<TypedExpr> = Vec::new();
                let a0 = arg_ref_env_expr();
                let ghost v2 = new_vexpr@;
                proof {
                    lemma_texprs_view_push(args@, a0);
                }
                args.push(a0);
                proof {
                    lemma_texprs_view_push(args@, new_vexpr);
                }
                args.push(new_vexpr);
                assert(texprs_view(args@) =~= seq![arg_ref_env(), v2]);
                let goto_endif = Expr::fun_call(Expr::func_ref(endif_chap_name.clone(), fun_ty), args);
                clause_chap.add_stmt(Expr::return_(goto_endif));
                Ok(())
            },
            _ => Err(Error::new("[BUG] last statement of a clause must be a yield or a return")),
        }
    }

    /// Splits the first `n` statements of `es` into `chap`.
    fn compile_stmts(&mut self, chap: &mut Chapter, es: &Vec<TypedExpr>, n: usize) -> (r: Result<(), Error>)
        requires
            old(self).chapters@.len() > 0,
            old(self).orig_params.len() < usize::MAX,
            n <= es.len(),
        ensures
            final(self).ctx() == old(self).ctx(),
            final(self).orig_params.len() == old(self).orig_params.len(),
            final(self).chapters@.len() >= old(self).chapters@.len(),
            match as_stmts(old(self).ctx(), old(self).chapters@, old(chap)@, texprs_view(es@).take(n as int)) {
                Some((c, ch)) => r is Ok && final(self).chapters@ == c && final(chap)@ == ch,
                None => r is Err,
            },
        decreases es, 0int,
    {
        let ghost ctx = self.ctx();
        let ghost chaps0 = self.chapters@;
        let ghost chap0 = chap@;
        let ghost sv = texprs_view(es@);
        let mut i: usize = 0;
        assert(sv.take(0) =~= Seq::<STyped>::empty());
        while i < n
            invariant
                i <= n <= es.len(),
                ctx == self.ctx(),
                ctx == old(self).ctx(),
                chaps0 == old(self).chapters@,
                chap0 == old(chap)@,
                self.orig_params.len() == old(self).orig_params.len(),
                self.orig_params.len() < usize::MAX,
                sv == texprs_view(es@),
                self.chapters@.len() >= chaps0.len() > 0,
                as_stmts(ctx, chaps0, chap0, sv.take(i as int)) == Some((self.chapters@, chap@)),
            decreases n - i,
        {
            assert(decreases_to!(es => es@[i as int]));
            assert(sv.take(i + 1).drop_last() =~= sv.take(i as int));
            assert(sv.take(i + 1).last() == es@[i as int]@);
            match self.compile_expr(&es[i], false) {
                Ok(Some(new_expr)) => {
                    chap.add_stmt(new_expr);
                },
                Ok(None) => {},
                Err(err) => {
                    proof {
                        lemma_as_stmts_prefix_err(ctx, chaps0, chap0, sv, i + 1, n as int);
                    }
                    return Err(err);
                },
            }
            i += 1;
        }
        Ok(())
    }
}

proof fn lemma_as_stmts_prefix_err(
    ctx: SplitCtx,
    chaps: Seq<SpecChapter>,
    chap: SpecChapter,
    s: Seq<STyped>,
    k: int,
    n: int,
)
    requires
        0 <= k <= n <= s.len(),
        as_stmts(ctx, chaps, chap, s.take(k)) is None,
    ensures
        as_stmts(ctx, chaps, chap, s.take(n)) is None,
    decreases n - k,
{
    if k < n {
        assert(s.take(k + 1).drop_last() =~= s.take(k));
        lemma_as_stmts_prefix_err(ctx, chaps, chap, s, k + 1, n);
    }
}

} // verus!

verus! {

impl Compiler {
    /// Saves the continuation and the arguments of an async function in the
    /// environment: `$cont` first, then the arguments from the last to the
    /// first.
    fn compile_async_intro(&mut self) -> (r: Result<(), Error>)
        requires
            old(self).chapters@ == seq![original_chapter(old(self).ctx())],
            old(self).orig_params.len() < usize::MAX,
        ensures
            final(self).ctx() == old(self).ctx(),
            final(self).orig_params.len() == old(self).orig_params.len(),
            match intro_chapter(old(self).ctx()) {
                Some(ch) => r is Ok && final(self).chapters@ == seq![ch],
                None => r is Err,
            },
    {
        let ghost ctx = self.ctx();
        let ghost items = intro_items(ctx);
        let ghost chap0 = original_chapter(ctx);
        let arity = self.orig_params.len();
        let mut j: usize = 0;
        assert(chap0.stmts =~= items.take(0).map_values(|v: STyped| env_push_call(v)));
        assert(self.chapters@ =~= seq![SpecChapter { stmts: items.take(0).map_values(|v: STyped| env_push_call(v)), ..chap0 }]);
        while j <= arity
            invariant
                ctx == self.ctx(),
                ctx == old(self).ctx(),
                arity == self.orig_params.len(),
                arity < usize::MAX,
                j <= arity + 1,
                items == intro_items(ctx),
                items.len() == arity + 1,
                chap0 == original_chapter(ctx),
                forall|i: int| 0 <= i < j ==> (#[trigger] push_cast(items[i].1)) is Some,
                self.chapters@ == seq![SpecChapter { stmts: items.take(j as int).map_values(|v: STyped| env_push_call(v)), ..chap0 }],
            decreases arity + 1 - j,
        {
            let item = if j == 0 {
                arg_ref_cont_expr(self.orig_ret_ty.clone_ty())
            } else {
                let i = arity - j;
                Expr::arg_ref(i + 2, self.orig_params[i].ty.clone_ty())
            };
            assert(item@ == items[j as int]);
            let ghost before = self.chapters@;
            match call_chiika_env_push(item) {
                Ok(s) => {
                    self.chapters.add_stmt(s);
                    assert(items.take(j + 1) =~= items.take(j as int).push(items[j as int]));
                    assert(items.take(j + 1).map_values(|v: STyped| env_push_call(v)) =~= items.take(j as int).map_values(
                        |v: STyped| env_push_call(v),
                    ).push(env_push_call(items[j as int])));
                    assert(self.chapters@ =~= seq![SpecChapter { stmts: items.take(j + 1).map_values(|v: STyped| env_push_call(v)), ..chap0 }]);
                },
                Err(err) => {
                    assert(push_cast(items[j as int].1) is None);
                    return Err(err);
                },
            }
            j += 1;
        }
        assert(items.take(items.len() as int) =~= items);
        Ok(())
    }
}

proof fn lemma_as_body_prefix_err(ctx: SplitCtx, chaps: Seq<SpecChapter>, s: Seq<STyped>, k: int)
    requires
        0 <= k <= s.len(),
        as_body(ctx, chaps, s.take(k)) is None,
    ensures
        as_body(ctx, chaps, s) is None,
    decreases s.len() - k,
{
    if k < s.len() {
        assert(s.take(k + 1).drop_last() =~= s.take(k));
        lemma_as_body_prefix_err(ctx, chaps, s, k + 1);
    } else {
        assert(s.take(k) =~= s);
    }
}

/// The functions the chapters become, in order.
fn serialize_chapters(f: &Function, chapters: Chapters) -> (r: Vec<Function>)
    ensures
        hir::funcs_view(r@) == chapters@.map_values(|c: SpecChapter| chapter_func(f@, c)),
{
    let ghost cv = chapters@;
    let mut chaps = chapters.chaps;
    let mut funcs: Vec<Function> = Vec::new();
    let ghost n = chaps.len();
    while chaps.len() > 0
        invariant
            funcs.len() + chaps.len() == n,
            cv.len() == n,
            chapters_view(chaps@) == cv.skip(funcs.len() as int),
            hir::funcs_view(funcs@) == cv.take(funcs.len() as int).map_values(|c: SpecChapter| chapter_func(f@, c)),
        decreases chaps.len(),
    {
        let ghost k = funcs.len() as int;
        let ghost before = chaps@;
        assert(chapters_view(before)[0] == cv.skip(k)[0]);
        let chap = chaps.remove(0);
        assert(chap@ == cv[k]);
        let new_f = Function {
            generated: f.generated,
            asyncness: Asyncness::Lowered,
            name: chap.name,
            params: chap.params,
            ret_ty: chap.ret_ty,
            body_stmts: chap.stmts,
        };
        assert(new_f@ == chapter_func(f@, cv[k]));
        let ghost old_funcs = funcs@;
        funcs.push(new_f);
        assert(hir::funcs_view(funcs@) =~= hir::funcs_view(old_funcs).push(new_f@));
        assert(cv.take(k + 1) =~= cv.take(k).push(cv[k]));
        assert(cv.take(k + 1).map_values(|c: SpecChapter| chapter_func(f@, c)) =~= cv.take(k).map_values(
            |c: SpecChapter| chapter_func(f@, c),
        ).push(chapter_func(f@, cv[k])));
        assert(chapters_view(chaps@) =~= chapters_view(before).skip(1));
        assert(cv.skip(k).skip(1) =~= cv.skip(k + 1));
    }
    assert(cv.take(n as int) =~= cv);
    funcs
}

/// Entry point for each milika function
fn compile_func(f: &Function) -> (r: Result<Vec<Function>, Error>)
    ensures
        match as_func(f@) {
            Some(fs) => r is Ok && hir::funcs_view(r->Ok_0@) == fs,
            None => r is Err,
        },
{
    match f.asyncness {
        Asyncness::Sync | Asyncness::Async => {},
        _ => {
            return Err(Error::new("[BUG] asyncness is unknown"));
        },
    }
    if f.params.len() == usize::MAX {
        return Err(Error::new("too many parameters"));
    }
    let mut c = Compiler {
        orig_name: f.name.clone(),
        orig_params: hir::clone_params(&f.params),
        orig_ret_ty: f.ret_ty.clone_ty(),
        orig_asyncness: f.asyncness,
        chapters: Chapters::new(),
    };
    let ghost ctx = c.ctx();
    assert(ctx == split_ctx(f@));
    c.chapters.add(Chapter::new_original(&f.name, &f.params, &f.ret_ty, f.asyncness));
    assert(c.chapters@ =~= seq![original_chapter(ctx)]);
    match f.asyncness {
        Asyncness::Async => {
            c.compile_async_intro()?;
        },
        _ => {},
    }
    let ghost first = first_chapter(f@)->0;
    assert(c.chapters@ == seq![first]);
    let ghost init = c.chapters@;
    let ghost sv = texprs_view(f.body_stmts@);
    assert(sv.take(0) =~= Seq::<STyped>::empty());
    let mut i: usize = 0;
    while i < f.body_stmts.len()
        invariant
            i <= f.body_stmts.len(),
            ctx == c.ctx(),
            ctx == split_ctx(f@),
            c.orig_params.len() < usize::MAX,
            sv == texprs_view(f.body_stmts@),
            init == seq![first],
            first == first_chapter(f@)->0,
            first_chapter(f@) is Some,
            c.chapters@.len() > 0,
            as_body(ctx, init, sv.take(i as int)) == Some(c.chapters@),
        decreases f.body_stmts.len() - i,
    {
        assert(sv.take(i + 1).drop_last() =~= sv.take(i as int));
        assert(sv.take(i + 1).last() == f.body_stmts@[i as int]@);
        match c.compile_expr(&f.body_stmts[i], false) {
            Ok(Some(new_expr)) => {
                c.chapters.add_stmt(new_expr);
            },
            Ok(None) => {},
            Err(err) => {
                proof {
                    lemma_as_body_prefix_err(ctx, init, sv, i + 1);
                }
                return Err(err);
            },
        }
        i += 1;
    }
    assert(sv.take(f.body_stmts.len() as int) =~= sv);
    Ok(serialize_chapters(f, c.chapters))
}

} // verus!

verus! {

proof fn lemma_as_funcs_extend_err(xs: Seq<SpecFunction>, ys: Seq<SpecFunction>)
    requires
        as_funcs(xs) is None,
    ensures
        as_funcs(xs + ys) is None,
    decreases ys.len(),
{
    if ys.len() == 0 {
        assert(xs + ys =~= xs);
    } else {
        lemma_as_funcs_extend_err(xs, ys.drop_last());
        assert((xs + ys).drop_last() =~= xs + ys.drop_last());
    }
}

/// Splits asynchronous Milika functions into multiple functions; each
/// function of the input becomes a group of its own. Also, signatures of
/// async externs are modified to take `$env` and `$cont` as the first two
/// params and to return a future.
pub fn run(shir: split::Program) -> (r: Result<split::Program, Error>)
    ensures
        match spec_async_splitter(shir@) {
            Some(p) => r is Ok && r->Ok_0@ == p,
            None => r is Err,
        },
{
    let ghost p = shir@;
    let mut old_externs = shir.externs;
    let ghost ev = hir::externs_view(old_externs@);
    let ghost n_ext = old_externs.len();
    let mut externs: Vec<Extern> = Vec::new();
    while old_externs.len() > 0
        invariant
            externs.len() + old_externs.len() == n_ext,
            ev.len() == n_ext,
            hir::externs_view(old_externs@) == ev.skip(externs.len() as int),
            hir::externs_view(externs@) == ev.take(externs.len() as int).map_values(|e: SpecExtern| split_extern(e)),
        decreases old_externs.len(),
    {
        let ghost k = externs.len() as int;
        let ghost before = old_externs@;
        assert(hir::externs_view(before)[0] == ev.skip(k)[0]);
        let e = old_externs.remove(0);
        let new_e = if e.is_async {
            Extern {
                is_async: e.is_async,
                is_internal: e.is_internal,
                params: append_async_params_of(&e.params, e.ret_ty.clone_ty(), false),
                ret_ty: Ty::RustFuture,
                name: e.name,
            }
        } else {
            e
        };
        assert(new_e@ == split_extern(ev[k]));
        let ghost prev = externs@;
        externs.push(new_e);
        assert(hir::externs_view(externs@) =~= hir::externs_view(prev).push(new_e@));
        assert(ev.take(k + 1) =~= ev.take(k).push(ev[k]));
        assert(ev.take(k + 1).map_values(|e: SpecExtern| split_extern(e)) =~= ev.take(k).map_values(
            |e: SpecExtern| split_extern(e),
        ).push(split_extern(ev[k])));
        assert(hir::externs_view(old_externs@) =~= hir::externs_view(before).skip(1));
        assert(ev.skip(k).skip(1) =~= ev.skip(k + 1));
    }
    assert(ev.take(n_ext as int) =~= ev);
    assert(ev == p.externs);

    let ghost gv = groups_view(shir.funcs@);
    let mut funcs: Vec<Vec<Function>> = Vec::new();
    let mut i: usize = 0;
    assert(gv.take(0) =~= Seq::<Seq<SpecFunction>>::empty());
    assert(groups_view(funcs@) =~= Seq::<Seq<SpecFunction>>::empty());
    while i < shir.funcs.len()
        invariant
            i <= shir.funcs.len(),
            gv == groups_view(shir.funcs@),
            gv == p.funcs,
            as_funcs(flatten_groups(gv.take(i as int))) == Some(groups_view(funcs@)),
        decreases shir.funcs.len() - i,
    {
        let group = &shir.funcs[i];
        let ghost g = hir::funcs_view(group@);
        let ghost base = flatten_groups(gv.take(i as int));
        assert(gv[i as int] == g);
        let mut j: usize = 0;
        assert(base + g.take(0) =~= base);
        while j < group.len()
            invariant
                i < shir.funcs.len(),
                group == shir.funcs@[i as int],
                g == hir::funcs_view(group@),
                gv == groups_view(shir.funcs@),
                gv == p.funcs,
                gv[i as int] == g,
                base == flatten_groups(gv.take(i as int)),
                j <= group.len(),
                as_funcs(base + g.take(j as int)) == Some(groups_view(funcs@)),
            decreases group.len() - j,
        {
            assert((base + g.take(j + 1)).drop_last() =~= base + g.take(j as int));
            assert((base + g.take(j + 1)).last() == group@[j as int]@);
            match compile_func(&group[j]) {
                Ok(split_funcs) => {
                    let ghost prev = funcs@;
                    funcs.push(split_funcs);
                    assert(groups_view(funcs@) =~= groups_view(prev).push(hir::funcs_view(split_funcs@)));
                },
                Err(err) => {
                    proof {
                        assert(as_funcs(base + g.take(j + 1)) is None);
                        lemma_as_funcs_extend_err(base + g.take(j + 1), g.skip(j + 1));
                        assert(base + g.take(j + 1) + g.skip(j + 1) =~= base + g);
                        lemma_as_funcs_extend_err(base + g, flatten_groups(gv).skip((base.len() + g.len()) as int));
                        lemma_flatten_groups_take(gv, i + 1);
                        assert(flatten_groups(gv.take(i + 1)) == base + g) by {
                            assert(gv.take(i + 1).drop_last() =~= gv.take(i as int));
                        }
                        assert(base + g + flatten_groups(gv).skip((base.len() + g.len()) as int) =~= flatten_groups(gv));
                    }
                    return Err(err);
                },
            }
            j += 1;
        }
        assert(g.take(group.len() as int) =~= g);
        assert(gv.take(i + 1).drop_last() =~= gv.take(i as int));
        i += 1;
    }
    assert(gv.take(shir.funcs.len() as int) =~= gv);
    if !split::has_uniq_names(&funcs) {
        return Err(Error::new("function names are not unique after async_splitter"));
    }
    Ok(split::Program::new(externs, funcs))
}

/// The functions of the first `k` groups are a prefix of those of all.
proof fn lemma_flatten_groups_take(gs: Seq<Seq<SpecFunction>>, k: int)
    requires
        0 <= k <= gs.len(),
    ensures
        flatten_groups(gs.take(k)).len() <= flatten_groups(gs).len(),
        flatten_groups(gs.take(k)) == flatten_groups(gs).take(flatten_groups(gs.take(k)).len() as int),
    decreases gs.len() - k,
{
    if k < gs.len() {
        lemma_flatten_groups_take(gs, k + 1);
        assert(gs.take(k + 1).drop_last() =~= gs.take(k));
        let a = flatten_groups(gs.take(k));
        let b = flatten_groups(gs.take(k + 1));
        assert(b == a + gs[k]);
        assert(a =~= b.take(a.len() as int));
    } else {
        assert(gs.take(k) =~= gs);
    }
}

} // verus!
