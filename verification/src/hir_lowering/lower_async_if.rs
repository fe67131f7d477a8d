//! Split `if` statements with (possible) async call into multiple functions.
//!
//! ```text
//! // Before
//! fun foo() {
//!   ...
//!   x = if (a) { b ... ; yield c } else { d ... ; yield e }
//!   ...
//!   x + ...
//! }
//! // After
//! fun foo() -> Foo {
//!   ...
//!   cond_return a, foo't(), foo'f()
//! }
//! fun foo't() -> Foo { b ... ; return foo'e(c) }
//! fun foo'f() -> Foo { d ... ; return foo'e(e) }
//! fun foo'e(x) -> Foo { ... ; x + ... }
//! ```
use crate::error::{result_is, Error};
use crate::hir::model::{
    group_hir_model, lemma_texprs_view_concat, lemma_texprs_view_push, lemma_tys_view_push, texprs_view, STyped, SpecExpr,
    SpecFunTy, SpecFunction, SpecParam, SpecProgram, SpecTy,
};
use crate::hir::{
    self, is_arith_op, is_arith_op_string, is_comparison_op, is_comparison_op_string, op_result_ty, params_view,
    Asyncness, Expr, FunTy, Function, Param, Program, Ty, TypedExpr,
};
use crate::strings::concat_str;
use vstd::prelude::*;

verus! {

broadcast use {vstd::std_specs::vec::group_vec_axioms, group_hir_model};

/// Model of a chapter: one of the functions a function is split into.
pub struct SpecChapter {
    pub name: Seq<char>,
    pub params: Seq<SpecParam>,
    pub stmts: Seq<STyped>,
}

/// What the pass knows of the function it splits.
pub struct LowerCtx {
    pub params: Seq<SpecParam>,
    pub ret_ty: SpecTy,
}

/// References to each of the parameters, in order.
pub open spec fn arg_refs(params: Seq<SpecParam>) -> Seq<STyped> {
    Seq::new(params.len(), |i: int| (SpecExpr::ArgRef(i as usize), params[i].ty))
}

/// The type of a chapter function: it takes the parameters of the original
/// function (and the value of the `if`, for the endif chapter).
pub open spec fn chapter_fun_ty(ctx: LowerCtx, endif: Option<SpecTy>) -> SpecFunTy {
    let base = ctx.params.map_values(|p: SpecParam| p.ty);
    SpecFunTy {
        asyncness: Asyncness::Async,
        param_tys: match endif {
            Some(t) => base.push(t),
            None => base,
        },
        ret_ty: Box::new(ctx.ret_ty),
    }
}

/// A call of the chapter `name`, passing on the parameters (and the value of
/// the `if`, for the endif chapter).
pub open spec fn goto_call(ctx: LowerCtx, name: Seq<char>, to_endif: Option<STyped>) -> STyped {
    let args = match to_endif {
        Some(v) => arg_refs(ctx.params).push(v),
        None => arg_refs(ctx.params),
    };
    let endif_ty = match to_endif {
        Some(v) => Some(v.1),
        None => None,
    };
    (
        SpecExpr::FunCall(Box::new((SpecExpr::FuncRef(name), SpecTy::Fun(chapter_fun_ty(ctx, endif_ty)))), args),
        ctx.ret_ty,
    )
}

/// Appends a statement to the last chapter.
pub open spec fn add_stmt(chaps: Seq<SpecChapter>, s: STyped) -> Seq<SpecChapter> {
    chaps.update(chaps.len() - 1, SpecChapter { stmts: chaps.last().stmts.push(s), ..chaps.last() })
}

/// `name'c`, the name of a chapter split from `name`.
pub open spec fn suffixed(name: Seq<char>, c: char) -> Seq<char> {
    name + seq!['\'', c]
}

pub open spec fn new_chapter(name: Seq<char>, params: Seq<SpecParam>) -> SpecChapter {
    SpecChapter { name, params, stmts: Seq::empty() }
}

/// The name of the parameter of an endif chapter that receives the value of
/// the `if`.
pub open spec fn if_result_name() -> Seq<char> {
    seq!['$', 'i', 'f', 'R', 'e', 's', 'u', 'l', 't']
}

/// The statement ending a clause chapter: a jump to the endif chapter with
/// the value the clause yields.
pub open spec fn goto_endif(ctx: LowerCtx, endif_name: Seq<char>, v: STyped) -> STyped {
    (SpecExpr::Return(Box::new(goto_call(ctx, endif_name, Some(v)))), SpecTy::Void)
}

/// The lowered form of `e` and the chapters after lowering it; `None` when
/// the pass fails (a cast, an expression of a later pass, a clause that does
/// not end with `yield`, an ill-typed operator, callee, or condition).
pub open spec fn la_expr(ctx: LowerCtx, chaps: Seq<SpecChapter>, e: STyped) -> Option<(Seq<SpecChapter>, STyped)>
    decreases e,
{
    match e.0 {
        SpecExpr::Number(_) => Some((chaps, e)),
        SpecExpr::PseudoVar(_) => Some((chaps, e)),
        SpecExpr::LVarRef(_) => Some((chaps, e)),
        SpecExpr::ArgRef(_) => Some((chaps, e)),
        SpecExpr::FuncRef(_) => Some((chaps, e)),
        SpecExpr::Alloc(_) => Some((chaps, e)),
        SpecExpr::Assign(name, v) => match la_expr(ctx, chaps, *v) {
            Some((c1, v2)) => Some((c1, (SpecExpr::Assign(name, Box::new(v2)), SpecTy::Void))),
            None => None,
        },
        SpecExpr::OpCall(op, l, r) => match la_expr(ctx, chaps, *l) {
            Some((c1, l2)) => match la_expr(ctx, c1, *r) {
                Some((c2, r2)) => if is_arith_op(op) || is_comparison_op(op) {
                    Some((c2, (SpecExpr::OpCall(op, Box::new(l2), Box::new(r2)), op_result_ty(op))))
                } else {
                    None
                },
                None => None,
            },
            None => None,
        },
        SpecExpr::FunCall(f, args) => match la_expr(ctx, chaps, *f) {
            Some((c1, f2)) => match la_exprs(ctx, c1, args) {
                Some((c2, args2)) => match f2.1 {
                    SpecTy::Fun(ft) => Some((c2, (SpecExpr::FunCall(Box::new(f2), args2), *ft.ret_ty))),
                    _ => None,
                },
                None => None,
            },
            None => None,
        },
        SpecExpr::While(c, b) => match la_expr(ctx, chaps, *c) {
            Some((c1, c2)) => match la_exprs(ctx, c1, b) {
                Some((c3, b2)) => if c2.1 == SpecTy::Bool {
                    Some((c3, (SpecExpr::While(Box::new(c2), b2), SpecTy::Null)))
                } else {
                    None
                },
                None => None,
            },
            None => None,
        },
        SpecExpr::Return(v) => match la_expr(ctx, chaps, *v) {
            Some((c1, v2)) => Some((c1, (SpecExpr::Return(Box::new(v2)), SpecTy::Void))),
            None => None,
        },
        SpecExpr::Yield(v) => match la_expr(ctx, chaps, *v) {
            Some((c1, v2)) => Some((c1, (SpecExpr::Yield(Box::new(v2)), v2.1))),
            None => None,
        },
        SpecExpr::If(c, t, f) => {
            let func_name = chaps.last().name;
            let then_chap = new_chapter(suffixed(func_name, 't'), ctx.params);
            let else_chap = new_chapter(suffixed(func_name, 'f'), ctx.params);
            let endif_chap = new_chapter(
                suffixed(func_name, 'e'),
                ctx.params.push(SpecParam { ty: e.1, name: if_result_name() }),
            );
            match la_expr(ctx, chaps, *c) {
                Some((c1, cond2)) => match la_clause(ctx, c1, then_chap, t, endif_chap.name) {
                    Some((c2, then2)) => match la_clause(ctx, c2, else_chap, f, endif_chap.name) {
                        Some((c3, else2)) => if cond2.1 == SpecTy::Bool {
                            let then_call = goto_call(ctx, then_chap.name, None);
                            let else_call = goto_call(ctx, else_chap.name, None);
                            let terminator = (
                                SpecExpr::CondReturn(
                                    Box::new(cond2),
                                    then_call.0->FunCall_0,
                                    then_call.0->FunCall_1,
                                    else_call.0->FunCall_0,
                                    else_call.0->FunCall_1,
                                ),
                                SpecTy::Void,
                            );
                            Some(
                                (
                                    add_stmt(c3, terminator).push(then2).push(else2).push(endif_chap),
                                    (SpecExpr::ArgRef(ctx.params.len() as usize), e.1),
                                ),
                            )
                        } else {
                            None
                        },
                        None => None,
                    },
                    None => None,
                },
                None => None,
            }
        },
        _ => None,
    }
}

/// Lowers a list of expressions, in order.
pub open spec fn la_exprs(ctx: LowerCtx, chaps: Seq<SpecChapter>, es: Seq<STyped>) -> Option<
    (Seq<SpecChapter>, Seq<STyped>),
>
    decreases es,
{
    if es.len() == 0 {
        Some((chaps, Seq::empty()))
    } else {
        match la_exprs(ctx, chaps, es.drop_last()) {
            Some((c1, es2)) => match la_expr(ctx, c1, es.last()) {
                Some((c2, e2)) => Some((c2, es2.push(e2))),
                None => None,
            },
            None => None,
        }
    }
}

/// Lowers the statements of a clause of an `if` into the chapter `chap`:
/// the clause must end with `yield v`, which becomes a jump to the endif
/// chapter with `v`.
pub open spec fn la_clause(
    ctx: LowerCtx,
    chaps: Seq<SpecChapter>,
    chap: SpecChapter,
    exprs: Seq<STyped>,
    endif_name: Seq<char>,
) -> Option<(Seq<SpecChapter>, SpecChapter)>
    decreases exprs,
{
    if exprs.len() == 0 {
        None
    } else {
        match exprs.last().0 {
            SpecExpr::Yield(v) => match la_exprs(ctx, chaps, exprs.drop_last()) {
                Some((c1, body)) => match la_expr(ctx, c1, *v) {
                    Some((c2, v2)) => Some(
                        (
                            c2,
                            SpecChapter {
                                stmts: chap.stmts + body + seq![goto_endif(ctx, endif_name, v2)],
                                ..chap
                            },
                        ),
                    ),
                    None => None,
                },
                None => None,
            },
            _ => None,
        }
    }
}

/// Lowers the body of a function: each statement goes to the chapter that
/// is the last one after lowering it.
pub open spec fn la_body(ctx: LowerCtx, chaps: Seq<SpecChapter>, es: Seq<STyped>) -> Option<Seq<SpecChapter>>
    decreases es.len(),
{
    if es.len() == 0 {
        Some(chaps)
    } else {
        match la_body(ctx, chaps, es.drop_last()) {
            Some(c1) => match la_expr(ctx, c1, es.last()) {
                Some((c2, e2)) => Some(add_stmt(c2, e2)),
                None => None,
            },
            None => None,
        }
    }
}

/// The function a chapter of `f` becomes.
pub open spec fn chapter_func(f: SpecFunction, c: SpecChapter) -> SpecFunction {
    SpecFunction { name: c.name, params: c.params, body_stmts: c.stmts, ..f }
}

/// The functions `f` is split into: first the one with `f`'s name.
pub open spec fn la_func(f: SpecFunction) -> Option<Seq<SpecFunction>> {
    let ctx = LowerCtx { params: f.params, ret_ty: f.ret_ty };
    match la_body(ctx, seq![new_chapter(f.name, f.params)], f.body_stmts) {
        Some(chaps) => Some(chaps.map_values(|c: SpecChapter| chapter_func(f, c))),
        None => None,
    }
}

pub open spec fn la_funcs(fs: Seq<SpecFunction>) -> Option<Seq<SpecFunction>>
    decreases fs.len(),
{
    if fs.len() == 0 {
        Some(Seq::empty())
    } else {
        match (la_funcs(fs.drop_last()), la_func(fs.last())) {
            (Some(a), Some(b)) => Some(a + b),
            _ => None,
        }
    }
}

/// The program after `lower_async_if`; `None` when the pass fails.
pub open spec fn spec_lower_async_if(p: SpecProgram) -> Option<SpecProgram> {
    match la_funcs(p.funcs) {
        Some(fs) => Some(SpecProgram { externs: p.externs, funcs: fs }),
        None => None,
    }
}

} // verus!

verus! {

/// One of the functions a function is split into.
struct Chapter {
    name: String,
    params: Vec<Param>,
    stmts: Vec<TypedExpr>,
}

impl View for Chapter {
    type V = SpecChapter;

    closed spec fn view(&self) -> SpecChapter {
        SpecChapter { name: self.name@, params: params_view(self.params@), stmts: texprs_view(self.stmts@) }
    }
}

impl Chapter {
    fn new(name: String, params: Vec<Param>) -> (r: Chapter)
        ensures
            r@ == new_chapter(name@, params_view(params@)),
    {
        let stmts: Vec<TypedExpr> = Vec::new();
        assert(texprs_view(stmts@) =~= Seq::<STyped>::empty());
        Chapter { name, params, stmts }
    }

    /// A chapter named `base_name'suffix`.
    fn new_suffixed(base_name: &String, suffix: &str, params: Vec<Param>) -> (r: Chapter)
        ensures
            r@ == new_chapter(base_name@ + suffix@, params_view(params@)),
    {
        Chapter::new(concat_str(base_name, suffix), params)
    }

    fn add_stmt(&mut self, stmt: TypedExpr)
        ensures
            final(self)@ == (SpecChapter { stmts: old(self)@.stmts.push(stmt@), ..old(self)@ }),
    {
        self.stmts.push(stmt);
    }
}

spec fn chapters_view(s: Seq<Chapter>) -> Seq<SpecChapter> {
    s.map_values(|c: Chapter| c@)
}

struct Chapters {
    chaps: Vec<Chapter>,
}

impl View for Chapters {
    type V = Seq<SpecChapter>;

    closed spec fn view(&self) -> Seq<SpecChapter> {
        chapters_view(self.chaps@)
    }
}

impl Chapters {
    fn new() -> (r: Chapters)
        ensures
            r@ == Seq::<SpecChapter>::empty(),
    {
        let r = Chapters { chaps: Vec::new() };
        assert(r@ =~= Seq::<SpecChapter>::empty());
        r
    }

    /// Returns the name of the last chapter
    fn current_name(&self) -> (r: &String)
        requires
            self@.len() > 0,
        ensures
            r@ == self@.last().name,
    {
        &self.chaps[self.chaps.len() - 1].name
    }

    fn add(&mut self, chap: Chapter)
        ensures
            final(self)@ == old(self)@.push(chap@),
    {
        self.chaps.push(chap);
        assert(final(self)@ =~= old(self)@.push(chap@));
    }

    fn add_stmt(&mut self, stmt: TypedExpr)
        requires
            old(self)@.len() > 0,
        ensures
            final(self)@ == add_stmt(old(self)@, stmt@),
    {
        let mut last = self.chaps.pop().unwrap();
        last.add_stmt(stmt);
        self.chaps.push(last);
        assert(final(self)@ =~= add_stmt(old(self)@, stmt@));
    }
}

/// References to each of the parameters, in order.
fn arg_refs_of(params: &Vec<Param>) -> (r: Vec<TypedExpr>)
    ensures
        texprs_view(r@) == arg_refs(params_view(params@)),
{
    let ghost pv = params_view(params@);
    let mut out: Vec<TypedExpr> = Vec::new();
    let mut i: usize = 0;
    assert(texprs_view(out@) =~= arg_refs(pv).take(0));
    while i < params.len()
        invariant
            i <= params.len(),
            pv == params_view(params@),
            texprs_view(out@) =~= arg_refs(pv).take(i as int),
        decreases params.len() - i,
    {
        let a = Expr::arg_ref(i, params[i].ty.clone_ty());
        proof {
            lemma_texprs_view_push(out@, a);
            assert(arg_refs(pv).take(i + 1) =~= arg_refs(pv).take(i as int).push(arg_refs(pv)[i as int]));
        }
        out.push(a);
        i += 1;
    }
    assert(arg_refs(pv).take(params.len() as int) =~= arg_refs(pv));
    out
}

struct LowerAsyncIf {
    chapters: Chapters,
    orig_params: Vec<Param>,
    orig_ret_ty: Ty,
}

impl LowerAsyncIf {
    spec fn ctx(&self) -> LowerCtx {
        LowerCtx { params: params_view(self.orig_params@), ret_ty: self.orig_ret_ty@ }
    }

    fn chapter_fun_ty(&self, endif: Option<Ty>) -> (r: FunTy)
        ensures
            r@ == chapter_fun_ty(
                self.ctx(),
                match endif {
                    Some(t) => Some(t@),
                    None => None,
                },
            ),
    {
        let mut param_tys = hir::param_tys(&self.orig_params);
        match endif {
            Some(t) => {
                proof {
                    lemma_tys_view_push(param_tys@, t);
                }
                param_tys.push(t);
            },
            None => {},
        }
        FunTy { asyncness: Asyncness::Async, param_tys, ret_ty: Box::new(self.orig_ret_ty.clone_ty()) }
    }

    /// Generate a call to the chapter function
    fn goto_call(&self, chap_name: &String, to_endif: Option<TypedExpr>) -> (r: TypedExpr)
        ensures
            r@ == goto_call(
                self.ctx(),
                chap_name@,
                match to_endif {
                    Some(v) => Some(v@),
                    None => None,
                },
            ),
    {
        let mut args = arg_refs_of(&self.orig_params);
        let mut t: Option<Ty> = None;
        match to_endif {
            Some(expr) => {
                t = Some(expr.1.clone_ty());
                proof {
                    lemma_texprs_view_push(args@, expr);
                }
                args.push(expr);
            },
            None => {},
        }
        let chap_fun_ty = self.chapter_fun_ty(t);
        let f = Expr::func_ref(chap_name.clone(), chap_fun_ty);
        Expr::fun_call(f, args)
    }

    fn compile_expr(&mut self, e: &TypedExpr) -> (r: Result<TypedExpr, Error>)
        requires
            old(self).chapters@.len() > 0,
        ensures
            final(self).ctx() == old(self).ctx(),
            final(self).chapters@.len() >= old(self).chapters@.len(),
            match la_expr(old(self).ctx(), old(self).chapters@, e@) {
                Some((c, e2)) => r is Ok && r->Ok_0@ == e2 && final(self).chapters@ == c,
                None => r is Err,
            },
        decreases e, 2int,
    {
        match &e.0 {
            Expr::Number(n) => Ok((Expr::Number(*n), e.1.clone_ty())),
            Expr::PseudoVar(pv) => Ok((Expr::PseudoVar(*pv), e.1.clone_ty())),
            Expr::LVarRef(name) => Ok((Expr::LVarRef(name.clone()), e.1.clone_ty())),
            Expr::ArgRef(i) => Ok((Expr::ArgRef(*i), e.1.clone_ty())),
            Expr::FuncRef(name) => Ok((Expr::FuncRef(name.clone()), e.1.clone_ty())),
            Expr::Alloc(name) => Ok((Expr::Alloc(name.clone()), e.1.clone_ty())),
            Expr::Assign(name, rhs) => {
                let v = self.compile_expr(rhs)?;
                Ok(Expr::assign(name.clone(), v))
            },
            Expr::OpCall(op, lhs, rhs) => {
                let l = self.compile_expr(lhs)?;
                let r = self.compile_expr(rhs)?;
                if is_arith_op_string(op) || is_comparison_op_string(op) {
                    Ok(Expr::op_call(op.clone(), l, r))
                } else {
                    Err(Error::new("[BUG] unknown operator"))
                }
            },
            Expr::FunCall(fexpr, arg_exprs) => {
                let f = self.compile_expr(fexpr)?;
                assert(texprs_view(arg_exprs@).take(arg_exprs.len() as int) =~= texprs_view(arg_exprs@));
                let args = self.compile_exprs(arg_exprs, arg_exprs.len())?;
                match &f.1 {
                    Ty::Fun(_) => Ok(Expr::fun_call(f, args)),
                    _ => Err(Error::new("[BUG] not a function")),
                }
            },
            Expr::While(cond_expr, body_exprs) => {
                let c = self.compile_expr(cond_expr)?;
                assert(texprs_view(body_exprs@).take(body_exprs.len() as int) =~= texprs_view(body_exprs@));
                let b = self.compile_exprs(body_exprs, body_exprs.len())?;
                match &c.1 {
                    Ty::Bool => Ok(Expr::while_(c, b)),
                    _ => Err(Error::new("[BUG] while cond not bool")),
                }
            },
            Expr::Return(expr) => {
                let v = self.compile_expr(expr)?;
                Ok(Expr::return_(v))
            },
            Expr::Yield(expr) => {
                let v = self.compile_expr(expr)?;
                Ok(Expr::yield_(v))
            },
            Expr::If(_, _, _) => self.compile_if(e),
            Expr::Cast(_, _) => Err(Error::new("[BUG] cast should not appear before lower_async_if")),
            _ => Err(Error::new("[BUG] unexpected expr in lower_async_if")),
        }
    }

    /// Lowers the first `n` expressions of `es`, in order.
    fn compile_exprs(&mut self, es: &Vec<TypedExpr>, n: usize) -> (r: Result<Vec<TypedExpr>, Error>)
        requires
            old(self).chapters@.len() > 0,
            n <= es.len(),
        ensures
            final(self).ctx() == old(self).ctx(),
            final(self).chapters@.len() >= old(self).chapters@.len(),
            match la_exprs(old(self).ctx(), old(self).chapters@, texprs_view(es@).take(n as int)) {
                Some((c, es2)) => r is Ok && texprs_view(r->Ok_0@) == es2 && final(self).chapters@ == c,
                None => r is Err,
            },
        decreases es, 0int,
    {
        let ghost ctx = self.ctx();
        let ghost chaps0 = self.chapters@;
        let ghost sv = texprs_view(es@);
        let mut out: Vec<TypedExpr> = Vec::new();
        let mut i: usize = 0;
        assert(sv.take(0) =~= Seq::<STyped>::empty());
        assert(texprs_view(out@) =~= Seq::<STyped>::empty());
        while i < n
            invariant
                i <= n <= es.len(),
                ctx == self.ctx(),
                ctx == old(self).ctx(),
                chaps0 == old(self).chapters@,
                sv == texprs_view(es@),
                self.chapters@.len() >= chaps0.len() > 0,
                la_exprs(ctx, chaps0, sv.take(i as int)) == Some((self.chapters@, texprs_view(out@))),
            decreases n - i,
        {
            assert(decreases_to!(es => es@[i as int]));
            assert(sv.take(i + 1).drop_last() =~= sv.take(i as int));
            assert(sv.take(i + 1).last() == es@[i as int]@);
            match self.compile_expr(&es[i]) {
                Ok(e) => {
                    proof {
                        lemma_texprs_view_push(out@, e);
                    }
                    out.push(e);
                },
                Err(err) => {
                    proof {
                        lemma_la_exprs_prefix_err(ctx, chaps0, sv, i + 1, n as int);
                    }
                    return Err(err);
                },
            }
            i += 1;
        }
        Ok(out)
    }

    fn compile_if(&mut self, e: &TypedExpr) -> (r: Result<TypedExpr, Error>)
        requires
            old(self).chapters@.len() > 0,
            e.0 is If,
        ensures
            final(self).ctx() == old(self).ctx(),
            final(self).chapters@.len() >= old(self).chapters@.len(),
            match la_expr(old(self).ctx(), old(self).chapters@, e@) {
                Some((c, e2)) => r is Ok && r->Ok_0@ == e2 && final(self).chapters@ == c,
                None => r is Err,
            },
        decreases e, 1int,
    {
        let ghost ctx = self.ctx();
        match &e.0 {
            Expr::If(cond_expr, then_exprs, else_exprs) => {
                let func_name = self.chapters.current_name().clone();
                let new_cond = self.compile_expr(cond_expr)?;
                proof {
                    reveal_strlit("'t");
                    reveal_strlit("'f");
                    reveal_strlit("'e");
                    reveal_strlit("$ifResult");
                    assert("'t"@ =~= seq!['\'', 't']);
                    assert("'f"@ =~= seq!['\'', 'f']);
                    assert("'e"@ =~= seq!['\'', 'e']);
                    assert("$ifResult"@ =~= if_result_name());
                }
                let mut then_chap = Chapter::new_suffixed(&func_name, "'t", hir::clone_params(&self.orig_params));
                let mut else_chap = Chapter::new_suffixed(&func_name, "'f", hir::clone_params(&self.orig_params));
                let mut endif_params = hir::clone_params(&self.orig_params);
                let result_param = Param::new(e.1.clone_ty(), "$ifResult".to_owned());
                proof {
                    assert(params_view(endif_params@.push(result_param)) =~= params_view(endif_params@).push(
                        result_param@,
                    ));
                }
                endif_params.push(result_param);
                let endif_chap = Chapter::new_suffixed(&func_name, "'e", endif_params);
                assert(then_chap@ == new_chapter(suffixed(func_name@, 't'), ctx.params));
                assert(else_chap@ == new_chapter(suffixed(func_name@, 'f'), ctx.params));
                assert(endif_chap@ == new_chapter(
                    suffixed(func_name@, 'e'),
                    ctx.params.push(SpecParam { ty: e@.1, name: if_result_name() }),
                ));
                let then_call = self.goto_call(&then_chap.name, None);
                let else_call = self.goto_call(&else_chap.name, None);
                self.compile_clause(&mut then_chap, then_exprs, &endif_chap.name)?;
                self.compile_clause(&mut else_chap, else_exprs, &endif_chap.name)?;
                match &new_cond.1 {
                    Ty::Bool => {},
                    _ => {
                        return Err(Error::new("[BUG] if cond not bool"));
                    },
                }
                let terminator = match (then_call.0, else_call.0) {
                    (Expr::FunCall(ft, at), Expr::FunCall(ff, af)) => Expr::cond_return(new_cond, *ft, at, *ff, af),
                    _ => vstd::pervasive::unreached(),
                };
                self.chapters.add_stmt(terminator);
                self.chapters.add(then_chap);
                self.chapters.add(else_chap);
                self.chapters.add(endif_chap);
                Ok(Expr::arg_ref(self.orig_params.len(), e.1.clone_ty()))
            },
            _ => vstd::pervasive::unreached(),
        }
    }

    /// Lowers a clause of an `if` into `clause_chap`; the clause must end
    /// with `yield v`, which becomes a jump to the endif chapter with `v`.
    fn compile_clause(&mut self, clause_chap: &mut Chapter, exprs: &Vec<TypedExpr>, endif_chap_name: &String) -> (r:
        Result<(), Error>)
        requires
            old(self).chapters@.len() > 0,
        ensures
            final(self).ctx() == old(self).ctx(),
            final(self).chapters@.len() >= old(self).chapters@.len(),
            match la_clause(old(self).ctx(), old(self).chapters@, old(clause_chap)@, texprs_view(exprs@), endif_chap_name@) {
                Some((c, ch)) => r is Ok && final(self).chapters@ == c && final(clause_chap)@ == ch,
                None => r is Err,
            },
        decreases exprs, 1int,
    {
        let ghost sv = texprs_view(exprs@);
        if exprs.len() == 0 {
            return Err(Error::new("[BUG] last statement of a clause should be a yield"));
        }
        let n = exprs.len() - 1;
        assert(sv.last() == exprs@[n as int]@);
        assert(decreases_to!(exprs => exprs@[n as int]));
        match &exprs[n].0 {
            Expr::Yield(vexpr) => {
                assert(sv.drop_last() =~= sv.take(n as int));
                let mut body = self.compile_exprs(exprs, n)?;
                let ghost c1 = self.chapters@;
                let ghost body_view = texprs_view(body@);
                let ghost stmts0 = clause_chap@.stmts;
                proof {
                    lemma_texprs_view_concat(clause_chap.stmts@, body@);
                }
                clause_chap.stmts.append(&mut body);
                let new_v = self.compile_expr(vexpr)?;
                let goto_endif = Expr::return_(self.goto_call(endif_chap_name, Some(new_v)));
                clause_chap.add_stmt(goto_endif);
                assert(stmts0 + body_view + seq![goto_endif@] =~= (stmts0 + body_view).push(
                    goto_endif@,
                ));
                assert(la_exprs(old(self).ctx(), old(self).chapters@, sv.drop_last()) == Some((c1, body_view)));
                assert(la_expr(old(self).ctx(), c1, vexpr@) == Some((self.chapters@, new_v@)));
                Ok(())
            },
            _ => Err(Error::new("[BUG] last statement of a clause should be a yield")),
        }
    }
}

proof fn lemma_la_exprs_prefix_err(ctx: LowerCtx, chaps: Seq<SpecChapter>, s: Seq<STyped>, k: int, n: int)
    requires
        0 <= k <= n <= s.len(),
        la_exprs(ctx, chaps, s.take(k)) is None,
    ensures
        la_exprs(ctx, chaps, s.take(n)) is None,
    decreases n - k,
{
    if k < n {
        assert(s.take(k + 1).drop_last() =~= s.take(k));
        lemma_la_exprs_prefix_err(ctx, chaps, s, k + 1, n);
    }
}

} // verus!

verus! {

proof fn lemma_la_body_prefix_err(ctx: LowerCtx, chaps: Seq<SpecChapter>, s: Seq<STyped>, k: int)
    requires
        0 <= k <= s.len(),
        la_body(ctx, chaps, s.take(k)) is None,
    ensures
        la_body(ctx, chaps, s) is None,
    decreases s.len() - k,
{
    if k < s.len() {
        assert(s.take(k + 1).drop_last() =~= s.take(k));
        lemma_la_body_prefix_err(ctx, chaps, s, k + 1);
    } else {
        assert(s.take(k) =~= s);
    }
}

proof fn lemma_la_funcs_prefix_err(s: Seq<SpecFunction>, k: int)
    requires
        0 <= k <= s.len(),
        la_funcs(s.take(k)) is None,
    ensures
        la_funcs(s) is None,
    decreases s.len() - k,
{
    if k < s.len() {
        assert(s.take(k + 1).drop_last() =~= s.take(k));
        lemma_la_funcs_prefix_err(s, k + 1);
    } else {
        assert(s.take(k) =~= s);
    }
}

/// The functions the chapters of `f` become, in order.
fn serialize_chapters(f: &Function, chapters: Chapters) -> (r: Vec<Function>)
    ensures
        hir::funcs_view(r@) == chapters@.map_values(|c: SpecChapter| chapter_func(f@, c)),
{
    let ghost cv = chapters@;
    let mut chaps = chapters.chaps;
    let mut funcs: Vec<Function> = Vec::new();
    let ghost n = chaps.len();
    while chaps.len() > 0
        invariant
            funcs.len() + chaps.len() == n,
            cv.len() == n,
            chapters_view(chaps@) == cv.skip(funcs.len() as int),
            hir::funcs_view(funcs@) == cv.take(funcs.len() as int).map_values(|c: SpecChapter| chapter_func(f@, c)),
        decreases chaps.len(),
    {
        let ghost k = funcs.len() as int;
        let ghost before = chaps@;
        assert(chapters_view(before)[0] == cv.skip(k)[0]);
        let chap = chaps.remove(0);
        assert(chap@ == cv[k]);
        assert(chaps@ =~= before.skip(1));
        let new_f = Function {
            generated: f.generated,
            asyncness: f.asyncness,
            name: chap.name,
            params: chap.params,
            ret_ty: f.ret_ty.clone_ty(),
            body_stmts: chap.stmts,
        };
        assert(new_f@ == chapter_func(f@, cv[k]));
        let ghost old_funcs = funcs@;
        funcs.push(new_f);
        assert(hir::funcs_view(funcs@) =~= hir::funcs_view(old_funcs).push(new_f@));
        assert(cv.take(k + 1) =~= cv.take(k).push(cv[k]));
        assert(cv.take(k + 1).map_values(|c: SpecChapter| chapter_func(f@, c)) =~= cv.take(k).map_values(
            |c: SpecChapter| chapter_func(f@, c),
        ).push(chapter_func(f@, cv[k])));
        assert(chapters_view(chaps@) =~= chapters_view(before).skip(1));
        assert(cv.skip(k).skip(1) =~= cv.skip(k + 1));
    }
    assert(cv.take(n as int) =~= cv);
    funcs
}

fn compile_func(f: &Function) -> (r: Result<Vec<Function>, Error>)
    ensures
        match la_func(f@) {
            Some(fs) => r is Ok && hir::funcs_view(r->Ok_0@) == fs,
            None => r is Err,
        },
{
    let mut lower = LowerAsyncIf {
        chapters: Chapters::new(),
        orig_params: hir::clone_params(&f.params),
        orig_ret_ty: f.ret_ty.clone_ty(),
    };
    let first_chap = Chapter::new(f.name.clone(), hir::clone_params(&f.params));
    lower.chapters.add(first_chap);
    let ghost ctx = lower.ctx();
    let ghost init = seq![new_chapter(f@.name, f@.params)];
    let ghost sv = texprs_view(f.body_stmts@);
    assert(lower.chapters@ =~= init);
    assert(sv.take(0) =~= Seq::<STyped>::empty());
    let mut i: usize = 0;
    while i < f.body_stmts.len()
        invariant
            i <= f.body_stmts.len(),
            ctx == lower.ctx(),
            ctx == (LowerCtx { params: f@.params, ret_ty: f@.ret_ty }),
            sv == texprs_view(f.body_stmts@),
            init == seq![new_chapter(f@.name, f@.params)],
            lower.chapters@.len() > 0,
            la_body(ctx, init, sv.take(i as int)) == Some(lower.chapters@),
        decreases f.body_stmts.len() - i,
    {
        assert(sv.take(i + 1).drop_last() =~= sv.take(i as int));
        assert(sv.take(i + 1).last() == f.body_stmts@[i as int]@);
        match lower.compile_expr(&f.body_stmts[i]) {
            Ok(new_expr) => {
                lower.chapters.add_stmt(new_expr);
            },
            Err(err) => {
                proof {
                    lemma_la_body_prefix_err(ctx, init, sv, i + 1);
                }
                return Err(err);
            },
        }
        i += 1;
    }
    assert(sv.take(f.body_stmts.len() as int) =~= sv);
    Ok(serialize_chapters(f, lower.chapters))
}

/// Splits every function at its `if` statements into chapters: the part
/// before the `if` ends by returning the `if` of calls of the two clause
/// chapters, each clause chapter ends by calling the endif chapter with the
/// value it yields, and the statements after the `if` go to the endif
/// chapter, which receives that value as its last parameter.
pub fn run(hir: Program) -> (r: Result<Program, Error>)
    ensures
        result_is(r, spec_lower_async_if(hir@)),
{
    let ghost p = hir@;
    let mut funcs: Vec<Function> = Vec::new();
    let mut i: usize = 0;
    assert(p.funcs.take(0) =~= Seq::<SpecFunction>::empty());
    assert(hir::funcs_view(funcs@) =~= Seq::<SpecFunction>::empty());
    while i < hir.funcs.len()
        invariant
            i <= hir.funcs.len(),
            p == hir@,
            la_funcs(p.funcs.take(i as int)) == Some(hir::funcs_view(funcs@)),
        decreases hir.funcs.len() - i,
    {
        assert(p.funcs.take(i + 1).drop_last() =~= p.funcs.take(i as int));
        assert(p.funcs.take(i + 1).last() == hir.funcs@[i as int]@);
        match compile_func(&hir.funcs[i]) {
            Ok(mut split_funcs) => {
                let ghost old_funcs = funcs@;
                assert(hir::funcs_view(old_funcs + split_funcs@) =~= hir::funcs_view(old_funcs) + hir::funcs_view(
                    split_funcs@,
                ));
                funcs.append(&mut split_funcs);
            },
            Err(err) => {
                proof {
                    lemma_la_funcs_prefix_err(p.funcs, i + 1);
                }
                return Err(err);
            },
        }
        i += 1;
    }
    assert(p.funcs.take(hir.funcs.len() as int) =~= p.funcs);
    Ok(Program { externs: hir.externs, funcs })
}

} // verus!
