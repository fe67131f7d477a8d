//! Converts if-else expressions to a sequence of blocks.
//! Intended to use `cf.cond_br` rather than `scf.if` which (IIRC) cannot contain
//! `func.return`.
//!
//! The branches must not contain async function calls (use lower_async_if to
//! remove them first.)
//!
//! ```text
//! // Before
//! fun foo() {
//!   ...
//!   x = if (a) { b ... ; yield c } else { d ... ; yield e }
//!   ...
//!   x + ...
//! }
//! // After
//! fun foo() -> Foo {
//!   ...
//!     cond_br a, ^bb1(), ^bb2()
//!   ^bb1():
//!     b ...
//!     br ^bb3(c)
//!   ^bb2():
//!     d ...
//!     br ^bb3(e)
//!   ^bb3(x):
//!     ...
//!     x + ...
//! }
//! ```
use crate::error::{result_is, Error};
use crate::hir::blocked::{self, SpecBlock};
use crate::hir::model::{
    cast_result_ty, group_hir_model, lemma_texprs_view_concat, lemma_texprs_view_push, texprs_view, tys_view, STyped,
    SpecExpr, SpecFunction, SpecParam, SpecProgram, SpecTy,
};
use crate::hir::{
    self, is_arith_op, is_arith_op_string, is_comparison_op, is_comparison_op_string, op_result_ty, params_view,
    spec_yielded_ty, Expr, Program, Ty, TypedExpr,
};
use vstd::prelude::*;

verus! {

broadcast use {vstd::std_specs::vec::group_vec_axioms, group_hir_model};

/// Appends a statement to the last block.
pub open spec fn push_stmt(blocks: Seq<SpecBlock>, s: STyped) -> Seq<SpecBlock> {
    blocks.update(blocks.len() - 1, SpecBlock { stmts: blocks.last().stmts.push(s), ..blocks.last() })
}

/// A clause ending with `yield v` ends with a branch to the block `target`
/// with `v` instead; `None` when it does not end with `yield`.
pub open spec fn branch_clause(stmts: Seq<STyped>, target: usize) -> Option<Seq<STyped>> {
    if stmts.len() == 0 {
        None
    } else {
        match stmts.last().0 {
            SpecExpr::Yield(v) => Some(stmts.drop_last().push((SpecExpr::Br(v, target), SpecTy::Void))),
            _ => None,
        }
    }
}

/// An `if` (whose parts are already lowered) becomes a conditional branch at
/// the end of the current block, one block for each clause, and an endif
/// block that receives the value of the `if`, which it stands for.
pub open spec fn rewrite_if(blocks: Seq<SpecBlock>, cond: STyped, then: Seq<STyped>, els: Seq<STyped>, if_ty: SpecTy) -> Option<
    (Seq<SpecBlock>, STyped),
> {
    if blocks.len() == 0 || blocks.len() + 2 > usize::MAX {
        None
    } else {
        let id = (blocks.len() - 1) as usize;
        let b1 = push_stmt(blocks, (SpecExpr::CondBr(Box::new(cond), (id + 1) as usize, (id + 2) as usize), SpecTy::Void));
        match (branch_clause(then, (id + 3) as usize), branch_clause(els, (id + 3) as usize)) {
            (Some(t2), Some(e2)) => Some(
                (
                    b1.push(SpecBlock { param_tys: Seq::empty(), stmts: t2 }).push(
                        SpecBlock { param_tys: Seq::empty(), stmts: e2 },
                    ).push(SpecBlock { param_tys: seq![if_ty], stmts: Seq::empty() }),
                    (SpecExpr::BlockArgRef, if_ty),
                ),
            ),
            _ => None,
        }
    }
}

/// The lowered form of `e` and the blocks after lowering it: the parts of
/// an expression are lowered first, then the expression itself; `None` when
/// the pass fails (an expression of this pass in the input, an ill-typed
/// operator, callee, condition or `if`, a clause that does not end with
/// `yield`, too many blocks to count).
pub open spec fn li_expr(blocks: Seq<SpecBlock>, e: STyped) -> Option<(Seq<SpecBlock>, STyped)>
    decreases e,
{
    match e.0 {
        SpecExpr::Number(_) => Some((blocks, e)),
        SpecExpr::PseudoVar(_) => Some((blocks, e)),
        SpecExpr::LVarRef(_) => Some((blocks, e)),
        SpecExpr::ArgRef(_) => Some((blocks, e)),
        SpecExpr::FuncRef(_) => Some((blocks, e)),
        SpecExpr::Alloc(_) => Some((blocks, e)),
        SpecExpr::OpCall(op, l, r) => match li_expr(blocks, *l) {
            Some((b1, l2)) => match li_expr(b1, *r) {
                Some((b2, r2)) => if is_arith_op(op) || is_comparison_op(op) {
                    Some((b2, (SpecExpr::OpCall(op, Box::new(l2), Box::new(r2)), op_result_ty(op))))
                } else {
                    None
                },
                None => None,
            },
            None => None,
        },
        SpecExpr::FunCall(f, args) => match li_expr(blocks, *f) {
            Some((b1, f2)) => match li_exprs(b1, args) {
                Some((b2, args2)) => match f2.1 {
                    SpecTy::Fun(ft) => Some((b2, (SpecExpr::FunCall(Box::new(f2), args2), *ft.ret_ty))),
                    _ => None,
                },
                None => None,
            },
            None => None,
        },
        SpecExpr::If(c, t, f) => match li_expr(blocks, *c) {
            Some((b1, c2)) => match li_exprs(b1, t) {
                Some((b2, t2)) => match li_exprs(b2, f) {
                    Some((b3, f2)) => if c2.1 == SpecTy::Bool && spec_yielded_ty(t2) is Some && spec_yielded_ty(t2)
                        == spec_yielded_ty(f2) {
                        rewrite_if(b3, c2, t2, f2, spec_yielded_ty(t2)->0)
                    } else {
                        None
                    },
                    None => None,
                },
                None => None,
            },
            None => None,
        },
        SpecExpr::Yield(v) => match li_expr(blocks, *v) {
            Some((b1, v2)) => Some((b1, (SpecExpr::Yield(Box::new(v2)), v2.1))),
            None => None,
        },
        SpecExpr::While(c, b) => match li_expr(blocks, *c) {
            Some((b1, c2)) => match li_exprs(b1, b) {
                Some((b2, body2)) => if c2.1 == SpecTy::Bool {
                    Some((b2, (SpecExpr::While(Box::new(c2), body2), SpecTy::Null)))
                } else {
                    None
                },
                None => None,
            },
            None => None,
        },
        SpecExpr::Assign(name, v) => match li_expr(blocks, *v) {
            Some((b1, v2)) => Some((b1, (SpecExpr::Assign(name, Box::new(v2)), SpecTy::Void))),
            None => None,
        },
        SpecExpr::Return(v) => match li_expr(blocks, *v) {
            Some((b1, v2)) => Some((b1, (SpecExpr::Return(Box::new(v2)), SpecTy::Void))),
            None => None,
        },
        SpecExpr::Cast(ct, v) => match li_expr(blocks, *v) {
            Some((b1, v2)) => Some((b1, (SpecExpr::Cast(ct, Box::new(v2)), cast_result_ty(ct)))),
            None => None,
        },
        SpecExpr::CondReturn(c, ft, at, ff, af) => match li_expr(blocks, *c) {
            Some((b1, c2)) => match li_expr(b1, *ft) {
                Some((b2, ft2)) => match li_exprs(b2, at) {
                    Some((b3, at2)) => match li_expr(b3, *ff) {
                        Some((b4, ff2)) => match li_exprs(b4, af) {
                            Some((b5, af2)) => Some(
                                (
                                    b5,
                                    (
                                        SpecExpr::CondReturn(Box::new(c2), Box::new(ft2), at2, Box::new(ff2), af2),
                                        SpecTy::Void,
                                    ),
                                ),
                            ),
                            None => None,
                        },
                        None => None,
                    },
                    None => None,
                },
                None => None,
            },
            None => None,
        },
        _ => None,
    }
}

/// Lowers a list of expressions, in order.
pub open spec fn li_exprs(blocks: Seq<SpecBlock>, es: Seq<STyped>) -> Option<(Seq<SpecBlock>, Seq<STyped>)>
    decreases es,
{
    if es.len() == 0 {
        Some((blocks, Seq::empty()))
    } else {
        match li_exprs(blocks, es.drop_last()) {
            Some((b1, es2)) => match li_expr(b1, es.last()) {
                Some((b2, e2)) => Some((b2, es2.push(e2))),
                None => None,
            },
            None => None,
        }
    }
}

/// The blocks after lowering the statements `es` of a body: each lowered
/// statement goes to the block that is the last one after lowering it.
pub open spec fn li_body(blocks: Seq<SpecBlock>, es: Seq<STyped>) -> Option<Seq<SpecBlock>>
    decreases es.len(),
{
    if es.len() == 0 {
        Some(blocks)
    } else {
        match li_body(blocks, es.drop_last()) {
            Some(b1) => match li_expr(b1, es.last()) {
                Some((b2, e2)) => Some(push_stmt(b2, e2)),
                None => None,
            },
            None => None,
        }
    }
}

/// The blocks of a function: the body is lowered, starting from a first block
/// that takes the function's parameters.
pub open spec fn li_func(f: SpecFunction) -> Option<blocked::SpecFunction> {
    let first = SpecBlock { param_tys: f.params.map_values(|p: SpecParam| p.ty), stmts: Seq::empty() };
    match li_body(seq![first], f.body_stmts) {
        Some(bs) => Some(blocked::SpecFunction { name: f.name, params: f.params, ret_ty: f.ret_ty, body_blocks: bs }),
        None => None,
    }
}

pub open spec fn li_funcs(fs: Seq<SpecFunction>) -> Option<Seq<blocked::SpecFunction>>
    decreases fs.len(),
{
    if fs.len() == 0 {
        Some(Seq::empty())
    } else {
        match (li_funcs(fs.drop_last()), li_func(fs.last())) {
            (Some(a), Some(b)) => Some(a.push(b)),
            _ => None,
        }
    }
}

/// The program after `lower_if`; `None` when the pass fails.
pub open spec fn spec_lower_if(p: SpecProgram) -> Option<blocked::SpecProgram> {
    match li_funcs(p.funcs) {
        Some(fs) => Some(blocked::SpecProgram { externs: p.externs, funcs: fs }),
        None => None,
    }
}

} // verus!

verus! {

struct Compiler {
    blocks: Vec<blocked::Block>,
}

impl Compiler {
    spec fn blocks_view(&self) -> Seq<SpecBlock> {
        blocked::blocks_view(self.blocks@)
    }

    fn push(&mut self, e: TypedExpr)
        requires
            old(self).blocks_view().len() > 0,
        ensures
            final(self).blocks_view() == push_stmt(old(self).blocks_view(), e@),
    {
        let mut last = self.blocks.pop().unwrap();
        proof {
            lemma_texprs_view_push(last.stmts@, e);
        }
        last.stmts.push(e);
        self.blocks.push(last);
        assert(self.blocks_view() =~= push_stmt(old(self).blocks_view(), e@));
    }

    /// Replaces the final `yield v` of a clause by a branch to `target`.
    fn branch_clause_of(stmts: Vec<TypedExpr>, target: usize) -> (r: Result<Vec<TypedExpr>, Error>)
        ensures
            match branch_clause(texprs_view(stmts@), target) {
                Some(s) => r is Ok && texprs_view(r->Ok_0@) == s,
                None => r is Err,
            },
    {
        let ghost sv = texprs_view(stmts@);
        let mut stmts = stmts;
        if stmts.len() == 0 {
            return Err(Error::new("[BUG] expected yield"));
        }
        let ghost n = stmts.len();
        let ghost before = stmts@;
        assert(sv.last() == stmts@[n - 1]@);
        let last = stmts.pop().unwrap();
        assert(stmts@ =~= before.drop_last());
        assert(texprs_view(stmts@) =~= sv.drop_last());
        match last.0 {
            Expr::Yield(v) => {
                let b = Expr::br(*v, target);
                proof {
                    lemma_texprs_view_push(stmts@, b);
                }
                stmts.push(b);
                Ok(stmts)
            },
            _ => Err(Error::new("[BUG] expected yield")),
        }
    }

    fn rewrite_if(&mut self, cond: TypedExpr, then_exprs: Vec<TypedExpr>, else_exprs: Vec<TypedExpr>, if_ty: Ty) -> (r:
        Result<TypedExpr, Error>)
        ensures
            match rewrite_if(old(self).blocks_view(), cond@, texprs_view(then_exprs@), texprs_view(else_exprs@), if_ty@) {
                Some((bs, e)) => r is Ok && r->Ok_0@ == e && final(self).blocks_view() == bs,
                None => r is Err,
            },
    {
        if self.blocks.len() == 0 || self.blocks.len() > usize::MAX - 2 {
            return Err(Error::new("too many blocks"));
        }
        let id = self.blocks.len() - 1;
        self.push(Expr::cond_br(cond, id + 1, id + 2));
        let then_stmts = Self::branch_clause_of(then_exprs, id + 3)?;
        let else_stmts = Self::branch_clause_of(else_exprs, id + 3)?;
        let no_tys: Vec<Ty> = Vec::new();
        assert(tys_view(no_tys@) =~= Seq::<SpecTy>::empty());
        let then_block = blocked::Block::new(no_tys, then_stmts);
        let no_tys: Vec<Ty> = Vec::new();
        assert(tys_view(no_tys@) =~= Seq::<SpecTy>::empty());
        let else_block = blocked::Block::new(no_tys, else_stmts);
        let mut endif_tys: Vec<Ty> = Vec::new();
        endif_tys.push(if_ty.clone_ty());
        assert(tys_view(endif_tys@) =~= seq![if_ty@]);
        let endif_block = blocked::Block::new_empty(endif_tys);
        let ghost b1 = self.blocks_view();
        self.blocks.push(then_block);
        self.blocks.push(else_block);
        self.blocks.push(endif_block);
        assert(self.blocks_view() =~= b1.push(then_block@).push(else_block@).push(endif_block@));
        Ok(Expr::block_arg_ref(if_ty))
    }
}

} // verus!

verus! {

impl Compiler {
    /// Lowers the parts of `e`, then `e` itself.
    fn walk_expr(&mut self, e: &TypedExpr) -> (r: Result<TypedExpr, Error>)
        ensures
            match li_expr(old(self).blocks_view(), e@) {
                Some((bs, e2)) => r is Ok && r->Ok_0@ == e2 && final(self).blocks_view() == bs,
                None => r is Err,
            },
        decreases e,
    {
        match &e.0 {
            Expr::Number(n) => Ok((Expr::Number(*n), e.1.clone_ty())),
            Expr::PseudoVar(pv) => Ok((Expr::PseudoVar(*pv), e.1.clone_ty())),
            Expr::LVarRef(name) => Ok((Expr::LVarRef(name.clone()), e.1.clone_ty())),
            Expr::ArgRef(i) => Ok((Expr::ArgRef(*i), e.1.clone_ty())),
            Expr::FuncRef(name) => Ok((Expr::FuncRef(name.clone()), e.1.clone_ty())),
            Expr::Alloc(name) => Ok((Expr::Alloc(name.clone()), e.1.clone_ty())),
            Expr::OpCall(op, lhs, rhs) => {
                let l = self.walk_expr(lhs)?;
                let r = self.walk_expr(rhs)?;
                if is_arith_op_string(op) || is_comparison_op_string(op) {
                    Ok(Expr::op_call(op.clone(), l, r))
                } else {
                    Err(Error::new("[BUG] unknown operator"))
                }
            },
            Expr::FunCall(fexpr, arg_exprs) => {
                let f = self.walk_expr(fexpr)?;
                let args = self.walk_exprs(arg_exprs)?;
                match &f.1 {
                    Ty::Fun(_) => Ok(Expr::fun_call(f, args)),
                    _ => Err(Error::new("[BUG] not a function")),
                }
            },
            Expr::If(cond_expr, then_exprs, else_exprs) => {
                let c = self.walk_expr(cond_expr)?;
                let t = self.walk_exprs(then_exprs)?;
                let f = self.walk_exprs(else_exprs)?;
                match &c.1 {
                    Ty::Bool => {},
                    _ => {
                        return Err(Error::new("[BUG] if cond not bool"));
                    },
                }
                let t1 = match opt_yielded_ty(&t) {
                    Some(t1) => t1,
                    None => {
                        return Err(Error::new("[BUG] if branch not terminated with yield"));
                    },
                };
                let t2 = match opt_yielded_ty(&f) {
                    Some(t2) => t2,
                    None => {
                        return Err(Error::new("[BUG] if branch not terminated with yield"));
                    },
                };
                if !t1.eq_ty(&t2) {
                    return Err(Error::new("[BUG] if types mismatch"));
                }
                self.rewrite_if(c, t, f, t1)
            },
            Expr::Yield(v) => {
                let v2 = self.walk_expr(v)?;
                Ok(Expr::yield_(v2))
            },
            Expr::While(cond_expr, body_exprs) => {
                let c = self.walk_expr(cond_expr)?;
                let b = self.walk_exprs(body_exprs)?;
                match &c.1 {
                    Ty::Bool => Ok(Expr::while_(c, b)),
                    _ => Err(Error::new("[BUG] while cond not bool")),
                }
            },
            Expr::Assign(name, v) => {
                let v2 = self.walk_expr(v)?;
                Ok(Expr::assign(name.clone(), v2))
            },
            Expr::Return(v) => {
                let v2 = self.walk_expr(v)?;
                Ok(Expr::return_(v2))
            },
            Expr::Cast(cast_type, v) => {
                let v2 = self.walk_expr(v)?;
                Ok(Expr::cast(cast_type.clone_cast_type(), v2))
            },
            Expr::CondReturn(cond, fexpr_t, args_t, fexpr_f, args_f) => {
                let c = self.walk_expr(cond)?;
                let ft = self.walk_expr(fexpr_t)?;
                let at = self.walk_exprs(args_t)?;
                let ff = self.walk_expr(fexpr_f)?;
                let af = self.walk_exprs(args_f)?;
                Ok(Expr::cond_return(c, ft, at, ff, af))
            },
            _ => Err(Error::new("[BUG] not supported by lower_if")),
        }
    }

    fn walk_exprs(&mut self, es: &Vec<TypedExpr>) -> (r: Result<Vec<TypedExpr>, Error>)
        ensures
            match li_exprs(old(self).blocks_view(), texprs_view(es@)) {
                Some((bs, es2)) => r is Ok && texprs_view(r->Ok_0@) == es2 && final(self).blocks_view() == bs,
                None => r is Err,
            },
        decreases es,
    {
        let ghost b0 = self.blocks_view();
        let ghost sv = texprs_view(es@);
        let mut out: Vec<TypedExpr> = Vec::new();
        let mut i: usize = 0;
        assert(sv.take(0) =~= Seq::<STyped>::empty());
        assert(texprs_view(out@) =~= Seq::<STyped>::empty());
        while i < es.len()
            invariant
                i <= es.len(),
                b0 == old(self).blocks_view(),
                sv == texprs_view(es@),
                li_exprs(b0, sv.take(i as int)) == Some((self.blocks_view(), texprs_view(out@))),
            decreases es.len() - i,
        {
            assert(decreases_to!(es => es@[i as int]));
            assert(sv.take(i + 1).drop_last() =~= sv.take(i as int));
            assert(sv.take(i + 1).last() == es@[i as int]@);
            match self.walk_expr(&es[i]) {
                Ok(e) => {
                    proof {
                        lemma_texprs_view_push(out@, e);
                    }
                    out.push(e);
                },
                Err(err) => {
                    proof {
                        lemma_li_exprs_prefix_err(b0, sv, i + 1);
                    }
                    return Err(err);
                },
            }
            i += 1;
        }
        assert(sv.take(es.len() as int) =~= sv);
        Ok(out)
    }
}

proof fn lemma_li_exprs_prefix_err(blocks: Seq<SpecBlock>, s: Seq<STyped>, k: int)
    requires
        0 <= k <= s.len(),
        li_exprs(blocks, s.take(k)) is None,
    ensures
        li_exprs(blocks, s) is None,
    decreases s.len() - k,
{
    if k < s.len() {
        assert(s.take(k + 1).drop_last() =~= s.take(k));
        lemma_li_exprs_prefix_err(blocks, s, k + 1);
    } else {
        assert(s.take(k) =~= s);
    }
}

/// The type an `if` clause yields, if it ends with `yield` or `return`.
fn opt_yielded_ty(stmts: &Vec<TypedExpr>) -> (r: Option<Ty>)
    ensures
        match spec_yielded_ty(texprs_view(stmts@)) {
            Some(t) => r is Some && r->0@ == t,
            None => r is None,
        },
{
    if stmts.len() == 0 {
        return None;
    }
    let stmt = &stmts[stmts.len() - 1];
    assert(texprs_view(stmts@)[stmts.len() - 1] == stmts@[stmts.len() - 1]@);
    match &stmt.0 {
        Expr::Yield(val) => Some(val.1.clone_ty()),
        Expr::Return(_) => Some(Ty::Void),
        _ => None,
    }
}

impl Compiler {
    /// Lowers the statements of a body, each into the block that is the last
    /// one after lowering it.
    fn walk_body(&mut self, es: &Vec<TypedExpr>) -> (r: Result<(), Error>)
        requires
            old(self).blocks_view().len() > 0,
        ensures
            match li_body(old(self).blocks_view(), texprs_view(es@)) {
                Some(bs) => r is Ok && final(self).blocks_view() == bs,
                None => r is Err,
            },
    {
        let ghost b0 = self.blocks_view();
        let ghost sv = texprs_view(es@);
        let mut i: usize = 0;
        assert(sv.take(0) =~= Seq::<STyped>::empty());
        while i < es.len()
            invariant
                i <= es.len(),
                sv == texprs_view(es@),
                b0 == old(self).blocks_view(),
                self.blocks_view().len() > 0,
                li_body(b0, sv.take(i as int)) == Some(self.blocks_view()),
            decreases es.len() - i,
        {
            let ghost b1 = self.blocks_view();
            assert(sv.take(i + 1).drop_last() =~= sv.take(i as int));
            assert(sv.take(i + 1).last() == es@[i as int]@);
            match self.walk_expr(&es[i]) {
                Ok(s2) => {
                    proof {
                        lemma_li_expr_len(b1, es@[i as int]@);
                    }
                    self.push(s2);
                },
                Err(err) => {
                    proof {
                        assert(li_expr(b1, sv.take(i + 1).last()) is None);
                        assert(li_body(b0, sv.take(i + 1)) is None);
                        lemma_li_body_prefix_err(b0, sv, i + 1);
                    }
                    return Err(err);
                },
            }
            i += 1;
        }
        assert(sv.take(es.len() as int) =~= sv);
        Ok(())
    }
}

proof fn lemma_li_body_prefix_err(blocks: Seq<SpecBlock>, s: Seq<STyped>, k: int)
    requires
        0 <= k <= s.len(),
        li_body(blocks, s.take(k)) is None,
    ensures
        li_body(blocks, s) is None,
    decreases s.len() - k,
{
    if k < s.len() {
        assert(s.take(k + 1).drop_last() =~= s.take(k));
        lemma_li_body_prefix_err(blocks, s, k + 1);
    } else {
        assert(s.take(k) =~= s);
    }
}

fn compile_func(f: hir::Function) -> (r: Result<blocked::Function, Error>)
    ensures
        result_is(r, li_func(f@)),
{
    let ghost fv = f@;
    let first_block = blocked::Block::new_empty(hir::param_tys(&f.params));
    let mut blocks: Vec<blocked::Block> = Vec::new();
    blocks.push(first_block);
    let mut c = Compiler { blocks };
    assert(c.blocks_view() =~= seq![SpecBlock { param_tys: fv.params.map_values(|p: SpecParam| p.ty), stmts: Seq::empty() }]);
    c.walk_body(&f.body_stmts)?;
    Ok(blocked::Function { name: f.name, params: f.params, ret_ty: f.ret_ty, body_blocks: c.blocks })
}

/// Lowering never removes blocks.
proof fn lemma_li_exprs_len(blocks: Seq<SpecBlock>, es: Seq<STyped>)
    requires
        li_exprs(blocks, es) is Some,
    ensures
        li_exprs(blocks, es).unwrap().0.len() >= blocks.len(),
    decreases es.len(),
{
    if es.len() > 0 {
        lemma_li_exprs_len(blocks, es.drop_last());
        let b1 = li_exprs(blocks, es.drop_last()).unwrap().0;
        lemma_li_expr_len(b1, es.last());
    }
}

proof fn lemma_li_expr_len(blocks: Seq<SpecBlock>, e: STyped)
    requires
        li_expr(blocks, e) is Some,
    ensures
        li_expr(blocks, e).unwrap().0.len() >= blocks.len(),
    decreases e,
{
    match e.0 {
        SpecExpr::OpCall(_, l, r) => {
            lemma_li_expr_len(blocks, *l);
            lemma_li_expr_len(li_expr(blocks, *l).unwrap().0, *r);
        },
        SpecExpr::FunCall(f, args) => {
            lemma_li_expr_len(blocks, *f);
            lemma_li_exprs_len_rec(li_expr(blocks, *f).unwrap().0, args);
        },
        SpecExpr::If(c, t, f) => {
            lemma_li_expr_len(blocks, *c);
            let b1 = li_expr(blocks, *c).unwrap().0;
            lemma_li_exprs_len_rec(b1, t);
            let b2 = li_exprs(b1, t).unwrap().0;
            lemma_li_exprs_len_rec(b2, f);
        },
        SpecExpr::Yield(v) => lemma_li_expr_len(blocks, *v),
        SpecExpr::While(c, b) => {
            lemma_li_expr_len(blocks, *c);
            lemma_li_exprs_len_rec(li_expr(blocks, *c).unwrap().0, b);
        },
        SpecExpr::Assign(_, v) => lemma_li_expr_len(blocks, *v),
        SpecExpr::Return(v) => lemma_li_expr_len(blocks, *v),
        SpecExpr::Cast(_, v) => lemma_li_expr_len(blocks, *v),
        SpecExpr::CondReturn(c, ft, at, ff, af) => {
            lemma_li_expr_len(blocks, *c);
            let b1 = li_expr(blocks, *c).unwrap().0;
            lemma_li_expr_len(b1, *ft);
            let b2 = li_expr(b1, *ft).unwrap().0;
            lemma_li_exprs_len_rec(b2, at);
            let b3 = li_exprs(b2, at).unwrap().0;
            lemma_li_expr_len(b3, *ff);
            let b4 = li_expr(b3, *ff).unwrap().0;
            lemma_li_exprs_len_rec(b4, af);
        },
        _ => {},
    }
}

/// `lemma_li_exprs_len`, for the lists inside an expression.
proof fn lemma_li_exprs_len_rec(blocks: Seq<SpecBlock>, es: Seq<STyped>)
    requires
        li_exprs(blocks, es) is Some,
    ensures
        li_exprs(blocks, es).unwrap().0.len() >= blocks.len(),
    decreases es,
{
    if es.len() > 0 {
        lemma_li_exprs_len_rec(blocks, es.drop_last());
        let b1 = li_exprs(blocks, es.drop_last()).unwrap().0;
        lemma_li_expr_len(b1, es.last());
    }
}

proof fn lemma_li_funcs_prefix_err(s: Seq<SpecFunction>, k: int)
    requires
        0 <= k <= s.len(),
        li_funcs(s.take(k)) is None,
    ensures
        li_funcs(s) is None,
    decreases s.len() - k,
{
    if k < s.len() {
        assert(s.take(k + 1).drop_last() =~= s.take(k));
        lemma_li_funcs_prefix_err(s, k + 1);
    } else {
        assert(s.take(k) =~= s);
    }
}

/// Converts the `if` expressions of every function to blocks.
pub fn run(program: Program) -> (r: Result<blocked::Program, Error>)
    ensures
        result_is(r, spec_lower_if(program@)),
{
    let ghost p = program@;
    let mut old_funcs = program.funcs;
    let ghost n = old_funcs.len();
    let mut funcs: Vec<blocked::Function> = Vec::new();
    assert(p.funcs.take(0) =~= Seq::<SpecFunction>::empty());
    assert(blocked::funcs_view(funcs@) =~= Seq::<blocked::SpecFunction>::empty());
    while old_funcs.len() > 0
        invariant
            funcs.len() + old_funcs.len() == n,
            p == program@,
            p.funcs.len() == n,
            hir::funcs_view(old_funcs@) == p.funcs.skip(funcs.len() as int),
            li_funcs(p.funcs.take(funcs.len() as int)) == Some(blocked::funcs_view(funcs@)),
        decreases old_funcs.len(),
    {
        let ghost k = funcs.len() as int;
        let ghost before = old_funcs@;
        assert(hir::funcs_view(before)[0] == p.funcs.skip(k)[0]);
        let f = old_funcs.remove(0);
        assert(f@ == p.funcs[k]);
        assert(p.funcs.take(k + 1).drop_last() =~= p.funcs.take(k));
        assert(p.funcs.take(k + 1).last() == p.funcs[k]);
        match compile_func(f) {
            Ok(bf) => {
                let ghost prev = funcs@;
                funcs.push(bf);
                assert(blocked::funcs_view(funcs@) =~= blocked::funcs_view(prev).push(bf@));
            },
            Err(err) => {
                proof {
                    assert(li_func(p.funcs[k]) is None);
                    assert(li_funcs(p.funcs.take(k + 1)) is None);
                    lemma_li_funcs_prefix_err(p.funcs, k + 1);
                }
                return Err(err);
            },
        }
        assert(hir::funcs_view(old_funcs@) =~= hir::funcs_view(before).skip(1));
        assert(p.funcs.skip(k).skip(1) =~= p.funcs.skip(k + 1));
    }
    assert(p.funcs.take(n as int) =~= p.funcs);
    Ok(blocked::Program { externs: program.externs, funcs })
}

} // verus!
