//! Collection of the local variables (`alloc`) of a function body.
use crate::error::Error;
use crate::hir::model::{group_hir_model, texprs_view, STyped, SpecExpr, SpecTy};
use crate::hir::{Expr, Ty, TypedExpr};
use vstd::prelude::*;

verus! {

broadcast use {vstd::std_specs::vec::group_vec_axioms, group_hir_model};

/// The variable `x` declares, if it is an `alloc`.
pub open spec fn alloc_of(x: STyped) -> Seq<(Seq<char>, SpecTy)> {
    match x.0 {
        SpecExpr::Alloc(name) => seq![(name, x.1)],
        _ => Seq::empty(),
    }
}

/// The variables the expressions of a list declare, in order.
pub open spec fn allocs_of_list(xs: Seq<STyped>) -> Seq<(Seq<char>, SpecTy)>
    decreases xs.len(),
{
    if xs.len() == 0 {
        Seq::empty()
    } else {
        allocs_of_list(xs.drop_last()) + alloc_of(xs.last())
    }
}

/// The variables a visit of `e` finds: those its immediate parts declare,
/// then `e` itself.
pub open spec fn walk_allocs(e: STyped) -> Seq<(Seq<char>, SpecTy)> {
    let parts = match e.0 {
        SpecExpr::OpCall(_, l, r) => alloc_of(*l) + alloc_of(*r),
        SpecExpr::FunCall(f, args) => alloc_of(*f) + allocs_of_list(args),
        SpecExpr::If(c, t, f) => alloc_of(*c) + allocs_of_list(t) + allocs_of_list(f),
        SpecExpr::Yield(v) => alloc_of(*v),
        SpecExpr::While(c, b) => alloc_of(*c) + allocs_of_list(b),
        SpecExpr::Assign(_, v) => alloc_of(*v),
        SpecExpr::Return(v) => alloc_of(*v),
        SpecExpr::Cast(_, v) => alloc_of(*v),
        _ => Seq::empty(),
    };
    parts + alloc_of(e)
}

/// The variables the visits of the statements of a body find, in order.
pub open spec fn collect_allocs(body: Seq<STyped>) -> Seq<(Seq<char>, SpecTy)>
    decreases body.len(),
{
    if body.len() == 0 {
        Seq::empty()
    } else {
        collect_allocs(body.drop_last()) + walk_allocs(body.last())
    }
}

pub open spec fn allocs_view(v: Seq<(String, Ty)>) -> Seq<(Seq<char>, SpecTy)> {
    v.map_values(|x: (String, Ty)| x@)
}

/// The local variables found so far, with their types.
pub struct Allocs(pub Vec<(String, Ty)>);

impl Allocs {
    /// The local variables declared in a body: the `alloc` statements of the
    /// body and the `alloc`s that are immediate parts of its statements.
    pub fn collect(body_stmts: &Vec<TypedExpr>) -> (r: Result<Vec<(String, Ty)>, Error>)
        ensures
            r is Ok,
            allocs_view(r->Ok_0@) == collect_allocs(texprs_view(body_stmts@)),
    {
        let mut a = Allocs(Vec::new());
        assert(allocs_view(a.0@) =~= Seq::<(Seq<char>, SpecTy)>::empty());
        let ghost sv = texprs_view(body_stmts@);
        let mut i: usize = 0;
        assert(sv.take(0) =~= Seq::<STyped>::empty());
        while i < body_stmts.len()
            invariant
                i <= body_stmts.len(),
                sv == texprs_view(body_stmts@),
                allocs_view(a.0@) == collect_allocs(sv.take(i as int)),
            decreases body_stmts.len() - i,
        {
            assert(sv.take(i + 1).drop_last() =~= sv.take(i as int));
            assert(sv.take(i + 1).last() == body_stmts@[i as int]@);
            a.walk_expr(&body_stmts[i]);
            i += 1;
        }
        assert(sv.take(body_stmts.len() as int) =~= sv);
        Ok(a.0)
    }

    /// Records `texpr` if it is an `alloc`.
    fn visit_expr(&mut self, texpr: &TypedExpr)
        ensures
            allocs_view(final(self).0@) == allocs_view(old(self).0@) + alloc_of(texpr@),
    {
        match &texpr.0 {
            Expr::Alloc(name) => {
                let entry = (name.clone(), texpr.1.clone_ty());
                let ghost before = self.0@;
                self.0.push(entry);
                assert(allocs_view(self.0@) =~= allocs_view(before) + alloc_of(texpr@));
            },
            _ => {
                assert(allocs_view(self.0@) =~= allocs_view(self.0@) + alloc_of(texpr@));
            },
        }
    }

    fn visit_exprs(&mut self, exprs: &Vec<TypedExpr>)
        ensures
            allocs_view(final(self).0@) == allocs_view(old(self).0@) + allocs_of_list(texprs_view(exprs@)),
    {
        let ghost start = allocs_view(self.0@);
        let ghost sv = texprs_view(exprs@);
        let mut i: usize = 0;
        assert(sv.take(0) =~= Seq::<STyped>::empty());
        assert(start + allocs_of_list(sv.take(0)) =~= start);
        while i < exprs.len()
            invariant
                i <= exprs.len(),
                sv == texprs_view(exprs@),
                allocs_view(self.0@) == start + allocs_of_list(sv.take(i as int)),
            decreases exprs.len() - i,
        {
            assert(sv.take(i + 1).drop_last() =~= sv.take(i as int));
            assert(sv.take(i + 1).last() == exprs@[i as int]@);
            self.visit_expr(&exprs[i]);
            assert(start + allocs_of_list(sv.take(i + 1)) =~= start + allocs_of_list(sv.take(i as int)) + alloc_of(
                exprs@[i as int]@,
            ));
            i += 1;
        }
        assert(sv.take(exprs.len() as int) =~= sv);
    }

    /// Visits the immediate parts of `expr`, then `expr` itself.
    fn walk_expr(&mut self, expr: &TypedExpr)
        ensures
            allocs_view(final(self).0@) == allocs_view(old(self).0@) + walk_allocs(expr@),
    {
        let ghost start = allocs_view(self.0@);
        match &expr.0 {
            Expr::OpCall(_, lhs, rhs) => {
                self.visit_expr(lhs);
                self.visit_expr(rhs);
                assert(allocs_view(self.0@) =~= start + (alloc_of(lhs@) + alloc_of(rhs@)));
            },
            Expr::FunCall(fexpr, arg_exprs) => {
                self.visit_expr(fexpr);
                self.visit_exprs(arg_exprs);
                assert(allocs_view(self.0@) =~= start + (alloc_of(fexpr@) + allocs_of_list(texprs_view(arg_exprs@))));
            },
            Expr::If(cond_expr, then_exprs, else_exprs) => {
                self.visit_expr(cond_expr);
                self.visit_exprs(then_exprs);
                self.visit_exprs(else_exprs);
                assert(allocs_view(self.0@) =~= start + (alloc_of(cond_expr@) + allocs_of_list(texprs_view(then_exprs@))
                    + allocs_of_list(texprs_view(else_exprs@))));
            },
            Expr::Yield(e) => {
                self.visit_expr(e);
            },
            Expr::While(cond_expr, body_exprs) => {
                self.visit_expr(cond_expr);
                self.visit_exprs(body_exprs);
                assert(allocs_view(self.0@) =~= start + (alloc_of(cond_expr@) + allocs_of_list(texprs_view(body_exprs@))));
            },
            Expr::Assign(_, rhs) => {
                self.visit_expr(rhs);
            },
            Expr::Return(e) => {
                self.visit_expr(e);
            },
            Expr::Cast(_, e) => {
                self.visit_expr(e);
            },
            _ => {
                assert(allocs_view(self.0@) =~= start + Seq::<(Seq<char>, SpecTy)>::empty());
            },
        }
        let ghost mid = allocs_view(self.0@);
        self.visit_expr(expr);
        assert(allocs_view(self.0@) =~= start + walk_allocs(expr@));
    }
}

} // verus!
