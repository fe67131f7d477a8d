//! What `lower_if` leaves of the `if`s of a program.
use crate::hir::blocked::SpecBlock;
use crate::hir::model::{STyped, SpecExpr, SpecFunction, SpecParam, SpecProgram, SpecTy};
use crate::hir_lowering::lower_if::{
    branch_clause, li_body, li_expr, li_exprs, li_func, li_funcs, push_stmt, rewrite_if, spec_lower_if,
};
use vstd::prelude::*;

verus! {

/// `e` holds no `if`.
pub open spec fn no_if(e: STyped) -> bool
    decreases e,
{
    match e.0 {
        SpecExpr::If(_, _, _) => false,
        SpecExpr::OpCall(_, l, r) => no_if(*l) && no_if(*r),
        SpecExpr::FunCall(f, args) => no_if(*f) && all_no_if(args),
        SpecExpr::Yield(v) => no_if(*v),
        SpecExpr::While(c, b) => no_if(*c) && all_no_if(b),
        SpecExpr::Assign(_, v) => no_if(*v),
        SpecExpr::Return(v) => no_if(*v),
        SpecExpr::Cast(_, v) => no_if(*v),
        SpecExpr::CondReturn(c, ft, at, ff, af) => no_if(*c) && no_if(*ft) && all_no_if(at) && no_if(*ff)
            && all_no_if(af),
        SpecExpr::Br(v, _) => no_if(*v),
        SpecExpr::CondBr(c, _, _) => no_if(*c),
        _ => true,
    }
}

/// No expression of `es` holds an `if`.
pub open spec fn all_no_if(es: Seq<STyped>) -> bool
    decreases es,
{
    if es.len() == 0 {
        true
    } else {
        all_no_if(es.drop_last()) && no_if(es.last())
    }
}

pub(crate) proof fn lemma_all_no_if(es: Seq<STyped>)
    ensures
        all_no_if(es) <==> forall|i: int| 0 <= i < es.len() ==> #[trigger] no_if(es[i]),
    decreases es.len(),
{
    if es.len() > 0 {
        let d = es.drop_last();
        lemma_all_no_if(d);
        if all_no_if(es) {
            assert forall|i: int| 0 <= i < es.len() implies #[trigger] no_if(es[i]) by {
                if i < d.len() {
                    assert(no_if(d[i]));
                }
            }
        }
        if forall|i: int| 0 <= i < es.len() ==> #[trigger] no_if(es[i]) {
            assert forall|i: int| 0 <= i < d.len() implies #[trigger] no_if(d[i]) by {
                assert(no_if(es[i]));
            }
            assert(no_if(es[es.len() - 1]));
        }
    }
}

/// No statement of `blocks` holds an `if`.
pub open spec fn blocks_no_if(blocks: Seq<SpecBlock>) -> bool {
    forall|i: int| 0 <= i < blocks.len() ==> #[trigger] all_no_if(blocks[i].stmts)
}

proof fn lemma_rewrite_if_no_if(
    blocks: Seq<SpecBlock>,
    cond: STyped,
    then: Seq<STyped>,
    els: Seq<STyped>,
    ty: SpecTy,
)
    requires
        blocks_no_if(blocks),
        no_if(cond),
        all_no_if(then),
        all_no_if(els),
        rewrite_if(blocks, cond, then, els, ty) is Some,
    ensures
        blocks_no_if(rewrite_if(blocks, cond, then, els, ty).unwrap().0),
        rewrite_if(blocks, cond, then, els, ty).unwrap().0.len() >= blocks.len(),
        no_if(rewrite_if(blocks, cond, then, els, ty).unwrap().1),
{
    let id = (blocks.len() - 1) as usize;
    let target = (id + 3) as usize;
    let br = (SpecExpr::CondBr(Box::new(cond), (id + 1) as usize, (id + 2) as usize), SpecTy::Void);
    assert(no_if(br));
    let b1 = push_stmt(blocks, br);
    assert(blocks_no_if(b1)) by {
        assert forall|i: int| 0 <= i < b1.len() implies #[trigger] all_no_if(b1[i].stmts) by {
            assert(all_no_if(blocks[i].stmts));
            if i == blocks.len() - 1 {
                assert(b1[i].stmts.drop_last() =~= blocks[i].stmts);
            }
        }
    }
    lemma_branch_clause_no_if(then, target);
    lemma_branch_clause_no_if(els, target);
    let t2 = branch_clause(then, target).unwrap();
    let e2 = branch_clause(els, target).unwrap();
    let r = rewrite_if(blocks, cond, then, els, ty).unwrap().0;
    assert(r == b1.push(SpecBlock { param_tys: Seq::empty(), stmts: t2 }).push(
        SpecBlock { param_tys: Seq::empty(), stmts: e2 },
    ).push(SpecBlock { param_tys: seq![ty], stmts: Seq::empty() }));
    assert forall|i: int| 0 <= i < r.len() implies #[trigger] all_no_if(r[i].stmts) by {
        if i < b1.len() {
            assert(all_no_if(b1[i].stmts));
        }
    }
}

proof fn lemma_branch_clause_no_if(stmts: Seq<STyped>, target: usize)
    requires
        all_no_if(stmts),
    ensures
        branch_clause(stmts, target) is Some ==> all_no_if(branch_clause(stmts, target)->0),
{
    if stmts.len() > 0 {
        assert(no_if(stmts.last()));
        match stmts.last().0 {
            SpecExpr::Yield(v) => {
                let r = branch_clause(stmts, target).unwrap();
                assert(r.drop_last() =~= stmts.drop_last());
                assert(no_if((SpecExpr::Br(v, target), SpecTy::Void)));
            },
            _ => {},
        }
    }
}

proof fn lemma_li_expr_no_if(blocks: Seq<SpecBlock>, e: STyped)
    requires
        blocks_no_if(blocks),
        li_expr(blocks, e) is Some,
    ensures
        blocks_no_if(li_expr(blocks, e).unwrap().0),
        li_expr(blocks, e).unwrap().0.len() >= blocks.len(),
        no_if(li_expr(blocks, e).unwrap().1),
    decreases e,
{
    match e.0 {
        SpecExpr::OpCall(op, l, r) => {
            lemma_li_expr_no_if(blocks, *l);
            let b1 = li_expr(blocks, *l).unwrap().0;
            lemma_li_expr_no_if(b1, *r);
        },
        SpecExpr::FunCall(f, args) => {
            lemma_li_expr_no_if(blocks, *f);
            let b1 = li_expr(blocks, *f).unwrap().0;
            lemma_li_exprs_no_if(b1, args);
        },
        SpecExpr::If(c, t, f) => {
            lemma_li_expr_no_if(blocks, *c);
            let (b1, c2) = li_expr(blocks, *c).unwrap();
            lemma_li_exprs_no_if(b1, t);
            let (b2, t2) = li_exprs(b1, t).unwrap();
            lemma_li_exprs_no_if(b2, f);
            let (b3, f2) = li_exprs(b2, f).unwrap();
            lemma_rewrite_if_no_if(b3, c2, t2, f2, crate::hir::spec_yielded_ty(t2)->0);
        },
        SpecExpr::Yield(v) => {
            lemma_li_expr_no_if(blocks, *v);
        },
        SpecExpr::While(c, b) => {
            lemma_li_expr_no_if(blocks, *c);
            let b1 = li_expr(blocks, *c).unwrap().0;
            lemma_li_exprs_no_if(b1, b);
        },
        SpecExpr::Assign(_, v) => {
            lemma_li_expr_no_if(blocks, *v);
        },
        SpecExpr::Return(v) => {
            lemma_li_expr_no_if(blocks, *v);
        },
        SpecExpr::Cast(_, v) => {
            lemma_li_expr_no_if(blocks, *v);
        },
        SpecExpr::CondReturn(c, ft, at, ff, af) => {
            lemma_li_expr_no_if(blocks, *c);
            let b1 = li_expr(blocks, *c).unwrap().0;
            lemma_li_expr_no_if(b1, *ft);
            let b2 = li_expr(b1, *ft).unwrap().0;
            lemma_li_exprs_no_if(b2, at);
            let b3 = li_exprs(b2, at).unwrap().0;
            lemma_li_expr_no_if(b3, *ff);
            let b4 = li_expr(b3, *ff).unwrap().0;
            lemma_li_exprs_no_if(b4, af);
        },
        _ => {},
    }
}

proof fn lemma_li_exprs_no_if(blocks: Seq<SpecBlock>, es: Seq<STyped>)
    requires
        blocks_no_if(blocks),
        li_exprs(blocks, es) is Some,
    ensures
        blocks_no_if(li_exprs(blocks, es).unwrap().0),
        li_exprs(blocks, es).unwrap().0.len() >= blocks.len(),
        all_no_if(li_exprs(blocks, es).unwrap().1),
    decreases es,
{
    if es.len() > 0 {
        lemma_li_exprs_no_if(blocks, es.drop_last());
        let (b1, es2) = li_exprs(blocks, es.drop_last()).unwrap();
        assert(decreases_to!(es => es[es.len() - 1]));
        lemma_li_expr_no_if(b1, es.last());
        let e2 = li_expr(b1, es.last()).unwrap().1;
        assert(es2.push(e2).drop_last() =~= es2);
    }
}

/// After `lower_if` no statement of any block of any function holds an
/// `if`: each has become a conditional branch between blocks.
pub proof fn law_lower_if_leaves_no_if(p: SpecProgram)
    requires
        spec_lower_if(p) is Some,
    ensures
        forall|i: int, j: int|
            0 <= i < spec_lower_if(p)->0.funcs.len() && 0 <= j < spec_lower_if(p)->0.funcs[i].body_blocks.len()
                ==> all_no_if(#[trigger] spec_lower_if(p)->0.funcs[i].body_blocks[j].stmts),
{
    lemma_li_funcs_no_if(p.funcs);
}

proof fn lemma_li_funcs_no_if(fs: Seq<SpecFunction>)
    requires
        li_funcs(fs) is Some,
    ensures
        forall|i: int|
            0 <= i < li_funcs(fs)->0.len() ==> blocks_no_if(#[trigger] li_funcs(fs)->0[i].body_blocks),
    decreases fs.len(),
{
    if fs.len() > 0 {
        lemma_li_funcs_no_if(fs.drop_last());
        lemma_li_func_no_if(fs.last());
        let a = li_funcs(fs.drop_last()).unwrap();
        assert forall|i: int| 0 <= i < li_funcs(fs)->0.len() implies blocks_no_if(
            #[trigger] li_funcs(fs)->0[i].body_blocks,
        ) by {
            if i < a.len() {
                assert(blocks_no_if(a[i].body_blocks));
            }
        }
    }
}

proof fn lemma_push_stmt_no_if(blocks: Seq<SpecBlock>, st: STyped)
    requires
        blocks.len() > 0,
        blocks_no_if(blocks),
        no_if(st),
    ensures
        blocks_no_if(push_stmt(blocks, st)),
        push_stmt(blocks, st).len() == blocks.len(),
{
    let b1 = push_stmt(blocks, st);
    assert forall|i: int| 0 <= i < b1.len() implies #[trigger] all_no_if(b1[i].stmts) by {
        assert(all_no_if(blocks[i].stmts));
        if i == blocks.len() - 1 {
            assert(b1[i].stmts.drop_last() =~= blocks[i].stmts);
        }
    }
}

proof fn lemma_li_body_no_if(blocks: Seq<SpecBlock>, es: Seq<STyped>)
    requires
        blocks.len() > 0,
        blocks_no_if(blocks),
        li_body(blocks, es) is Some,
    ensures
        blocks_no_if(li_body(blocks, es).unwrap()),
        li_body(blocks, es).unwrap().len() >= blocks.len(),
    decreases es.len(),
{
    if es.len() > 0 {
        lemma_li_body_no_if(blocks, es.drop_last());
        let b1 = li_body(blocks, es.drop_last()).unwrap();
        lemma_li_expr_no_if(b1, es.last());
        let (b2, e2) = li_expr(b1, es.last()).unwrap();
        lemma_push_stmt_no_if(b2, e2);
    }
}

proof fn lemma_li_func_no_if(f: SpecFunction)
    requires
        li_func(f) is Some,
    ensures
        blocks_no_if(li_func(f)->0.body_blocks),
{
    let first = SpecBlock { param_tys: f.params.map_values(|p: SpecParam| p.ty), stmts: Seq::empty() };
    assert(blocks_no_if(seq![first])) by {
        assert forall|i: int| 0 <= i < 1 implies #[trigger] all_no_if(seq![first][i].stmts) by {
            assert(seq![first][i] == first);
        }
    }
    lemma_li_body_no_if(seq![first], f.body_stmts);
}

} // verus!

verus! {

/// Lowering an `if` ends the block that is current after its condition with
/// a conditional branch on the lowered condition: its true target is a block
/// holding the lowered `then` clause, and its false target a block holding
/// the lowered `else` clause, each with its final `yield` turned into a
/// branch to the last block, which receives the value of the `if`.
pub proof fn law_lower_if_branch_targets(blocks: Seq<SpecBlock>, e: STyped)
    requires
        e.0 is If,
        li_expr(blocks, e) is Some,
    ensures
        ({
            let c = *(e.0->If_0);
            let (b1, c2) = li_expr(blocks, c).unwrap();
            let (b2, t2) = li_exprs(b1, e.0->If_1).unwrap();
            let (b3, f2) = li_exprs(b2, e.0->If_2).unwrap();
            let bs = li_expr(blocks, e).unwrap().0;
            let endif = (bs.len() - 1) as usize;
            &&& li_expr(blocks, c) is Some
            &&& li_exprs(b1, e.0->If_1) is Some
            &&& li_exprs(b2, e.0->If_2) is Some
            &&& b3.len() > 0
            &&& bs.len() > b3.len()
            &&& bs[b3.len() - 1].stmts.len() > 0
            &&& bs[b3.len() - 1].stmts.last().0 is CondBr
            &&& {
                let br = bs[b3.len() - 1].stmts.last().0;
                &&& *(br->CondBr_0) == c2
                &&& 0 <= br->CondBr_1 < bs.len()
                &&& 0 <= br->CondBr_2 < bs.len()
                &&& Some(bs[br->CondBr_1 as int].stmts) == branch_clause(t2, endif)
                &&& Some(bs[br->CondBr_2 as int].stmts) == branch_clause(f2, endif)
            }
        }),
{
    let c = *(e.0->If_0);
    let (b1, c2) = li_expr(blocks, c).unwrap();
    let (b2, t2) = li_exprs(b1, e.0->If_1).unwrap();
    let (b3, f2) = li_exprs(b2, e.0->If_2).unwrap();
    let ty = crate::hir::spec_yielded_ty(t2)->0;
    assert(li_expr(blocks, e) == rewrite_if(b3, c2, t2, f2, ty));
    let id = (b3.len() - 1) as usize;
    let br = (SpecExpr::CondBr(Box::new(c2), (id + 1) as usize, (id + 2) as usize), SpecTy::Void);
    let pb = push_stmt(b3, br);
    assert(pb[id as int].stmts.last() == br);
}

} // verus!
