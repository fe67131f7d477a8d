//! How the type consistency check of an expression relates to its parts.
use crate::hir::model::{STyped, SpecExpr, SpecTy};
use crate::hir_verifier::{lemma_verify_exprs_all, spec_verify_expr};
use vstd::prelude::*;

verus! {

/// The expressions directly inside `e`: operands, callee and arguments,
/// condition and clauses, loop body, the value yielded, assigned, returned,
/// cast or passed to a block, and the parts of a `cond_return`.
pub open spec fn direct_parts(e: STyped) -> Seq<STyped> {
    match e.0 {
        SpecExpr::OpCall(_, a, b) => seq![*a, *b],
        SpecExpr::FunCall(f, args) => seq![*f] + args,
        SpecExpr::If(c, t, f) => seq![*c] + t + f,
        SpecExpr::Yield(v) => seq![*v],
        SpecExpr::While(c, b) => seq![*c] + b,
        SpecExpr::Assign(_, v) => seq![*v],
        SpecExpr::Return(v) => seq![*v],
        SpecExpr::Cast(_, v) => seq![*v],
        SpecExpr::CondReturn(c, ft, at, ff, af) => seq![*c, *ft] + at + seq![*ff] + af,
        SpecExpr::Br(v, _) => seq![*v],
        SpecExpr::CondBr(c, _, _) => seq![*c],
        _ => Seq::empty(),
    }
}

/// An expression passes the type consistency check only if each expression
/// directly inside it passes: an inconsistent part makes the whole fail.
pub proof fn law_verify_expr_needs_its_parts(ret_ty: SpecTy, n_blocks: nat, e: STyped)
    requires
        spec_verify_expr(ret_ty, n_blocks, e),
    ensures
        forall|k: int|
            0 <= k < direct_parts(e).len() ==> spec_verify_expr(ret_ty, n_blocks, #[trigger] direct_parts(e)[k]),
{
    let ps = direct_parts(e);
    match e.0 {
        SpecExpr::FunCall(f, args) => {
            lemma_verify_exprs_all(ret_ty, n_blocks, args);
            assert forall|k: int| 0 <= k < ps.len() implies spec_verify_expr(ret_ty, n_blocks, #[trigger] ps[k]) by {
                if k > 0 {
                    assert(ps[k] == args[k - 1]);
                }
            }
        },
        SpecExpr::If(c, t, f) => {
            lemma_verify_exprs_all(ret_ty, n_blocks, t);
            lemma_verify_exprs_all(ret_ty, n_blocks, f);
            assert forall|k: int| 0 <= k < ps.len() implies spec_verify_expr(ret_ty, n_blocks, #[trigger] ps[k]) by {
                if 0 < k <= t.len() {
                    assert(ps[k] == t[k - 1]);
                } else if k > t.len() {
                    assert(ps[k] == f[k - 1 - t.len()]);
                }
            }
        },
        SpecExpr::While(c, b) => {
            lemma_verify_exprs_all(ret_ty, n_blocks, b);
            assert forall|k: int| 0 <= k < ps.len() implies spec_verify_expr(ret_ty, n_blocks, #[trigger] ps[k]) by {
                if k > 0 {
                    assert(ps[k] == b[k - 1]);
                }
            }
        },
        SpecExpr::CondReturn(c, ft, at, ff, af) => {
            lemma_verify_exprs_all(ret_ty, n_blocks, at);
            lemma_verify_exprs_all(ret_ty, n_blocks, af);
            assert forall|k: int| 0 <= k < ps.len() implies spec_verify_expr(ret_ty, n_blocks, #[trigger] ps[k]) by {
                if 2 <= k < 2 + at.len() {
                    assert(ps[k] == at[k - 2]);
                } else if k == 2 + at.len() {
                    assert(ps[k] == *ff);
                } else if k > 2 + at.len() {
                    assert(ps[k] == af[k - 3 - at.len()]);
                }
            }
        },
        _ => {},
    }
}

} // verus!
