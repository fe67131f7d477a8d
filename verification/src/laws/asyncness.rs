//! What the asyncness check decides.
use crate::hir::asyncness_check::{
    expr_may_call_async, exprs_may_call_async, lookup_known, spec_asyncness, spec_asyncness_check, spec_known,
};
use crate::hir::model::{STyped, SpecExpr, SpecFunction, SpecProgram};
use crate::hir::Asyncness;
use vstd::prelude::*;

verus! {

/// After the asyncness check every function is known to be sync or async;
/// nothing else of the program changes.
pub proof fn law_asyncness_decided(p: SpecProgram)
    ensures
        spec_asyncness_check(p).externs == p.externs,
        spec_asyncness_check(p).funcs.len() == p.funcs.len(),
        forall|i: int|
            0 <= i < p.funcs.len() ==> {
                let f = #[trigger] spec_asyncness_check(p).funcs[i];
                &&& (f.asyncness == Asyncness::Sync || f.asyncness == Asyncness::Async)
                &&& f == SpecFunction { asyncness: f.asyncness, ..p.funcs[i] }
            },
{
}

/// Checking the asyncness of a checked program decides nothing new.
pub proof fn law_asyncness_check_idempotent(p: SpecProgram)
    ensures
        spec_asyncness_check(spec_asyncness_check(p)) == spec_asyncness_check(p),
{
    let q = spec_asyncness_check(p);
    assert(spec_known(q) =~= spec_known(p));
    assert(spec_asyncness_check(q).funcs =~= q.funcs) by {
        assert forall|i: int| 0 <= i < q.funcs.len() implies spec_asyncness_check(q).funcs[i] == q.funcs[i] by {
            assert(spec_asyncness(spec_known(q), q.funcs[i]) == spec_asyncness(spec_known(p), p.funcs[i]));
        }
    }
}

} // verus!

verus! {

/// `e`, or an expression inside it at any depth (an operand, a callee, an
/// argument, a condition, a statement of a clause or of a loop body, a value
/// yielded, assigned, returned, cast or passed to a block), calls the
/// function named `name`.
pub open spec fn calls_anywhere(e: STyped, name: Seq<char>) -> bool
    decreases e,
{
    match e.0 {
        SpecExpr::OpCall(_, l, r) => calls_anywhere(*l, name) || calls_anywhere(*r, name),
        SpecExpr::FunCall(f, args) => (*f).0 == SpecExpr::FuncRef(name) || calls_anywhere(*f, name)
            || calls_in_any(args, name),
        SpecExpr::If(c, t, f) => calls_anywhere(*c, name) || calls_in_any(t, name) || calls_in_any(f, name),
        SpecExpr::Yield(v) => calls_anywhere(*v, name),
        SpecExpr::While(c, b) => calls_anywhere(*c, name) || calls_in_any(b, name),
        SpecExpr::Assign(_, v) => calls_anywhere(*v, name),
        SpecExpr::Return(v) => calls_anywhere(*v, name),
        SpecExpr::Cast(_, v) => calls_anywhere(*v, name),
        SpecExpr::CondReturn(c, ft, at, ff, af) => (*ft).0 == SpecExpr::FuncRef(name) || (*ff).0
            == SpecExpr::FuncRef(name) || calls_anywhere(*c, name) || calls_anywhere(*ft, name) || calls_in_any(
            at,
            name,
        ) || calls_anywhere(*ff, name) || calls_in_any(af, name),
        SpecExpr::Br(v, _) => calls_anywhere(*v, name),
        SpecExpr::CondBr(c, _, _) => calls_anywhere(*c, name),
        _ => false,
    }
}

/// One of `es` calls the function named `name`, at any depth.
pub open spec fn calls_in_any(es: Seq<STyped>, name: Seq<char>) -> bool
    decreases es,
{
    if es.len() == 0 {
        false
    } else {
        calls_in_any(es.drop_last(), name) || calls_anywhere(es.last(), name)
    }
}

proof fn lemma_lookup_async(known: Seq<(Seq<char>, bool)>, name: Seq<char>)
    requires
        exists|j: int| 0 <= j < known.len() && (#[trigger] known[j]).0 == name,
        forall|j: int| 0 <= j < known.len() && (#[trigger] known[j]).0 == name ==> known[j].1,
    ensures
        lookup_known(known, name) == Some(true),
    decreases known.len(),
{
    if known.last().0 != name {
        let d = known.drop_last();
        let j = choose|j: int| 0 <= j < known.len() && (#[trigger] known[j]).0 == name;
        assert(d[j] == known[j]);
        assert forall|k: int| 0 <= k < d.len() && (#[trigger] d[k]).0 == name implies d[k].1 by {
            assert(d[k] == known[k]);
        }
        lemma_lookup_async(d, name);
    } else {
        assert(known[known.len() - 1].0 == name);
    }
}

proof fn lemma_calls_async(known: Seq<(Seq<char>, bool)>, e: STyped, name: Seq<char>)
    requires
        lookup_known(known, name) == Some(true),
        calls_anywhere(e, name),
    ensures
        expr_may_call_async(known, e),
    decreases e,
{
    match e.0 {
        SpecExpr::OpCall(_, l, r) => {
            if calls_anywhere(*l, name) {
                lemma_calls_async(known, *l, name);
            } else {
                lemma_calls_async(known, *r, name);
            }
        },
        SpecExpr::FunCall(f, args) => {
            if (*f).0 != SpecExpr::FuncRef(name) {
                if calls_anywhere(*f, name) {
                    lemma_calls_async(known, *f, name);
                } else {
                    lemma_calls_in_any_async(known, args, name);
                }
            }
        },
        SpecExpr::If(c, t, f) => {
            if calls_anywhere(*c, name) {
                lemma_calls_async(known, *c, name);
            } else if calls_in_any(t, name) {
                lemma_calls_in_any_async(known, t, name);
            } else {
                lemma_calls_in_any_async(known, f, name);
            }
        },
        SpecExpr::Yield(v) => lemma_calls_async(known, *v, name),
        SpecExpr::While(c, b) => {
            if calls_anywhere(*c, name) {
                lemma_calls_async(known, *c, name);
            } else {
                lemma_calls_in_any_async(known, b, name);
            }
        },
        SpecExpr::Assign(_, v) => lemma_calls_async(known, *v, name),
        SpecExpr::Return(v) => lemma_calls_async(known, *v, name),
        SpecExpr::Cast(_, v) => lemma_calls_async(known, *v, name),
        SpecExpr::CondReturn(c, ft, at, ff, af) => {
            if (*ft).0 != SpecExpr::FuncRef(name) && (*ff).0 != SpecExpr::FuncRef(name) {
                if calls_anywhere(*c, name) {
                    lemma_calls_async(known, *c, name);
                } else if calls_anywhere(*ft, name) {
                    lemma_calls_async(known, *ft, name);
                } else if calls_in_any(at, name) {
                    lemma_calls_in_any_async(known, at, name);
                } else if calls_anywhere(*ff, name) {
                    lemma_calls_async(known, *ff, name);
                } else {
                    lemma_calls_in_any_async(known, af, name);
                }
            }
        },
        SpecExpr::Br(v, _) => lemma_calls_async(known, *v, name),
        SpecExpr::CondBr(c, _, _) => lemma_calls_async(known, *c, name),
        _ => {},
    }
}

proof fn lemma_calls_in_any_async(known: Seq<(Seq<char>, bool)>, es: Seq<STyped>, name: Seq<char>)
    requires
        lookup_known(known, name) == Some(true),
        calls_in_any(es, name),
    ensures
        exprs_may_call_async(known, es),
    decreases es,
{
    if calls_in_any(es.drop_last(), name) {
        lemma_calls_in_any_async(known, es.drop_last(), name);
    } else {
        assert(decreases_to!(es => es[es.len() - 1]));
        lemma_calls_async(known, es.last(), name);
    }
}

proof fn lemma_calls_in_stmt(es: Seq<STyped>, k: int, name: Seq<char>)
    requires
        0 <= k < es.len(),
        calls_anywhere(es[k], name),
    ensures
        calls_in_any(es, name),
    decreases es.len(),
{
    if k < es.len() - 1 {
        assert(es.drop_last()[k] == es[k]);
        lemma_calls_in_stmt(es.drop_last(), k, name);
    }
}

/// A function that calls an extern declared async (every extern of that
/// name is declared async) anywhere in its body, inside the clauses of an
/// `if`, the body of a loop or the arguments of another call included, is
/// decided async.
pub proof fn law_async_call_anywhere_makes_async(p: SpecProgram, i: int, k: int, name: Seq<char>)
    requires
        0 <= i < p.funcs.len(),
        0 <= k < p.funcs[i].body_stmts.len(),
        calls_anywhere(p.funcs[i].body_stmts[k], name),
        exists|j: int| 0 <= j < p.externs.len() && (#[trigger] p.externs[j]).name == name,
        forall|j: int| 0 <= j < p.externs.len() && (#[trigger] p.externs[j]).name == name ==> p.externs[j].is_async,
    ensures
        spec_asyncness_check(p).funcs[i].asyncness == Asyncness::Async,
{
    let known = spec_known(p);
    let j0 = choose|j: int| 0 <= j < p.externs.len() && (#[trigger] p.externs[j]).name == name;
    assert(known[j0].0 == name);
    assert forall|j: int| 0 <= j < known.len() && (#[trigger] known[j]).0 == name implies known[j].1 by {
        assert(p.externs[j].name == name);
    }
    lemma_lookup_async(known, name);
    lemma_calls_in_stmt(p.funcs[i].body_stmts, k, name);
    lemma_calls_in_any_async(known, p.funcs[i].body_stmts, name);
}

} // verus!
