//! Decides the asyncness of each function.
use crate::error::Error;
use crate::hir::model::{group_hir_model, texprs_view, STyped, SpecExpr, SpecFunction, SpecProgram};
use crate::ast;
use crate::hir::untyped::{spec_create, spec_create_decls, spec_func_names};
use crate::hir::{self, Asyncness, Expr, TypedExpr};
use vstd::prelude::*;

verus! {

broadcast use {vstd::std_specs::vec::group_vec_axioms, group_hir_model};

/// What is known of the asyncness of the externs: `(name, is_async)` in the
/// order of declaration; a later entry for a name overrides an earlier one.
pub open spec fn spec_known(p: SpecProgram) -> Seq<(Seq<char>, bool)> {
    p.externs.map_values(|e: crate::hir::SpecExtern| (e.name, e.is_async))
}

/// The entry last recorded for `name`.
pub open spec fn lookup_known(known: Seq<(Seq<char>, bool)>, name: Seq<char>) -> Option<bool>
    decreases known.len(),
{
    if known.len() == 0 {
        None
    } else if known.last().0 == name {
        Some(known.last().1)
    } else {
        lookup_known(known.drop_last(), name)
    }
}

/// A callee is known to be synchronous when it is a reference to an extern
/// known not to be async.
pub open spec fn known_sync(known: Seq<(Seq<char>, bool)>, fexpr: STyped) -> bool {
    match fexpr.0 {
        SpecExpr::FuncRef(name) => lookup_known(known, name) == Some(false),
        _ => false,
    }
}

/// Does `e` (or an expression in it) call a function that may be async?
pub open spec fn expr_may_call_async(known: Seq<(Seq<char>, bool)>, e: STyped) -> bool
    decreases e,
{
    match e.0 {
        SpecExpr::OpCall(_, l, r) => expr_may_call_async(known, *l) || expr_may_call_async(known, *r),
        SpecExpr::FunCall(f, args) => !known_sync(known, *f) || expr_may_call_async(known, *f)
            || exprs_may_call_async(known, args),
        SpecExpr::If(c, t, f) => expr_may_call_async(known, *c) || exprs_may_call_async(known, t)
            || exprs_may_call_async(known, f),
        SpecExpr::Yield(v) => expr_may_call_async(known, *v),
        SpecExpr::While(c, b) => expr_may_call_async(known, *c) || exprs_may_call_async(known, b),
        SpecExpr::Assign(_, v) => expr_may_call_async(known, *v),
        SpecExpr::Return(v) => expr_may_call_async(known, *v),
        SpecExpr::Cast(_, v) => expr_may_call_async(known, *v),
        SpecExpr::CondReturn(c, ft, at, ff, af) => !known_sync(known, *ft) || !known_sync(known, *ff)
            || expr_may_call_async(known, *c) || expr_may_call_async(known, *ft)
            || exprs_may_call_async(known, at) || expr_may_call_async(known, *ff)
            || exprs_may_call_async(known, af),
        SpecExpr::Br(v, _) => expr_may_call_async(known, *v),
        SpecExpr::CondBr(c, _, _) => expr_may_call_async(known, *c),
        _ => false,
    }
}

pub open spec fn exprs_may_call_async(known: Seq<(Seq<char>, bool)>, es: Seq<STyped>) -> bool
    decreases es,
{
    if es.len() == 0 {
        false
    } else {
        exprs_may_call_async(known, es.drop_last()) || expr_may_call_async(known, es.last())
    }
}

/// The asyncness the check gives a function.
pub open spec fn spec_asyncness(known: Seq<(Seq<char>, bool)>, f: SpecFunction) -> Asyncness {
    if exprs_may_call_async(known, f.body_stmts) {
        Asyncness::Async
    } else {
        Asyncness::Sync
    }
}

/// The program with the asyncness of each function decided.
pub open spec fn spec_asyncness_check(p: SpecProgram) -> SpecProgram {
    SpecProgram {
        externs: p.externs,
        funcs: p.funcs.map_values(
            |f: SpecFunction| SpecFunction { asyncness: spec_asyncness(spec_known(p), f), ..f },
        ),
    }
}

/// View of the exec table of known asyncness.
pub open spec fn known_view(v: Seq<(String, bool)>) -> Seq<(Seq<char>, bool)> {
    v.map_values(|x: (String, bool)| (x.0@, x.1))
}

fn lookup(known: &Vec<(String, bool)>, name: &String) -> (r: Option<bool>)
    ensures
        r == lookup_known(known_view(known@), name@),
{
    let ghost kv = known_view(known@);
    let mut i: usize = known.len();
    assert(kv.take(i as int) =~= kv);
    while i > 0
        invariant
            i <= known.len(),
            kv == known_view(known@),
            lookup_known(kv, name@) == lookup_known(kv.take(i as int), name@),
        decreases i,
    {
        assert(kv.take(i as int).drop_last() =~= kv.take(i - 1));
        if known[i - 1].0.eq(name) {
            return Some(known[i - 1].1);
        }
        i -= 1;
    }
    None
}

/// Decides whether a function may be async.
pub struct Check {
    result: bool,
    known: Vec<(String, bool)>,
}

impl Check {
    /// Whether `f` may call an async function: it calls something else than
    /// an extern known to be synchronous. This judgement is conservative:
    /// it is safe to be false-positive.
    pub fn run(f: &hir::Function, known: &Vec<(String, bool)>) -> (r: Result<bool, Error>)
        ensures
            r == Ok::<bool, Error>(spec_asyncness(known_view(known@), f@) == Asyncness::Async),
    {
        let mut c = Check { result: false, known: clone_known(known) };
        c.walk_exprs(&f.body_stmts);
        Ok(c.result)
    }

    fn check_fexpr(&mut self, fexpr: &TypedExpr)
        ensures
            final(self).known == old(self).known,
            final(self).result == (old(self).result || !known_sync(known_view(old(self).known@), fexpr@)),
    {
        match &fexpr.0 {
            Expr::FuncRef(name) => {
                if let Some(false) = lookup(&self.known, name) {
                    // Calling a non-async function
                } else {
                    // Conservatively assume it is async
                    self.result = true;
                }
            },
            _ => {
                // Conservatively assume it is async
                self.result = true;
            },
        }
    }

    fn walk_expr(&mut self, e: &TypedExpr)
        ensures
            final(self).known == old(self).known,
            final(self).result == (old(self).result || expr_may_call_async(known_view(old(self).known@), e@)),
        decreases e,
    {
        match &e.0 {
            Expr::OpCall(_, l, r) => {
                self.walk_expr(l);
                self.walk_expr(r);
            },
            Expr::FunCall(f, args) => {
                self.check_fexpr(f);
                self.walk_expr(f);
                self.walk_exprs(args);
            },
            Expr::If(c, t, f) => {
                self.walk_expr(c);
                self.walk_exprs(t);
                self.walk_exprs(f);
            },
            Expr::Yield(v) => self.walk_expr(v),
            Expr::While(c, b) => {
                self.walk_expr(c);
                self.walk_exprs(b);
            },
            Expr::Assign(_, v) => self.walk_expr(v),
            Expr::Return(v) => self.walk_expr(v),
            Expr::Cast(_, v) => self.walk_expr(v),
            Expr::CondReturn(c, ft, at, ff, af) => {
                self.check_fexpr(ft);
                self.check_fexpr(ff);
                self.walk_expr(c);
                self.walk_expr(ft);
                self.walk_exprs(at);
                self.walk_expr(ff);
                self.walk_exprs(af);
            },
            Expr::Br(v, _) => self.walk_expr(v),
            Expr::CondBr(c, _, _) => self.walk_expr(c),
            _ => {},
        }
    }

    fn walk_exprs(&mut self, es: &Vec<TypedExpr>)
        ensures
            final(self).known == old(self).known,
            final(self).result == (old(self).result || exprs_may_call_async(known_view(old(self).known@), texprs_view(es@))),
        decreases es,
    {
        let ghost kv = known_view(self.known@);
        let ghost r0 = self.result;
        let mut i: usize = 0;
        assert(texprs_view(es@.take(0)) =~= Seq::<STyped>::empty());
        while i < es.len()
            invariant
                i <= es.len(),
                kv == known_view(self.known@),
                kv == known_view(old(self).known@),
                self.known == old(self).known,
                r0 == old(self).result,
                self.result == (r0 || exprs_may_call_async(kv, texprs_view(es@.take(i as int)))),
            decreases es.len() - i,
        {
            assert(decreases_to!(es => es@[i as int]));
            assert(es@.take(i + 1) =~= es@.take(i as int).push(es@[i as int]));
            assert(texprs_view(es@.take(i + 1)).drop_last() =~= texprs_view(es@.take(i as int)));
            self.walk_expr(&es[i]);
            i += 1;
        }
        assert(es@.take(es.len() as int) =~= es@);
    }
}

fn clone_known(v: &Vec<(String, bool)>) -> (r: Vec<(String, bool)>)
    ensures
        r@ == v@,
{
    let mut out: Vec<(String, bool)> = Vec::new();
    let mut i: usize = 0;
    while i < v.len()
        invariant
            i <= v.len(),
            out@ == v@.take(i as int),
        decreases v.len() - i,
    {
        out.push((v[i].0.clone(), v[i].1));
        assert(v@.take(i + 1) =~= v@.take(i as int).push(v@[i as int]));
        i += 1;
    }
    assert(v@.take(v.len() as int) =~= v@);
    out
}

/// Sets the asyncness of each function: `Async` when it may call an async
/// function (anything but an extern known to be synchronous), else `Sync`.
/// This judgement is conservative because it is (possible, but) hard to
/// tell if a function is async or not when we support first-class functions.
/// It is safe to be false-positive (performance penalty aside).
pub fn run(hir: &mut hir::Program)
    ensures
        final(hir)@ == spec_asyncness_check(old(hir)@),
{
    let ghost p = hir@;
    let mut known: Vec<(String, bool)> = Vec::new();
    let mut i: usize = 0;
    while i < hir.externs.len()
        invariant
            i <= hir.externs.len(),
            hir@ == p,
            known_view(known@) =~= spec_known(p).take(i as int),
        decreases hir.externs.len() - i,
    {
        let ghost old_known = known@;
        let entry = (hir.externs[i].name.clone(), hir.externs[i].is_async);
        known.push(entry);
        assert(known_view(known@) =~= known_view(old_known).push((entry.0@, entry.1)));
        assert(spec_known(p)[i as int] == (hir.externs@[i as int]@.name, hir.externs@[i as int]@.is_async));
        assert(spec_known(p).take(i + 1) =~= spec_known(p).take(i as int).push(spec_known(p)[i as int]));
        i += 1;
    }
    assert(spec_known(p).take(hir.externs.len() as int) =~= spec_known(p));
    let mut funcs: Vec<hir::Function> = Vec::new();
    let ghost target = spec_asyncness_check(p).funcs;
    while hir.funcs.len() > 0
        invariant
            hir@.externs == p.externs,
            hir.funcs.len() + funcs.len() == p.funcs.len(),
            hir::funcs_view(hir.funcs@) == p.funcs.skip(funcs.len() as int),
            hir::funcs_view(funcs@) =~= target.take(funcs.len() as int),
            known_view(known@) == spec_known(p),
            target == spec_asyncness_check(p).funcs,
        decreases hir.funcs.len(),
    {
        let ghost old_funcs = hir.funcs@;
        let ghost n = funcs.len();
        let mut f = hir.funcs.remove(0);
        assert(f == old_funcs[0]);
        assert(hir::funcs_view(old_funcs)[0] == old_funcs[0]@);
        assert(p.funcs.skip(n as int)[0] == p.funcs[n as int]);
        assert(f@ == p.funcs[n as int]);
        assert(hir.funcs@ =~= old_funcs.skip(1));
        let is_async = match Check::run(&f, &known) {
            Ok(b) => b,
            Err(_) => true,
        };
        f.asyncness = if is_async {
            Asyncness::Async
        } else {
            Asyncness::Sync
        };
        let ghost fv = f@;
        funcs.push(f);
        assert(hir::funcs_view(funcs@) =~= hir::funcs_view(funcs@.drop_last()).push(fv));
        assert(funcs@.drop_last() =~= funcs@.take(n as int));
        assert(target[n as int] == fv);
        assert(target.take(n + 1) =~= target.take(n as int).push(fv));
        assert(hir::funcs_view(hir.funcs@) =~= p.funcs.skip(funcs.len() as int)) by {
            assert forall|k: int| 0 <= k < hir.funcs@.len() implies hir::funcs_view(hir.funcs@)[k] == p.funcs.skip(n + 1)[k] by {
                assert(hir.funcs@[k] == old_funcs[k + 1]);
                assert(hir::funcs_view(old_funcs)[k + 1] == p.funcs.skip(n as int)[k + 1]);
            }
        }
    }
    assert(target.take(funcs.len() as int) =~= target);
    hir.funcs = funcs;
}

} // verus!

verus! {

/// The number of function (not extern) declarations in `decls`.
pub open spec fn count_funcs(decls: Seq<ast::SpecDeclaration>) -> nat
    decreases decls.len(),
{
    if decls.len() == 0 {
        0
    } else {
        count_funcs(decls.drop_last()) + if decls.last() is Function {
            1nat
        } else {
            0nat
        }
    }
}

/// The type of a declared function, async when `is_async` holds.
pub open spec fn decl_fun_ty(is_async: bool, params: Seq<ast::SpecParam>, ret_ty: ast::SpecTy) -> ast::SpecFunTy {
    ast::SpecFunTy { is_async, param_tys: params.map_values(|p: ast::SpecParam| p.ty), ret_ty: Box::new(ret_ty) }
}

/// The signature of each declaration, in order: an extern is async as it is
/// declared; a function is async as the asyncness check decided for the
/// function of `funcs` it became (functions are counted in order).
pub open spec fn spec_gather_sigs(decls: Seq<ast::SpecDeclaration>, funcs: Seq<SpecFunction>) -> Seq<
    (Seq<char>, ast::SpecFunTy),
>
    decreases decls.len(),
{
    if decls.len() == 0 {
        Seq::empty()
    } else {
        spec_gather_sigs(decls.drop_last(), funcs).push(
            match decls.last() {
                ast::SpecDeclaration::Extern(e) => (e.name, decl_fun_ty(e.is_async, e.params, e.ret_ty)),
                ast::SpecDeclaration::Function(f) => (
                    f.name,
                    decl_fun_ty(
                        funcs[count_funcs(decls.drop_last()) as int].asyncness == Asyncness::Async,
                        f.params,
                        f.ret_ty,
                    ),
                ),
            },
        )
    }
}

/// View of a signature entry.
pub open spec fn sig_entry_view(x: (String, ast::FunTy)) -> (Seq<char>, ast::SpecFunTy) {
    (
        x.0@,
        ast::SpecFunTy {
            is_async: x.1.is_async,
            param_tys: ast::tys_view(x.1.param_tys@),
            ret_ty: Box::new(x.1.ret_ty@),
        },
    )
}

proof fn lemma_create_counts_funcs(names: Set<Seq<char>>, decls: Seq<ast::SpecDeclaration>)
    requires
        spec_create_decls(names, decls) is Some,
    ensures
        spec_create_decls(names, decls)->0.funcs.len() == count_funcs(decls),
    decreases decls.len(),
{
    if decls.len() > 0 {
        lemma_create_counts_funcs(names, decls.drop_last());
    }
}

proof fn lemma_count_funcs_prefix(decls: Seq<ast::SpecDeclaration>, k: int)
    requires
        0 <= k <= decls.len(),
    ensures
        count_funcs(decls.take(k)) <= count_funcs(decls),
    decreases decls.len() - k,
{
    if k < decls.len() {
        lemma_count_funcs_prefix(decls, k + 1);
        assert(decls.take(k + 1).drop_last() =~= decls.take(k));
    } else {
        assert(decls.take(k) =~= decls);
    }
}

/// The signature of each declaration of a program, in order, with the
/// asyncness of its functions decided by the asyncness check; an error when
/// the program has no untyped HIR.
pub fn gather_sigs(p: &ast::Program) -> (r: Result<Vec<(String, ast::FunTy)>, Error>)
    ensures
        match spec_create(ast::decls_view(p@)) {
            Some(h) => r is Ok && r->Ok_0@.map_values(|x: (String, ast::FunTy)| sig_entry_view(x))
                == spec_gather_sigs(ast::decls_view(p@), spec_asyncness_check(h).funcs),
            None => r is Err,
        },
{
    let ghost decls = ast::decls_view(p@);
    let mut hir = crate::hir::untyped::create(p)?;
    let ghost h = hir@;
    run(&mut hir);
    let ghost funcs = spec_asyncness_check(h).funcs;
    proof {
        lemma_create_counts_funcs(spec_func_names(decls), decls);
    }
    let mut sigs: Vec<(String, ast::FunTy)> = Vec::new();
    let mut i: usize = 0;
    let mut j: usize = 0;
    assert(decls.take(0) =~= Seq::<ast::SpecDeclaration>::empty());
    assert(sigs@.map_values(|x: (String, ast::FunTy)| sig_entry_view(x)) =~= Seq::<(Seq<char>, ast::SpecFunTy)>::empty());
    while i < p.len()
        invariant
            i <= p.len(),
            decls == ast::decls_view(p@),
            decls.len() == p.len(),
            hir@.funcs == funcs,
            funcs.len() == count_funcs(decls),
            j == count_funcs(decls.take(i as int)),
            sigs@.map_values(|x: (String, ast::FunTy)| sig_entry_view(x)) == spec_gather_sigs(decls.take(i as int), funcs),
        decreases p.len() - i,
    {
        let ghost before = sigs@;
        assert(decls.take(i + 1).drop_last() =~= decls.take(i as int));
        assert(decls.take(i + 1).last() == decls[i as int]);
        assert(decls[i as int] == p@[i as int]@);
        proof {
            lemma_count_funcs_prefix(decls, i + 1);
        }
        let entry = match &p[i] {
            ast::Declaration::Extern(e) => (e.name.clone(), e.fun_ty()),
            ast::Declaration::Function(f) => {
                assert(j < hir.funcs.len());
                assert(hir.funcs@[j as int]@ == funcs[j as int]);
                let is_async = match hir.funcs[j].asyncness {
                    Asyncness::Async => true,
                    _ => false,
                };
                j += 1;
                (f.name.clone(), f.fun_ty(is_async))
            },
        };
        sigs.push(entry);
        assert(sigs@.map_values(|x: (String, ast::FunTy)| sig_entry_view(x)) =~= before.map_values(
            |x: (String, ast::FunTy)| sig_entry_view(x),
        ).push(sig_entry_view(entry)));
        i += 1;
    }
    assert(decls.take(p.len() as int) =~= decls);
    Ok(sigs)
}

} // verus!
