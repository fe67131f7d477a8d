//! Creates untyped HIR (i.e. every expression has type `Unknown`) from the AST.
use crate::ast;
use crate::error::{result_is, Error};
use crate::hir::model::{
    group_hir_model, lemma_texprs_view_push, lemma_tys_view_push, spec_chiika_cont,
    spec_asyncness_from_bool, texprs_view, tys_view, STyped, SpecExpr, SpecExtern, SpecFunTy,
    SpecFunction, SpecParam, SpecProgram, SpecTy,
};
use crate::hir::{self, Asyncness, Expr, FunTy, Ty, TypedExpr};
use crate::strings::{contains_name, lemma_name_set_empty, lemma_name_set_push, name_set, string_is};
use vstd::prelude::*;

verus! {

broadcast use {vstd::std_specs::vec::group_vec_axioms, group_hir_model, ast::group_ast_model};

/// The HIR type named by an AST type, if it names one.
pub open spec fn spec_compile_ty(t: ast::SpecTy) -> Option<SpecTy>
    decreases t,
{
    match t {
        ast::SpecTy::Raw(s) => if s == seq!['N', 'u', 'l', 'l'] {
            Some(SpecTy::Null)
        } else if s == seq!['I', 'n', 't'] {
            Some(SpecTy::Int)
        } else if s == seq!['B', 'o', 'o', 'l'] {
            Some(SpecTy::Bool)
        } else if s == seq!['A', 'N', 'Y'] {
            Some(SpecTy::Any)
        } else if s == seq!['E', 'N', 'V'] {
            Some(SpecTy::ChiikaEnv)
        } else if s == seq!['F', 'U', 'T', 'U', 'R', 'E'] {
            Some(SpecTy::RustFuture)
        } else if s == seq!['C', 'O', 'N', 'T'] {
            Some(spec_chiika_cont())
        } else {
            None
        },
        ast::SpecTy::Fun(f) => match (spec_compile_tys(f.param_tys), spec_compile_ty(*f.ret_ty)) {
            (Some(ps), Some(r)) => Some(
                SpecTy::Fun(
                    SpecFunTy { asyncness: Asyncness::Unknown, param_tys: ps, ret_ty: Box::new(r) },
                ),
            ),
            _ => None,
        },
    }
}

pub open spec fn spec_compile_tys(s: Seq<ast::SpecTy>) -> Option<Seq<SpecTy>>
    decreases s,
{
    if s.len() == 0 {
        Some(Seq::empty())
    } else {
        match (spec_compile_tys(s.drop_last()), spec_compile_ty(s.last())) {
            (Some(ps), Some(t)) => Some(ps.push(t)),
            _ => None,
        }
    }
}

pub open spec fn spec_compile_params(s: Seq<ast::SpecParam>) -> Option<Seq<SpecParam>>
    decreases s.len(),
{
    if s.len() == 0 {
        Some(Seq::empty())
    } else {
        match (spec_compile_params(s.drop_last()), spec_compile_ty(s.last().ty)) {
            (Some(ps), Some(t)) => Some(ps.push(SpecParam { ty: t, name: s.last().name })),
            _ => None,
        }
    }
}

/// The HIR form of an external declaration.
pub open spec fn spec_compile_extern(e: ast::SpecExtern) -> Option<SpecExtern> {
    match (spec_compile_params(e.params), spec_compile_ty(e.ret_ty)) {
        (Some(ps), Some(r)) => Some(
            SpecExtern {
                is_async: e.is_async,
                is_internal: e.is_internal,
                name: e.name,
                params: ps,
                ret_ty: r,
            },
        ),
        _ => None,
    }
}

/// The index of the first parameter named `name`.
pub open spec fn spec_param_index(params: Seq<ast::SpecParam>, name: Seq<char>) -> Option<int> {
    if exists|i: int| 0 <= i < params.len() && params[i].name == name {
        Some(
            choose|i: int|
                {
                    &&& 0 <= i < params.len()
                    &&& params[i].name == name
                    &&& forall|j: int| 0 <= j < i ==> params[j].name != name
                },
        )
    } else {
        None
    }
}

/// What a variable name refers to: a local variable, a parameter or a
/// function, in this order of preference.
pub open spec fn spec_var_ref(
    func_names: Set<Seq<char>>,
    params: Seq<ast::SpecParam>,
    lvars: Set<Seq<char>>,
    name: Seq<char>,
) -> Option<SpecExpr> {
    if lvars.contains(name) {
        Some(SpecExpr::LVarRef(name))
    } else if let Some(i) = spec_param_index(params, name) {
        Some(SpecExpr::ArgRef(i as usize))
    } else if func_names.contains(name) {
        Some(SpecExpr::FuncRef(name))
    } else {
        None
    }
}

/// The untyped HIR of an expression, and the local variables declared after it.
pub open spec fn spec_create_expr(
    func_names: Set<Seq<char>>,
    params: Seq<ast::SpecParam>,
    lvars: Set<Seq<char>>,
    x: ast::SpecExpr,
) -> Option<(STyped, Set<Seq<char>>)>
    decreases x,
{
    match x {
        ast::SpecExpr::Number(n) => Some(((SpecExpr::Number(n), SpecTy::Unknown), lvars)),
        ast::SpecExpr::VarRef(name) => match spec_var_ref(func_names, params, lvars, name) {
            Some(e) => Some(((e, SpecTy::Unknown), lvars)),
            None => None,
        },
        ast::SpecExpr::OpCall(op, l, r) => match spec_create_expr(func_names, params, lvars, *l) {
            Some((l2, lv1)) => match spec_create_expr(func_names, params, lv1, *r) {
                Some((r2, lv2)) => Some(((SpecExpr::OpCall(op, Box::new(l2), Box::new(r2)), SpecTy::Unknown), lv2)),
                None => None,
            },
            None => None,
        },
        ast::SpecExpr::FunCall(f, args) => match spec_create_expr(func_names, params, lvars, *f) {
            Some((f2, lv1)) => match spec_create_exprs(func_names, params, lv1, args) {
                Some((args2, lv2)) => Some(((SpecExpr::FunCall(Box::new(f2), args2), SpecTy::Unknown), lv2)),
                None => None,
            },
            None => None,
        },
        ast::SpecExpr::If(c, t, e) => match spec_create_expr(func_names, params, lvars, *c) {
            Some((c2, lv1)) => match spec_create_exprs(func_names, params, lv1, t) {
                Some((t2, lv2)) => match e {
                    Some(es) => match spec_create_exprs(func_names, params, lv2, es) {
                        Some((e2, lv3)) => Some(((SpecExpr::If(Box::new(c2), t2, e2), SpecTy::Unknown), lv3)),
                        None => None,
                    },
                    None => Some(((SpecExpr::If(Box::new(c2), t2, Seq::empty()), SpecTy::Unknown), lv2)),
                },
                None => None,
            },
            None => None,
        },
        ast::SpecExpr::While(c, b) => match spec_create_expr(func_names, params, lvars, *c) {
            Some((c2, lv1)) => match spec_create_exprs(func_names, params, lv1, b) {
                Some((b2, lv2)) => Some(((SpecExpr::While(Box::new(c2), b2), SpecTy::Unknown), lv2)),
                None => None,
            },
            None => None,
        },
        ast::SpecExpr::Alloc(name) => Some(((SpecExpr::Alloc(name), SpecTy::Unknown), lvars.insert(name))),
        ast::SpecExpr::Assign(name, v) => match spec_create_expr(func_names, params, lvars, *v) {
            Some((v2, lv1)) => Some(((SpecExpr::Assign(name, Box::new(v2)), SpecTy::Unknown), lv1)),
            None => None,
        },
        ast::SpecExpr::Return(v) => match spec_create_expr(func_names, params, lvars, *v) {
            Some((v2, lv1)) => Some(((SpecExpr::Return(Box::new(v2)), SpecTy::Unknown), lv1)),
            None => None,
        },
        ast::SpecExpr::Yield(v) => match spec_create_expr(func_names, params, lvars, *v) {
            Some((v2, lv1)) => Some(((SpecExpr::Yield(Box::new(v2)), SpecTy::Unknown), lv1)),
            None => None,
        },
        ast::SpecExpr::Para(_) => None,
    }
}

pub open spec fn spec_create_exprs(
    func_names: Set<Seq<char>>,
    params: Seq<ast::SpecParam>,
    lvars: Set<Seq<char>>,
    xs: Seq<ast::SpecExpr>,
) -> Option<(Seq<STyped>, Set<Seq<char>>)>
    decreases xs,
{
    if xs.len() == 0 {
        Some((Seq::empty(), lvars))
    } else {
        match spec_create_exprs(func_names, params, lvars, xs.drop_last()) {
            Some((es, lv1)) => match spec_create_expr(func_names, params, lv1, xs.last()) {
                Some((e, lv2)) => Some((es.push(e), lv2)),
                None => None,
            },
            None => None,
        }
    }
}

/// The untyped HIR of a function (its asyncness is not known yet).
pub open spec fn spec_create_func(func_names: Set<Seq<char>>, f: ast::SpecFunction) -> Option<SpecFunction> {
    match (
        spec_compile_params(f.params),
        spec_compile_ty(f.ret_ty),
        spec_create_exprs(func_names, f.params, Set::empty(), f.body_stmts),
    ) {
        (Some(ps), Some(r), Some((body, _))) => Some(
            SpecFunction {
                generated: false,
                asyncness: Asyncness::Unknown,
                name: f.name,
                params: ps,
                ret_ty: r,
                body_stmts: body,
            },
        ),
        _ => None,
    }
}

/// The name a declaration declares.
pub open spec fn decl_name(d: ast::SpecDeclaration) -> Seq<char> {
    match d {
        ast::SpecDeclaration::Extern(e) => e.name,
        ast::SpecDeclaration::Function(f) => f.name,
    }
}

/// The names of all the functions a program declares (external or not).
pub open spec fn spec_func_names(decls: Seq<ast::SpecDeclaration>) -> Set<Seq<char>> {
    decls.map_values(|d: ast::SpecDeclaration| decl_name(d)).to_set()
}

/// The untyped HIR of the declarations `decls`, where `func_names` are the
/// functions in scope.
pub open spec fn spec_create_decls(func_names: Set<Seq<char>>, decls: Seq<ast::SpecDeclaration>) -> Option<SpecProgram>
    decreases decls.len(),
{
    if decls.len() == 0 {
        Some(SpecProgram { externs: Seq::empty(), funcs: Seq::empty() })
    } else {
        match spec_create_decls(func_names, decls.drop_last()) {
            Some(p) => match decls.last() {
                ast::SpecDeclaration::Extern(e) => match spec_compile_extern(e) {
                    Some(e2) => Some(SpecProgram { externs: p.externs.push(e2), ..p }),
                    None => None,
                },
                ast::SpecDeclaration::Function(f) => match spec_create_func(func_names, f) {
                    Some(f2) => Some(SpecProgram { funcs: p.funcs.push(f2), ..p }),
                    None => None,
                },
            },
            None => None,
        }
    }
}

/// The untyped HIR of a program: its externs and its functions, in the order
/// of declaration.
pub open spec fn spec_create(decls: Seq<ast::SpecDeclaration>) -> Option<SpecProgram> {
    spec_create_decls(spec_func_names(decls), decls)
}

} // verus!

verus! {

/// Converts an AST type to a HIR type; unknown type names are rejected.
pub fn compile_ty(x: &ast::Ty) -> (r: Result<Ty, Error>)
    ensures
        result_is(r, spec_compile_ty(x@)),
    decreases x,
{
    match x {
        ast::Ty::Raw(s) => {
            proof {
                reveal_strlit("Null");
                reveal_strlit("Int");
                reveal_strlit("Bool");
                reveal_strlit("ANY");
                reveal_strlit("ENV");
                reveal_strlit("FUTURE");
                reveal_strlit("CONT");
                assert("Null"@ =~= seq!['N', 'u', 'l', 'l']);
                assert("Int"@ =~= seq!['I', 'n', 't']);
                assert("Bool"@ =~= seq!['B', 'o', 'o', 'l']);
                assert("ANY"@ =~= seq!['A', 'N', 'Y']);
                assert("ENV"@ =~= seq!['E', 'N', 'V']);
                assert("FUTURE"@ =~= seq!['F', 'U', 'T', 'U', 'R', 'E']);
                assert("CONT"@ =~= seq!['C', 'O', 'N', 'T']);
            }
            if string_is(s, "Null") {
                Ok(Ty::Null)
            } else if string_is(s, "Int") {
                Ok(Ty::Int)
            } else if string_is(s, "Bool") {
                Ok(Ty::Bool)
            } else if string_is(s, "ANY") {
                Ok(Ty::Any)
            } else if string_is(s, "ENV") {
                Ok(Ty::ChiikaEnv)
            } else if string_is(s, "FUTURE") {
                Ok(Ty::RustFuture)
            } else if string_is(s, "CONT") {
                Ok(Ty::chiika_cont())
            } else {
                Err(Error::new("unknown type"))
            }
        },
        ast::Ty::Fun(f) => {
            let f2 = compile_fun_ty(f)?;
            Ok(Ty::Fun(f2))
        },
    }
}

/// Converts an AST function type to a HIR function type (of unknown asyncness).
pub fn compile_fun_ty(x: &ast::FunTy) -> (r: Result<FunTy, Error>)
    ensures
        match (spec_compile_tys(ast::tys_view(x.param_tys@)), spec_compile_ty(ast::ty_view(*x.ret_ty))) {
            (Some(ps), Some(rt)) => r is Ok && r->Ok_0@ == (SpecFunTy {
                asyncness: Asyncness::Unknown,
                param_tys: ps,
                ret_ty: Box::new(rt),
            }),
            _ => r is Err,
        },
    decreases x,
{
    let mut params: Vec<Ty> = Vec::new();
    let mut i: usize = 0;
    while i < x.param_tys.len()
        invariant
            i <= x.param_tys.len(),
            spec_compile_tys(ast::tys_view(x.param_tys@.take(i as int))) == Some(tys_view(params@)),
        decreases x.param_tys.len() - i,
    {
        assert(decreases_to!(x => x.param_tys@[i as int]));
        let ghost prefix = x.param_tys@.take(i as int);
        assert(x.param_tys@.take(i + 1) =~= prefix.push(x.param_tys@[i as int]));
        assert(ast::tys_view(x.param_tys@.take(i + 1)).drop_last() =~= ast::tys_view(prefix));
        match compile_ty(&x.param_tys[i]) {
            Ok(t) => {
                proof {
                    lemma_tys_view_push(params@, t);
                }
                params.push(t);
            },
            Err(e) => {
                proof {
                    assert(ast::tys_view(x.param_tys@).take(i + 1) =~= ast::tys_view(x.param_tys@.take(i + 1)));
                    lemma_compile_tys_prefix_err(ast::tys_view(x.param_tys@), i as int + 1);
                }
                return Err(e);
            },
        }
        i += 1;
    }
    assert(x.param_tys@.take(x.param_tys.len() as int) =~= x.param_tys@);
    let ret = compile_ty(&x.ret_ty)?;
    Ok(FunTy { asyncness: Asyncness::Unknown, param_tys: params, ret_ty: Box::new(ret) })
}

/// When a prefix of a list of types fails to convert, so does the whole list.
proof fn lemma_compile_tys_prefix_err(s: Seq<ast::SpecTy>, n: int)
    requires
        0 <= n <= s.len(),
        spec_compile_tys(s.take(n)) is None,
    ensures
        spec_compile_tys(s) is None,
    decreases s.len() - n,
{
    if n < s.len() {
        assert(s.take(n + 1).drop_last() =~= s.take(n));
        lemma_compile_tys_prefix_err(s, n + 1);
    } else {
        assert(s.take(n) =~= s);
    }
}

} // verus!

verus! {

/// Converts the parameters of a declaration.
pub fn compile_params(ps: &Vec<ast::Param>) -> (r: Result<Vec<hir::Param>, Error>)
    ensures
        match spec_compile_params(ast::params_view(ps@)) {
            Some(s) => r is Ok && hir::params_view(r->Ok_0@) == s,
            None => r is Err,
        },
{
    let mut out: Vec<hir::Param> = Vec::new();
    let mut i: usize = 0;
    while i < ps.len()
        invariant
            i <= ps.len(),
            spec_compile_params(ast::params_view(ps@.take(i as int))) == Some(hir::params_view(out@)),
        decreases ps.len() - i,
    {
        let ghost prefix = ps@.take(i as int);
        assert(ast::params_view(ps@.take(i + 1)).drop_last() =~= ast::params_view(prefix));
        match compile_ty(&ps[i].ty) {
            Ok(t) => {
                let p = hir::Param { ty: t, name: ps[i].name.clone() };
                assert(hir::params_view(out@.push(p)) =~= hir::params_view(out@).push(p@));
                out.push(p);
            },
            Err(e) => {
                proof {
                    assert(ast::params_view(ps@).take(i + 1) =~= ast::params_view(ps@.take(i + 1)));
                    lemma_compile_params_prefix_err(ast::params_view(ps@), i as int + 1);
                }
                return Err(e);
            },
        }
        i += 1;
    }
    assert(ps@.take(ps.len() as int) =~= ps@);
    Ok(out)
}

proof fn lemma_compile_params_prefix_err(s: Seq<ast::SpecParam>, n: int)
    requires
        0 <= n <= s.len(),
        spec_compile_params(s.take(n)) is None,
    ensures
        spec_compile_params(s) is None,
    decreases s.len() - n,
{
    if n < s.len() {
        assert(s.take(n + 1).drop_last() =~= s.take(n));
        lemma_compile_params_prefix_err(s, n + 1);
    } else {
        assert(s.take(n) =~= s);
    }
}

impl hir::Extern {
    /// Converts an external declaration; unknown type names are rejected.
    pub fn from_ast(e: &ast::Extern) -> (r: Result<hir::Extern, Error>)
        ensures
            result_is(r, spec_compile_extern(e@)),
    {
        let params = compile_params(&e.params)?;
        let ret_ty = compile_ty(&e.ret_ty)?;
        Ok(hir::Extern {
            is_async: e.is_async,
            is_internal: e.is_internal,
            name: e.name.clone(),
            params,
            ret_ty,
        })
    }
}

} // verus!

verus! {

/// The index of the first parameter named `name`.
fn param_index(params: &Vec<ast::Param>, name: &String) -> (r: Option<usize>)
    ensures
        match spec_param_index(ast::params_view(params@), name@) {
            Some(i) => r == Some(i as usize),
            None => r is None,
        },
{
    let ghost ps = ast::params_view(params@);
    let mut i: usize = 0;
    while i < params.len()
        invariant
            i <= params.len(),
            ps == ast::params_view(params@),
            forall|j: int| 0 <= j < i ==> ps[j].name != name@,
        decreases params.len() - i,
    {
        if params[i].name.eq(name) {
            proof {
                let c = choose|k: int|
                    {
                        &&& 0 <= k < ps.len()
                        &&& ps[k].name == name@
                        &&& forall|j: int| 0 <= j < k ==> ps[j].name != name@
                    };
                assert(ps[i as int].name == name@);
                if c < i {
                } else if c > i {
                    assert(ps[i as int].name != name@);
                }
            }
            return Some(i);
        }
        i += 1;
    }
    None
}

struct Compiler {
    func_names: Vec<String>,
}

impl Compiler {
    fn compile_var_ref(&self, f: &ast::Function, lvars: &Vec<String>, name: &String) -> (r: Result<
        Expr,
        Error,
    >)
        ensures
            result_is(r, spec_var_ref(name_set(self.func_names@), f@.params, name_set(lvars@), name@)),
    {
        if contains_name(lvars, name) {
            Ok(Expr::LVarRef(name.clone()))
        } else if let Some(idx) = param_index(&f.params, name) {
            Ok(Expr::ArgRef(idx))
        } else if contains_name(&self.func_names, name) {
            Ok(Expr::FuncRef(name.clone()))
        } else {
            Err(Error::new("unknown variable"))
        }
    }

    fn compile_expr(&self, f: &ast::Function, lvars: &mut Vec<String>, x: &ast::Expr) -> (r: Result<
        TypedExpr,
        Error,
    >)
        ensures
            match spec_create_expr(name_set(self.func_names@), f@.params, name_set(old(lvars)@), x@) {
                Some((e, lv)) => r is Ok && r->Ok_0@ == e && name_set(final(lvars)@) == lv,
                None => r is Err,
            },
        decreases x,
    {
        match x {
            ast::Expr::Number(i) => Ok((Expr::Number(*i), Ty::Unknown)),
            ast::Expr::VarRef(name) => {
                let e = self.compile_var_ref(f, lvars, name)?;
                Ok((e, Ty::Unknown))
            },
            ast::Expr::OpCall(op, lhs, rhs) => {
                let lhs = self.compile_expr(f, lvars, lhs)?;
                let rhs = self.compile_expr(f, lvars, rhs)?;
                Ok((Expr::OpCall(op.clone(), Box::new(lhs), Box::new(rhs)), Ty::Unknown))
            },
            ast::Expr::FunCall(fexpr, args) => {
                let fexpr = self.compile_expr(f, lvars, fexpr)?;
                let args = self.compile_exprs(f, lvars, args)?;
                Ok((Expr::FunCall(Box::new(fexpr), args), Ty::Unknown))
            },
            ast::Expr::If(cond, then, els) => {
                let cond = self.compile_expr(f, lvars, cond)?;
                let then = self.compile_exprs(f, lvars, then)?;
                let els = match els {
                    Some(els) => self.compile_exprs(f, lvars, els)?,
                    None => {
                        let v: Vec<TypedExpr> = Vec::new();
                        assert(texprs_view(v@) =~= Seq::<STyped>::empty());
                        v
                    },
                };
                Ok((Expr::If(Box::new(cond), then, els), Ty::Unknown))
            },
            ast::Expr::While(cond, body) => {
                let cond = self.compile_expr(f, lvars, cond)?;
                let body = self.compile_exprs(f, lvars, body)?;
                Ok((Expr::While(Box::new(cond), body), Ty::Unknown))
            },
            ast::Expr::Alloc(name) => {
                proof {
                    lemma_name_set_push(lvars@, *name);
                }
                lvars.push(name.clone());
                Ok((Expr::Alloc(name.clone()), Ty::Unknown))
            },
            ast::Expr::Assign(name, rhs) => {
                let rhs = self.compile_expr(f, lvars, rhs)?;
                Ok((Expr::Assign(name.clone(), Box::new(rhs)), Ty::Unknown))
            },
            ast::Expr::Return(v) => {
                let e = self.compile_expr(f, lvars, v)?;
                Ok((Expr::Return(Box::new(e)), Ty::Unknown))
            },
            ast::Expr::Yield(v) => {
                let e = self.compile_expr(f, lvars, v)?;
                Ok((Expr::Yield(Box::new(e)), Ty::Unknown))
            },
            ast::Expr::Para(_) => Err(Error::new("para is not supported")),
        }
    }

    fn compile_exprs(&self, f: &ast::Function, lvars: &mut Vec<String>, xs: &Vec<ast::Expr>) -> (r:
        Result<Vec<TypedExpr>, Error>)
        ensures
            match spec_create_exprs(name_set(self.func_names@), f@.params, name_set(old(lvars)@), ast::exprs_view(xs@)) {
                Some((es, lv)) => r is Ok && texprs_view(r->Ok_0@) == es && name_set(final(lvars)@) == lv,
                None => r is Err,
            },
        decreases xs,
    {
        let ghost fnames = name_set(self.func_names@);
        let ghost ps = f@.params;
        let ghost lv0 = name_set(lvars@);
        let mut es: Vec<TypedExpr> = Vec::new();
        let mut i: usize = 0;
        assert(ast::exprs_view(xs@.take(0)) =~= Seq::<ast::SpecExpr>::empty());
        assert(texprs_view(es@) =~= Seq::<STyped>::empty());
        while i < xs.len()
            invariant
                i <= xs.len(),
                fnames == name_set(self.func_names@),
                ps == f@.params,
                lv0 == name_set(old(lvars)@),
                spec_create_exprs(fnames, ps, lv0, ast::exprs_view(xs@.take(i as int)))
                    == Some((texprs_view(es@), name_set(lvars@))),
            decreases xs.len() - i,
        {
            assert(decreases_to!(xs => xs@[i as int]));
            let ghost prefix = xs@.take(i as int);
            assert(xs@.take(i + 1) =~= prefix.push(xs@[i as int]));
            assert(ast::exprs_view(xs@.take(i + 1)).drop_last() =~= ast::exprs_view(prefix));
            let ghost lv_before = name_set(lvars@);
            assert(ast::exprs_view(xs@.take(i + 1)) == ast::exprs_view(prefix).push(xs@[i as int]@));
            match self.compile_expr(f, lvars, &xs[i]) {
                Ok(e) => {
                    proof {
                        lemma_texprs_view_push(es@, e);
                    }
                    es.push(e);
                },
                Err(err) => {
                    proof {
                        assert(spec_create_exprs(fnames, ps, lv0, ast::exprs_view(xs@.take(i + 1))) is None);
                        assert(ast::exprs_view(xs@).take(i + 1) =~= ast::exprs_view(xs@.take(i + 1)));
                        lemma_create_exprs_prefix_err(fnames, ps, lv0, ast::exprs_view(xs@), i as int + 1);
                    }
                    return Err(err);
                },
            }
            i += 1;
        }
        assert(xs@.take(xs.len() as int) =~= xs@);
        Ok(es)
    }

    fn compile_func(&self, f: &ast::Function) -> (r: Result<hir::Function, Error>)
        ensures
            result_is(r, spec_create_func(name_set(self.func_names@), f@)),
    {
        let params = compile_params(&f.params)?;
        let ret_ty = compile_ty(&f.ret_ty)?;
        let mut lvars: Vec<String> = Vec::new();
        proof {
            lemma_name_set_empty();
        }
        let body_stmts = self.compile_exprs(f, &mut lvars, &f.body_stmts)?;
        Ok(hir::Function {
            generated: false,
            asyncness: Asyncness::Unknown,
            name: f.name.clone(),
            params,
            ret_ty,
            body_stmts,
        })
    }
}

proof fn lemma_create_exprs_prefix_err(
    fnames: Set<Seq<char>>,
    ps: Seq<ast::SpecParam>,
    lv: Set<Seq<char>>,
    s: Seq<ast::SpecExpr>,
    n: int,
)
    requires
        0 <= n <= s.len(),
        spec_create_exprs(fnames, ps, lv, s.take(n)) is None,
    ensures
        spec_create_exprs(fnames, ps, lv, s) is None,
    decreases s.len() - n,
{
    if n < s.len() {
        assert(s.take(n + 1).drop_last() =~= s.take(n));
        lemma_create_exprs_prefix_err(fnames, ps, lv, s, n + 1);
    } else {
        assert(s.take(n) =~= s);
    }
}

} // verus!

verus! {

/// The name a declaration declares.
fn declaration_name(d: &ast::Declaration) -> (r: String)
    ensures
        r@ == decl_name(d@),
{
    match d {
        ast::Declaration::Extern(e) => e.name.clone(),
        ast::Declaration::Function(f) => f.name.clone(),
    }
}

proof fn lemma_create_decls_prefix_err(fnames: Set<Seq<char>>, s: Seq<ast::SpecDeclaration>, n: int)
    requires
        0 <= n <= s.len(),
        spec_create_decls(fnames, s.take(n)) is None,
    ensures
        spec_create_decls(fnames, s) is None,
    decreases s.len() - n,
{
    if n < s.len() {
        assert(s.take(n + 1).drop_last() =~= s.take(n));
        lemma_create_decls_prefix_err(fnames, s, n + 1);
    } else {
        assert(s.take(n) =~= s);
    }
}

/// Creates untyped HIR (i.e. every expression has type `Unknown`) from the
/// AST: resolves each variable to a local variable, a parameter or a function,
/// and converts the types. Fails on an unknown variable or type name, and on
/// `para`.
pub fn create(ast: &ast::Program) -> (r: Result<hir::Program, Error>)
    ensures
        result_is(r, spec_create(ast::decls_view(ast@))),
{
    let ghost decls = ast::decls_view(ast@);
    let mut func_names: Vec<String> = Vec::new();
    let mut i: usize = 0;
    while i < ast.len()
        invariant
            i <= ast.len(),
            func_names@.len() == i,
            forall|j: int| 0 <= j < i ==> (#[trigger] func_names@[j])@ == decl_name(ast@[j]@),
        decreases ast.len() - i,
    {
        func_names.push(declaration_name(&ast[i]));
        i += 1;
    }
    assert(name_set(func_names@) =~= spec_func_names(decls)) by {
        assert(func_names@.map_values(|s: String| s@) =~= decls.map_values(
            |d: ast::SpecDeclaration| decl_name(d),
        ));
    }
    let c = Compiler { func_names };
    let ghost fnames = spec_func_names(decls);
    let mut externs: Vec<hir::Extern> = Vec::new();
    let mut funcs: Vec<hir::Function> = Vec::new();
    let mut i: usize = 0;
    assert(ast@.take(0) =~= Seq::<ast::Declaration>::empty());
    assert(ast::decls_view(ast@.take(0)) =~= Seq::<ast::SpecDeclaration>::empty());
    assert(hir::externs_view(externs@) =~= Seq::<SpecExtern>::empty());
    assert(hir::funcs_view(funcs@) =~= Seq::<SpecFunction>::empty());
    while i < ast.len()
        invariant
            i <= ast.len(),
            decls == ast::decls_view(ast@),
            fnames == spec_func_names(decls),
            name_set(c.func_names@) == fnames,
            spec_create_decls(fnames, ast::decls_view(ast@.take(i as int))) == Some(
                SpecProgram { externs: hir::externs_view(externs@), funcs: hir::funcs_view(funcs@) },
            ),
        decreases ast.len() - i,
    {
        let ghost prefix = ast@.take(i as int);
        assert(ast::decls_view(ast@.take(i + 1)) =~= ast::decls_view(prefix).push(ast@[i as int]@));
        assert(ast::decls_view(ast@.take(i + 1)).drop_last() =~= ast::decls_view(prefix));
        match &ast[i] {
            ast::Declaration::Extern(e) => match hir::Extern::from_ast(e) {
                Ok(e2) => {
                    assert(hir::externs_view(externs@.push(e2)) =~= hir::externs_view(externs@).push(e2@));
                    externs.push(e2);
                },
                Err(err) => {
                    proof {
                        assert(ast::decls_view(ast@).take(i + 1) =~= ast::decls_view(ast@.take(i + 1)));
                        lemma_create_decls_prefix_err(fnames, decls, i + 1);
                    }
                    return Err(err);
                },
            },
            ast::Declaration::Function(f) => match c.compile_func(f) {
                Ok(f2) => {
                    assert(hir::funcs_view(funcs@.push(f2)) =~= hir::funcs_view(funcs@).push(f2@));
                    funcs.push(f2);
                },
                Err(err) => {
                    proof {
                        assert(ast::decls_view(ast@).take(i + 1) =~= ast::decls_view(ast@.take(i + 1)));
                        lemma_create_decls_prefix_err(fnames, decls, i + 1);
                    }
                    return Err(err);
                },
            },
        }
        i += 1;
    }
    assert(ast@.take(ast.len() as int) =~= ast@);
    Ok(hir::Program { externs, funcs })
}

} // verus!
