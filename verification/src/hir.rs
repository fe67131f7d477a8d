//! High-level intermediate representation (HIR) of Milika programs.
pub mod asyncness_check;
pub mod blocked;
pub mod model;
pub mod split;
pub mod text;
pub mod ty;
pub mod typing;
pub mod untyped;
pub mod visitor;

use crate::strings::string_is;
use vstd::prelude::*;

pub use model::{
    asyncness_known, cast_result_ty, is_arith_op, is_comparison_op, op_result_ty, spec_chiika_cont,
    spec_asyncness_from_bool, spec_sig, spec_yielded_ty,
    cast_type_view, expr_view, externs_view, fun_ty_view, funcs_view, params_view, texpr_view,
    texprs_view, ty_view, tys_view, STyped, SpecCastType, SpecExpr, SpecExtern, SpecFunTy,
    SpecFunction, SpecParam, SpecProgram, SpecTy,
};
pub use ty::{FunTy, Ty};

verus! {

/// Whether a function (or a function type) is asynchronous.
#[derive(Debug, Clone, Copy, PartialEq, Eq, Structural)]
pub enum Asyncness {
    Unknown,
    Sync,
    Async,
    Lowered,
}

pub struct Program {
    pub externs: Vec<Extern>,
    pub funcs: Vec<Function>,
}

pub struct Extern {
    pub is_async: bool,
    pub is_internal: bool,
    pub name: String,
    pub params: Vec<Param>,
    pub ret_ty: Ty,
}

pub struct Function {
    pub generated: bool,
    pub asyncness: Asyncness,
    pub name: String,
    pub params: Vec<Param>,
    pub ret_ty: Ty,
    pub body_stmts: Vec<TypedExpr>,
}

pub struct Param {
    pub ty: Ty,
    pub name: String,
}

/// An expression together with its type.
pub type TypedExpr = (Expr, Ty);

pub enum Expr {
    Number(i64),
    PseudoVar(PseudoVar),
    LVarRef(String),
    ArgRef(usize),
    FuncRef(String),
    OpCall(String, Box<TypedExpr>, Box<TypedExpr>),
    FunCall(Box<TypedExpr>, Vec<TypedExpr>),
    If(Box<TypedExpr>, Vec<TypedExpr>, Vec<TypedExpr>),
    Yield(Box<TypedExpr>),
    While(Box<TypedExpr>, Vec<TypedExpr>),
    Alloc(String),
    Assign(String, Box<TypedExpr>),
    Return(Box<TypedExpr>),
    Cast(CastType, Box<TypedExpr>),
    /// Appears after `lower_async_if`
    CondReturn(Box<TypedExpr>, Box<TypedExpr>, Vec<TypedExpr>, Box<TypedExpr>, Vec<TypedExpr>),
    /// Appears after `lower_if`
    Br(Box<TypedExpr>, usize),
    CondBr(Box<TypedExpr>, usize, usize),
    BlockArgRef,
}

#[derive(Debug, Clone, Copy, PartialEq, Eq, Structural)]
pub enum PseudoVar {
    True,
    False,
    Null,
}

pub enum CastType {
    AnyToFun(FunTy),
    AnyToInt,
    NullToAny,
    IntToAny,
    FunToAny,
}

} // verus!

verus! {

broadcast use {vstd::std_specs::vec::group_vec_axioms, model::group_hir_model};

impl From<bool> for Asyncness {
    fn from(x: bool) -> (r: Asyncness) {
        if x {
            Asyncness::Async
        } else {
            Asyncness::Sync
        }
    }
}

impl vstd::std_specs::convert::FromSpecImpl<bool> for Asyncness {
    open spec fn obeys_from_spec() -> bool {
        true
    }

    open spec fn from_spec(x: bool) -> Asyncness {
        spec_asyncness_from_bool(x)
    }
}

impl Asyncness {
    /// Whether this asyncness is `Async`; it must be known (`Sync` or `Async`).
    pub fn is_async(&self) -> (r: bool)
        requires
            asyncness_known(*self),
        ensures
            r == (*self == Asyncness::Async),
    {
        match self {
            Asyncness::Async => true,
            _ => false,
        }
    }
}

/// Is `op` one of `+ - * /`?
pub fn is_arith_op_string(op: &String) -> (r: bool)
    ensures
        r == is_arith_op(op@),
{
    proof {
        reveal_strlit("+");
        reveal_strlit("-");
        reveal_strlit("*");
        reveal_strlit("/");
        assert("+"@ =~= seq!['+']);
        assert("-"@ =~= seq!['-']);
        assert("*"@ =~= seq!['*']);
        assert("/"@ =~= seq!['/']);
    }
    string_is(op, "+") || string_is(op, "-") || string_is(op, "*") || string_is(op, "/")
}

/// Is `op` one of `< <= > >= == !=`?
pub fn is_comparison_op_string(op: &String) -> (r: bool)
    ensures
        r == is_comparison_op(op@),
{
    proof {
        reveal_strlit("<");
        reveal_strlit("<=");
        reveal_strlit(">");
        reveal_strlit(">=");
        reveal_strlit("==");
        reveal_strlit("!=");
        assert("<"@ =~= seq!['<']);
        assert("<="@ =~= seq!['<', '=']);
        assert(">"@ =~= seq!['>']);
        assert(">="@ =~= seq!['>', '=']);
        assert("=="@ =~= seq!['=', '=']);
        assert("!="@ =~= seq!['!', '=']);
    }
    string_is(op, "<") || string_is(op, "<=") || string_is(op, ">") || string_is(op, ">=")
        || string_is(op, "==") || string_is(op, "!=")
}

impl Ty {
    /// The type of continuations: `(ChiikaEnv, Any) -> RustFuture`.
    pub fn chiika_cont() -> (r: Ty)
        ensures
            r@ == spec_chiika_cont(),
    {
        let mut param_tys: Vec<Ty> = Vec::new();
        param_tys.push(Ty::ChiikaEnv);
        param_tys.push(Ty::Any);
        assert(tys_view(param_tys@) =~= seq![SpecTy::ChiikaEnv, SpecTy::Any]) by {
            assert(param_tys@ =~= seq![Ty::ChiikaEnv].push(Ty::Any));
            assert(seq![Ty::ChiikaEnv] =~= Seq::<Ty>::empty().push(Ty::ChiikaEnv));
        }
        let f = FunTy {
            asyncness: Asyncness::Lowered,
            param_tys,
            ret_ty: Box::new(Ty::RustFuture),
        };
        assert(ty_view(*f.ret_ty) == SpecTy::RustFuture);
        assert(f@.param_tys == seq![SpecTy::ChiikaEnv, SpecTy::Any]);
        let r = Ty::Fun(f);
        assert(r@ == SpecTy::Fun(f@));
        r
    }

    /// The function type this type stands for; it must be a function type.
    pub fn as_fun_ty(&self) -> (r: &FunTy)
        requires
            self@ is Fun,
        ensures
            SpecTy::Fun(r@) == self@,
    {
        match self {
            Ty::Fun(f) => f,
            _ => vstd::pervasive::unreached(),
        }
    }

    /// The function type this type stands for; it must be a function type.
    pub fn into_fun_ty(self) -> (r: FunTy)
        requires
            self@ is Fun,
        ensures
            SpecTy::Fun(r@) == self@,
    {
        match self {
            Ty::Fun(f) => f,
            _ => vstd::pervasive::unreached(),
        }
    }

    /// Whether this function type is asynchronous; its asyncness must be known.
    pub fn is_async_fun(&self) -> (r: bool)
        requires
            self@ is Fun,
            asyncness_known(self@->Fun_0.asyncness),
        ensures
            r == (self@->Fun_0.asyncness == Asyncness::Async),
    {
        self.as_fun_ty().asyncness.is_async()
    }
}

impl From<FunTy> for Ty {
    fn from(x: FunTy) -> (r: Ty) {
        Ty::Fun(x)
    }
}

impl vstd::std_specs::convert::FromSpecImpl<FunTy> for Ty {
    open spec fn obeys_from_spec() -> bool {
        true
    }

    open spec fn from_spec(x: FunTy) -> Ty {
        Ty::Fun(x)
    }
}

impl FunTy {
    /// Returns true if the two function types are the same except for asyncness.
    pub fn same(&self, other: &Self) -> (r: bool)
        ensures
            r == (self@.param_tys == other@.param_tys && self@.ret_ty == other@.ret_ty),
    {
        crate::hir::ty::eq_tys(&self.param_tys, &other.param_tys) && self.ret_ty.eq_ty(&other.ret_ty)
    }
}

impl CastType {
    /// The type of the value a cast produces.
    pub fn result_ty(&self) -> (r: Ty)
        ensures
            r@ == cast_result_ty(self@),
    {
        match self {
            CastType::AnyToFun(x) => Ty::Fun(x.clone_fun_ty()),
            CastType::AnyToInt => Ty::Int,
            CastType::NullToAny | CastType::IntToAny | CastType::FunToAny => Ty::Any,
        }
    }

    /// Returns a copy of this cast type.
    pub fn clone_cast_type(&self) -> (r: CastType)
        ensures
            r@ == self@,
    {
        match self {
            CastType::AnyToFun(x) => CastType::AnyToFun(x.clone_fun_ty()),
            CastType::AnyToInt => CastType::AnyToInt,
            CastType::NullToAny => CastType::NullToAny,
            CastType::IntToAny => CastType::IntToAny,
            CastType::FunToAny => CastType::FunToAny,
        }
    }
}

impl Param {
    pub fn new(ty: Ty, name: String) -> (r: Param)
        ensures
            r@ == (SpecParam { ty: ty@, name: name@ }),
    {
        Param { ty, name }
    }

    /// Returns a copy of this parameter.
    pub fn clone_param(&self) -> (r: Param)
        ensures
            r@ == self@,
    {
        Param { ty: self.ty.clone_ty(), name: self.name.clone() }
    }
}

/// Copies a list of parameters.
pub fn clone_params(v: &Vec<Param>) -> (r: Vec<Param>)
    ensures
        params_view(r@) == params_view(v@),
{
    let mut out: Vec<Param> = Vec::new();
    let mut i: usize = 0;
    while i < v.len()
        invariant
            i <= v.len(),
            out@.len() == i,
            forall|j: int| 0 <= j < i ==> (#[trigger] out@[j])@ == v@[j]@,
        decreases v.len() - i,
    {
        out.push(v[i].clone_param());
        i += 1;
    }
    assert(params_view(out@) =~= params_view(v@));
    out
}

/// The types of a list of parameters.
pub fn param_tys(params: &Vec<Param>) -> (r: Vec<Ty>)
    ensures
        tys_view(r@) == params_view(params@).map_values(|p: SpecParam| p.ty),
{
    let mut out: Vec<Ty> = Vec::new();
    let mut i: usize = 0;
    while i < params.len()
        invariant
            i <= params.len(),
            tys_view(out@) =~= params_view(params@.take(i as int)).map_values(|p: SpecParam| p.ty),
        decreases params.len() - i,
    {
        let t = params[i].ty.clone_ty();
        proof {
            model::lemma_tys_view_push(out@, t);
            assert(params@.take(i + 1) =~= params@.take(i as int).push(params@[i as int]));
        }
        out.push(t);
        i += 1;
    }
    assert(params@.take(params.len() as int) =~= params@);
    out
}

impl Extern {
    /// The signature of this external function.
    pub fn fun_ty(&self) -> (r: FunTy)
        ensures
            r@ == spec_sig(spec_asyncness_from_bool(self.is_async), self@.params, self@.ret_ty),
    {
        FunTy {
            asyncness: Asyncness::from(self.is_async),
            param_tys: param_tys(&self.params),
            ret_ty: Box::new(self.ret_ty.clone_ty()),
        }
    }
}

impl Function {
    /// The signature of this function.
    pub fn fun_ty(&self) -> (r: FunTy)
        ensures
            r@ == spec_sig(self.asyncness, self@.params, self@.ret_ty),
    {
        FunTy {
            asyncness: self.asyncness,
            param_tys: param_tys(&self.params),
            ret_ty: Box::new(self.ret_ty.clone_ty()),
        }
    }
}

} // verus!

verus! {

impl Expr {
    pub fn number(n: i64) -> (r: TypedExpr)
        ensures
            r@ == (SpecExpr::Number(n), SpecTy::Int),
    {
        (Expr::Number(n), Ty::Int)
    }

    pub fn lvar_ref(name: String, ty: Ty) -> (r: TypedExpr)
        ensures
            r@ == (SpecExpr::LVarRef(name@), ty@),
    {
        (Expr::LVarRef(name), ty)
    }

    pub fn arg_ref(idx: usize, ty: Ty) -> (r: TypedExpr)
        ensures
            r@ == (SpecExpr::ArgRef(idx), ty@),
    {
        (Expr::ArgRef(idx), ty)
    }

    pub fn func_ref(name: String, fun_ty: FunTy) -> (r: TypedExpr)
        ensures
            r@ == (SpecExpr::FuncRef(name@), SpecTy::Fun(fun_ty@)),
    {
        (Expr::FuncRef(name), Ty::Fun(fun_ty))
    }

    /// A binary operation; `+ - * /` give an `Int`, comparisons a `Bool`.
    pub fn op_call(op: String, lhs: TypedExpr, rhs: TypedExpr) -> (r: TypedExpr)
        requires
            is_arith_op(op@) || is_comparison_op(op@),
        ensures
            r@ == (SpecExpr::OpCall(op@, Box::new(lhs@), Box::new(rhs@)), op_result_ty(op@)),
    {
        let ty = if is_arith_op_string(&op) {
            Ty::Int
        } else {
            Ty::Bool
        };
        (Expr::OpCall(op, Box::new(lhs), Box::new(rhs)), ty)
    }

    /// A call of `func`, whose type must be a function type; the call has the
    /// function's return type.
    pub fn fun_call(func: TypedExpr, args: Vec<TypedExpr>) -> (r: TypedExpr)
        requires
            func.1@ is Fun,
        ensures
            r@ == (SpecExpr::FunCall(Box::new(func@), texprs_view(args@)), *func.1@->Fun_0.ret_ty),
    {
        let result_ty = func.1.as_fun_ty().ret_ty.clone_ty();
        (Expr::FunCall(Box::new(func), args), result_ty)
    }

    /// An `if`; the condition must be a `Bool` and both clauses must yield the
    /// same type, which is the type of the `if`.
    pub fn if_(cond: TypedExpr, then: Vec<TypedExpr>, else_: Vec<TypedExpr>) -> (r: TypedExpr)
        requires
            cond.1@ == SpecTy::Bool,
            spec_yielded_ty(texprs_view(then@)) is Some,
            spec_yielded_ty(texprs_view(then@)) == spec_yielded_ty(texprs_view(else_@)),
        ensures
            r@ == (
                SpecExpr::If(Box::new(cond@), texprs_view(then@), texprs_view(else_@)),
                spec_yielded_ty(texprs_view(then@))->0,
            ),
    {
        let t1 = yielded_ty(&then);
        (Expr::If(Box::new(cond), then, else_), t1)
    }

    pub fn yield_(expr: TypedExpr) -> (r: TypedExpr)
        ensures
            r@ == (SpecExpr::Yield(Box::new(expr@)), expr.1@),
    {
        let t = expr.1.clone_ty();
        (Expr::Yield(Box::new(expr)), t)
    }

    pub fn yield_null() -> (r: TypedExpr)
        ensures
            r@ == (
                SpecExpr::Yield(Box::new((SpecExpr::PseudoVar(PseudoVar::Null), SpecTy::Null))),
                SpecTy::Null,
            ),
    {
        let null = (Expr::PseudoVar(PseudoVar::Null), Ty::Null);
        assert(null@ == (SpecExpr::PseudoVar(PseudoVar::Null), SpecTy::Null));
        (Expr::Yield(Box::new(null)), Ty::Null)
    }

    /// A `while` loop; the condition must be a `Bool`.
    pub fn while_(cond: TypedExpr, body: Vec<TypedExpr>) -> (r: TypedExpr)
        requires
            cond.1@ == SpecTy::Bool,
        ensures
            r@ == (SpecExpr::While(Box::new(cond@), texprs_view(body@)), SpecTy::Null),
    {
        (Expr::While(Box::new(cond), body), Ty::Null)
    }

    pub fn assign(name: String, e: TypedExpr) -> (r: TypedExpr)
        ensures
            r@ == (SpecExpr::Assign(name@, Box::new(e@)), SpecTy::Void),
    {
        (Expr::Assign(name, Box::new(e)), Ty::Void)
    }

    pub fn return_(e: TypedExpr) -> (r: TypedExpr)
        ensures
            r@ == (SpecExpr::Return(Box::new(e@)), SpecTy::Void),
    {
        (Expr::Return(Box::new(e)), Ty::Void)
    }

    pub fn cast(cast_type: CastType, e: TypedExpr) -> (r: TypedExpr)
        ensures
            r@ == (SpecExpr::Cast(cast_type@, Box::new(e@)), cast_result_ty(cast_type@)),
    {
        let ty = cast_type.result_ty();
        (Expr::Cast(cast_type, Box::new(e)), ty)
    }

    pub fn cond_return(
        cond: TypedExpr,
        fexpr_t: TypedExpr,
        args_t: Vec<TypedExpr>,
        fexpr_f: TypedExpr,
        args_f: Vec<TypedExpr>,
    ) -> (r: TypedExpr)
        ensures
            r@ == (
                SpecExpr::CondReturn(
                    Box::new(cond@),
                    Box::new(fexpr_t@),
                    texprs_view(args_t@),
                    Box::new(fexpr_f@),
                    texprs_view(args_f@),
                ),
                SpecTy::Void,
            ),
    {
        (
            Expr::CondReturn(
                Box::new(cond),
                Box::new(fexpr_t),
                args_t,
                Box::new(fexpr_f),
                args_f,
            ),
            Ty::Void,
        )
    }

    pub fn br(value: TypedExpr, target: usize) -> (r: TypedExpr)
        ensures
            r@ == (SpecExpr::Br(Box::new(value@), target), SpecTy::Void),
    {
        (Expr::Br(Box::new(value), target), Ty::Void)
    }

    pub fn cond_br(cond: TypedExpr, target_t: usize, target_f: usize) -> (r: TypedExpr)
        ensures
            r@ == (SpecExpr::CondBr(Box::new(cond@), target_t, target_f), SpecTy::Void),
    {
        (Expr::CondBr(Box::new(cond), target_t, target_f), Ty::Void)
    }

    pub fn block_arg_ref(ty: Ty) -> (r: TypedExpr)
        ensures
            r@ == (SpecExpr::BlockArgRef, ty@),
    {
        (Expr::BlockArgRef, ty)
    }

    /// Is this a call of an asynchronous function? The callee of a call must
    /// have a function type with known asyncness.
    pub fn is_async_fun_call(&self) -> (r: bool)
        requires
            self@ is FunCall ==> {
                &&& self@->FunCall_0.1 is Fun
                &&& asyncness_known(self@->FunCall_0.1->Fun_0.asyncness)
            },
        ensures
            r == (self@ is FunCall && self@->FunCall_0.1->Fun_0.asyncness == Asyncness::Async),
    {
        match self {
            Expr::FunCall(fexpr, _args) => fexpr.1.is_async_fun(),
            _ => false,
        }
    }
}

/// The type a clause of an `if` yields: the type of the value of its final
/// `yield`, or `Void` when it ends with `return`.
pub fn yielded_ty(stmts: &Vec<TypedExpr>) -> (r: Ty)
    requires
        spec_yielded_ty(texprs_view(stmts@)) is Some,
    ensures
        r@ == spec_yielded_ty(texprs_view(stmts@))->0,
{
    let stmt = &stmts[stmts.len() - 1];
    assert(texprs_view(stmts@)[stmts.len() - 1] == texpr_view(stmts@[stmts.len() - 1]));
    match &stmt.0 {
        Expr::Yield(val) => val.1.clone_ty(),
        Expr::Return(_) => Ty::Void,
        _ => vstd::pervasive::unreached(),
    }
}

} // verus!
