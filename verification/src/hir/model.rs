//! Mathematical models (views) of the HIR data types.
use crate::hir::{Asyncness, CastType, Expr, Extern, FunTy, Function, Param, Program, PseudoVar, Ty, TypedExpr};
use vstd::prelude::*;

verus! {

broadcast use vstd::std_specs::vec::group_vec_axioms;

/// Model of `Ty`.
pub enum SpecTy {
    Unknown,
    Null,
    Void,
    Any,
    ChiikaEnv,
    RustFuture,
    Int,
    Bool,
    Fun(SpecFunTy),
}

/// Model of `FunTy`.
pub struct SpecFunTy {
    pub asyncness: Asyncness,
    pub param_tys: Seq<SpecTy>,
    pub ret_ty: Box<SpecTy>,
}

/// Model of `Param`.
pub struct SpecParam {
    pub ty: SpecTy,
    pub name: Seq<char>,
}

/// Model of `CastType`.
pub enum SpecCastType {
    AnyToFun(SpecFunTy),
    AnyToInt,
    NullToAny,
    IntToAny,
    FunToAny,
}

/// Model of `TypedExpr`.
pub type STyped = (SpecExpr, SpecTy);

/// Model of `Expr`.
pub enum SpecExpr {
    Number(i64),
    PseudoVar(PseudoVar),
    LVarRef(Seq<char>),
    ArgRef(usize),
    FuncRef(Seq<char>),
    OpCall(Seq<char>, Box<STyped>, Box<STyped>),
    FunCall(Box<STyped>, Seq<STyped>),
    If(Box<STyped>, Seq<STyped>, Seq<STyped>),
    Yield(Box<STyped>),
    While(Box<STyped>, Seq<STyped>),
    Alloc(Seq<char>),
    Assign(Seq<char>, Box<STyped>),
    Return(Box<STyped>),
    Cast(SpecCastType, Box<STyped>),
    CondReturn(Box<STyped>, Box<STyped>, Seq<STyped>, Box<STyped>, Seq<STyped>),
    Br(Box<STyped>, usize),
    CondBr(Box<STyped>, usize, usize),
    BlockArgRef,
}

/// Model of `Extern`.
pub struct SpecExtern {
    pub is_async: bool,
    pub is_internal: bool,
    pub name: Seq<char>,
    pub params: Seq<SpecParam>,
    pub ret_ty: SpecTy,
}

/// Model of `Function`.
pub struct SpecFunction {
    pub generated: bool,
    pub asyncness: Asyncness,
    pub name: Seq<char>,
    pub params: Seq<SpecParam>,
    pub ret_ty: SpecTy,
    pub body_stmts: Seq<STyped>,
}

/// Model of `Program`.
pub struct SpecProgram {
    pub externs: Seq<SpecExtern>,
    pub funcs: Seq<SpecFunction>,
}

pub open spec fn ty_view(t: Ty) -> SpecTy
    decreases t,
{
    match t {
        Ty::Unknown => SpecTy::Unknown,
        Ty::Null => SpecTy::Null,
        Ty::Void => SpecTy::Void,
        Ty::Any => SpecTy::Any,
        Ty::ChiikaEnv => SpecTy::ChiikaEnv,
        Ty::RustFuture => SpecTy::RustFuture,
        Ty::Int => SpecTy::Int,
        Ty::Bool => SpecTy::Bool,
        Ty::Fun(f) => SpecTy::Fun(fun_ty_view(f)),
    }
}

pub open spec fn fun_ty_view(f: FunTy) -> SpecFunTy
    decreases f,
{
    proof {
        assert(decreases_to!(f.param_tys => f.param_tys@));
    }
    SpecFunTy {
        asyncness: f.asyncness,
        param_tys: tys_view(f.param_tys@),
        ret_ty: Box::new(ty_view(*f.ret_ty)),
    }
}

pub open spec fn tys_view(s: Seq<Ty>) -> Seq<SpecTy>
    decreases s,
{
    if s.len() == 0 {
        Seq::empty()
    } else {
        tys_view(s.drop_last()).push(ty_view(s.last()))
    }
}

impl View for Ty {
    type V = SpecTy;

    open spec fn view(&self) -> SpecTy {
        ty_view(*self)
    }
}

impl View for FunTy {
    type V = SpecFunTy;

    open spec fn view(&self) -> SpecFunTy {
        fun_ty_view(*self)
    }
}

impl View for Param {
    type V = SpecParam;

    open spec fn view(&self) -> SpecParam {
        SpecParam { ty: self.ty@, name: self.name@ }
    }
}

pub open spec fn cast_type_view(c: CastType) -> SpecCastType {
    match c {
        CastType::AnyToFun(f) => SpecCastType::AnyToFun(f@),
        CastType::AnyToInt => SpecCastType::AnyToInt,
        CastType::NullToAny => SpecCastType::NullToAny,
        CastType::IntToAny => SpecCastType::IntToAny,
        CastType::FunToAny => SpecCastType::FunToAny,
    }
}

impl View for CastType {
    type V = SpecCastType;

    open spec fn view(&self) -> SpecCastType {
        cast_type_view(*self)
    }
}


pub open spec fn expr_view(e: Expr) -> SpecExpr
    decreases e,
{
    match e {
        Expr::Number(n) => SpecExpr::Number(n),
        Expr::PseudoVar(p) => SpecExpr::PseudoVar(p),
        Expr::LVarRef(s) => SpecExpr::LVarRef(s@),
        Expr::ArgRef(i) => SpecExpr::ArgRef(i),
        Expr::FuncRef(s) => SpecExpr::FuncRef(s@),
        Expr::OpCall(op, l, r) => SpecExpr::OpCall(
            op@,
            Box::new((expr_view(l.0), ty_view(l.1))),
            Box::new((expr_view(r.0), ty_view(r.1))),
        ),
        Expr::FunCall(f, args) => {
            proof {
                assert(decreases_to!(args => args@));
            }
            SpecExpr::FunCall(Box::new((expr_view(f.0), ty_view(f.1))), texprs_view(args@))
        },
        Expr::If(c, t, f) => {
            proof {
                assert(decreases_to!(t => t@));
                assert(decreases_to!(f => f@));
            }
            SpecExpr::If(Box::new((expr_view(c.0), ty_view(c.1))), texprs_view(t@), texprs_view(f@))
        },
        Expr::Yield(v) => SpecExpr::Yield(Box::new((expr_view(v.0), ty_view(v.1)))),
        Expr::While(c, b) => {
            proof {
                assert(decreases_to!(b => b@));
            }
            SpecExpr::While(Box::new((expr_view(c.0), ty_view(c.1))), texprs_view(b@))
        },
        Expr::Alloc(s) => SpecExpr::Alloc(s@),
        Expr::Assign(s, v) => SpecExpr::Assign(s@, Box::new((expr_view(v.0), ty_view(v.1)))),
        Expr::Return(v) => SpecExpr::Return(Box::new((expr_view(v.0), ty_view(v.1)))),
        Expr::Cast(c, v) => SpecExpr::Cast(c@, Box::new((expr_view(v.0), ty_view(v.1)))),
        Expr::CondReturn(c, ft, at, ff, af) => {
            proof {
                assert(decreases_to!(at => at@));
                assert(decreases_to!(af => af@));
            }
            SpecExpr::CondReturn(
                Box::new((expr_view(c.0), ty_view(c.1))),
                Box::new((expr_view(ft.0), ty_view(ft.1))),
                texprs_view(at@),
                Box::new((expr_view(ff.0), ty_view(ff.1))),
                texprs_view(af@),
            )
        },
        Expr::Br(v, n) => SpecExpr::Br(Box::new((expr_view(v.0), ty_view(v.1))), n),
        Expr::CondBr(c, a, b) => SpecExpr::CondBr(Box::new((expr_view(c.0), ty_view(c.1))), a, b),
        Expr::BlockArgRef => SpecExpr::BlockArgRef,
    }
}

pub open spec fn texprs_view(s: Seq<TypedExpr>) -> Seq<STyped>
    decreases s,
{
    if s.len() == 0 {
        Seq::empty()
    } else {
        texprs_view(s.drop_last()).push((expr_view(s.last().0), ty_view(s.last().1)))
    }
}

/// View of a typed expression.
pub open spec fn texpr_view(t: TypedExpr) -> STyped {
    (expr_view(t.0), ty_view(t.1))
}

impl View for Expr {
    type V = SpecExpr;

    open spec fn view(&self) -> SpecExpr {
        expr_view(*self)
    }
}

pub open spec fn params_view(s: Seq<Param>) -> Seq<SpecParam> {
    s.map_values(|p: Param| p@)
}

impl View for Extern {
    type V = SpecExtern;

    open spec fn view(&self) -> SpecExtern {
        SpecExtern {
            is_async: self.is_async,
            is_internal: self.is_internal,
            name: self.name@,
            params: params_view(self.params@),
            ret_ty: self.ret_ty@,
        }
    }
}

impl View for Function {
    type V = SpecFunction;

    open spec fn view(&self) -> SpecFunction {
        SpecFunction {
            generated: self.generated,
            asyncness: self.asyncness,
            name: self.name@,
            params: params_view(self.params@),
            ret_ty: self.ret_ty@,
            body_stmts: texprs_view(self.body_stmts@),
        }
    }
}

pub open spec fn externs_view(s: Seq<Extern>) -> Seq<SpecExtern> {
    s.map_values(|e: Extern| e@)
}

pub open spec fn funcs_view(s: Seq<Function>) -> Seq<SpecFunction> {
    s.map_values(|f: Function| f@)
}

impl View for Program {
    type V = SpecProgram;

    open spec fn view(&self) -> SpecProgram {
        SpecProgram { externs: externs_view(self.externs@), funcs: funcs_view(self.funcs@) }
    }
}

pub broadcast proof fn lemma_tys_view_len(s: Seq<Ty>)
    ensures
        #[trigger] tys_view(s).len() == s.len(),
    decreases s.len(),
{
    if s.len() > 0 {
        lemma_tys_view_len(s.drop_last());
    }
}

pub broadcast proof fn lemma_tys_view_index(s: Seq<Ty>, i: int)
    requires
        0 <= i < s.len(),
    ensures
        #[trigger] tys_view(s)[i] == ty_view(s[i]),
    decreases s.len(),
{
    lemma_tys_view_len(s.drop_last());
    if i < s.len() - 1 {
        lemma_tys_view_index(s.drop_last(), i);
    }
}

pub broadcast proof fn lemma_tys_view_push(s: Seq<Ty>, t: Ty)
    ensures
        #[trigger] tys_view(s.push(t)) == tys_view(s).push(ty_view(t)),
{
    assert(s.push(t).drop_last() =~= s);
}

pub broadcast proof fn lemma_texprs_view_len(s: Seq<TypedExpr>)
    ensures
        #[trigger] texprs_view(s).len() == s.len(),
    decreases s.len(),
{
    if s.len() > 0 {
        lemma_texprs_view_len(s.drop_last());
    }
}

pub broadcast proof fn lemma_texprs_view_index(s: Seq<TypedExpr>, i: int)
    requires
        0 <= i < s.len(),
    ensures
        #[trigger] texprs_view(s)[i] == texpr_view(s[i]),
    decreases s.len(),
{
    lemma_texprs_view_len(s.drop_last());
    if i < s.len() - 1 {
        lemma_texprs_view_index(s.drop_last(), i);
    }
}

pub broadcast proof fn lemma_texprs_view_push(s: Seq<TypedExpr>, t: TypedExpr)
    ensures
        #[trigger] texprs_view(s.push(t)) == texprs_view(s).push(texpr_view(t)),
{
    assert(s.push(t).drop_last() =~= s);
}

/// The view of a concatenation is the concatenation of the views.
pub proof fn lemma_texprs_view_concat(a: Seq<TypedExpr>, b: Seq<TypedExpr>)
    ensures
        texprs_view(a + b) == texprs_view(a) + texprs_view(b),
{
    lemma_texprs_view_len(a + b);
    lemma_texprs_view_len(a);
    lemma_texprs_view_len(b);
    assert forall|i: int| 0 <= i < (a + b).len() implies texprs_view(a + b)[i] == (texprs_view(a) + texprs_view(b))[i] by {
        lemma_texprs_view_index(a + b, i);
        if i < a.len() {
            lemma_texprs_view_index(a, i);
        } else {
            lemma_texprs_view_index(b, i - a.len());
        }
    }
    assert(texprs_view(a + b) =~= texprs_view(a) + texprs_view(b));
}

pub broadcast group group_hir_model {
    lemma_tys_view_len,
    lemma_tys_view_index,
    lemma_tys_view_push,
    lemma_texprs_view_len,
    lemma_texprs_view_index,
    lemma_texprs_view_push,
}

} // verus!

verus! {

/// The arithmetic operators `+ - * /`.
pub open spec fn is_arith_op(op: Seq<char>) -> bool {
    op == seq!['+'] || op == seq!['-'] || op == seq!['*'] || op == seq!['/']
}

/// The comparison operators `< <= > >= == !=`.
pub open spec fn is_comparison_op(op: Seq<char>) -> bool {
    ||| op == seq!['<']
    ||| op == seq!['<', '=']
    ||| op == seq!['>']
    ||| op == seq!['>', '=']
    ||| op == seq!['=', '=']
    ||| op == seq!['!', '=']
}

/// The type of the result of a binary operator.
pub open spec fn op_result_ty(op: Seq<char>) -> SpecTy {
    if is_arith_op(op) {
        SpecTy::Int
    } else {
        SpecTy::Bool
    }
}

/// The type of the result of a cast.
pub open spec fn cast_result_ty(c: SpecCastType) -> SpecTy {
    match c {
        SpecCastType::AnyToFun(f) => SpecTy::Fun(f),
        SpecCastType::AnyToInt => SpecTy::Int,
        SpecCastType::NullToAny => SpecTy::Any,
        SpecCastType::IntToAny => SpecTy::Any,
        SpecCastType::FunToAny => SpecTy::Any,
    }
}

/// The type a clause of an `if` evaluates to: the type of the value of its
/// final `yield`, or `Void` when it ends with `return`; `None` when the
/// clause is empty or ends otherwise.
pub open spec fn spec_yielded_ty(stmts: Seq<STyped>) -> Option<SpecTy> {
    if stmts.len() == 0 {
        None
    } else {
        match stmts.last().0 {
            SpecExpr::Yield(v) => Some(v.1),
            SpecExpr::Return(_) => Some(SpecTy::Void),
            _ => None,
        }
    }
}

/// The type of the continuation passed to an asynchronous function.
pub open spec fn spec_chiika_cont() -> SpecTy {
    SpecTy::Fun(
        SpecFunTy {
            asyncness: Asyncness::Lowered,
            param_tys: seq![SpecTy::ChiikaEnv, SpecTy::Any],
            ret_ty: Box::new(SpecTy::RustFuture),
        },
    )
}

/// Is `a` a known asyncness (`Sync` or `Async`)?
pub open spec fn asyncness_known(a: Asyncness) -> bool {
    a == Asyncness::Sync || a == Asyncness::Async
}

/// The signature of a function taking `params` and returning `ret_ty`.
pub open spec fn spec_sig(asyncness: Asyncness, params: Seq<SpecParam>, ret_ty: SpecTy) -> SpecFunTy {
    SpecFunTy {
        asyncness,
        param_tys: params.map_values(|p: SpecParam| p.ty),
        ret_ty: Box::new(ret_ty),
    }
}

} // verus!

verus! {

/// `Async` for true, `Sync` for false.
pub open spec fn spec_asyncness_from_bool(x: bool) -> Asyncness {
    if x {
        Asyncness::Async
    } else {
        Asyncness::Sync
    }
}

} // verus!
