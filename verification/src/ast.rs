//! Abstract syntax tree of Milika programs, as the parser produces it.
use vstd::prelude::*;

verus! {

broadcast use vstd::std_specs::vec::group_vec_axioms;

/// A Milika program: a list of declarations.
pub type Program = Vec<Declaration>;

pub enum Declaration {
    Extern(Extern),
    Function(Function),
}

pub struct Extern {
    /// Denotes the rust-implemented function returns Future
    pub is_async: bool,
    /// Used in prelude.rs
    pub is_internal: bool,
    pub name: String,
    pub params: Vec<Param>,
    pub ret_ty: Ty,
    /// Where the declaration starts in the source, in characters.
    pub offset: usize,
}

pub struct Function {
    pub name: String,
    pub params: Vec<Param>,
    pub ret_ty: Ty,
    pub body_stmts: Vec<Expr>,
    /// Where the declaration starts in the source, in characters.
    pub offset: usize,
}

pub struct Param {
    pub ty: Ty,
    pub name: String,
}

pub enum Ty {
    Raw(String),
    Fun(FunTy),
}

pub struct FunTy {
    pub is_async: bool,
    pub param_tys: Vec<Ty>,
    pub ret_ty: Box<Ty>,
}

pub enum Expr {
    Number(i64),
    VarRef(String),
    OpCall(String, Box<Expr>, Box<Expr>),
    FunCall(Box<Expr>, Vec<Expr>),
    If(Box<Expr>, Vec<Expr>, Option<Vec<Expr>>),
    While(Box<Expr>, Vec<Expr>),
    Alloc(String),
    Assign(String, Box<Expr>),
    Return(Box<Expr>),
    Yield(Box<Expr>),
    Para(Vec<Expr>),
}

/// Model of `Ty`.
pub enum SpecTy {
    Raw(Seq<char>),
    Fun(SpecFunTy),
}

/// Model of `FunTy`.
pub struct SpecFunTy {
    pub is_async: bool,
    pub param_tys: Seq<SpecTy>,
    pub ret_ty: Box<SpecTy>,
}

/// Model of `Param`.
pub struct SpecParam {
    pub ty: SpecTy,
    pub name: Seq<char>,
}

/// Model of `Expr`.
pub enum SpecExpr {
    Number(i64),
    VarRef(Seq<char>),
    OpCall(Seq<char>, Box<SpecExpr>, Box<SpecExpr>),
    FunCall(Box<SpecExpr>, Seq<SpecExpr>),
    If(Box<SpecExpr>, Seq<SpecExpr>, Option<Seq<SpecExpr>>),
    While(Box<SpecExpr>, Seq<SpecExpr>),
    Alloc(Seq<char>),
    Assign(Seq<char>, Box<SpecExpr>),
    Return(Box<SpecExpr>),
    Yield(Box<SpecExpr>),
    Para(Seq<SpecExpr>),
}

/// Model of `Extern`.
pub struct SpecExtern {
    pub is_async: bool,
    pub is_internal: bool,
    pub name: Seq<char>,
    pub params: Seq<SpecParam>,
    pub ret_ty: SpecTy,
    pub offset: int,
}

/// Model of `Function`.
pub struct SpecFunction {
    pub name: Seq<char>,
    pub params: Seq<SpecParam>,
    pub ret_ty: SpecTy,
    pub body_stmts: Seq<SpecExpr>,
    pub offset: int,
}

/// Model of `Declaration`.
pub enum SpecDeclaration {
    Extern(SpecExtern),
    Function(SpecFunction),
}

pub open spec fn ty_view(t: Ty) -> SpecTy
    decreases t,
{
    match t {
        Ty::Raw(s) => SpecTy::Raw(s@),
        Ty::Fun(f) => {
            proof {
                assert(decreases_to!(f.param_tys => f.param_tys@));
            }
            SpecTy::Fun(
                SpecFunTy {
                    is_async: f.is_async,
                    param_tys: tys_view(f.param_tys@),
                    ret_ty: Box::new(ty_view(*f.ret_ty)),
                },
            )
        },
    }
}

pub open spec fn tys_view(s: Seq<Ty>) -> Seq<SpecTy>
    decreases s,
{
    if s.len() == 0 {
        Seq::empty()
    } else {
        tys_view(s.drop_last()).push(ty_view(s.last()))
    }
}

pub open spec fn expr_view(e: Expr) -> SpecExpr
    decreases e,
{
    match e {
        Expr::Number(n) => SpecExpr::Number(n),
        Expr::VarRef(s) => SpecExpr::VarRef(s@),
        Expr::OpCall(op, l, r) => SpecExpr::OpCall(
            op@,
            Box::new(expr_view(*l)),
            Box::new(expr_view(*r)),
        ),
        Expr::FunCall(f, args) => {
            proof {
                assert(decreases_to!(args => args@));
            }
            SpecExpr::FunCall(Box::new(expr_view(*f)), exprs_view(args@))
        },
        Expr::If(c, t, f) => {
            proof {
                assert(decreases_to!(t => t@));
            }
            SpecExpr::If(
                Box::new(expr_view(*c)),
                exprs_view(t@),
                match f {
                    Some(v) => {
                        proof {
                            assert(decreases_to!(v => v@));
                        }
                        Some(exprs_view(v@))
                    },
                    None => None,
                },
            )
        },
        Expr::While(c, b) => {
            proof {
                assert(decreases_to!(b => b@));
            }
            SpecExpr::While(Box::new(expr_view(*c)), exprs_view(b@))
        },
        Expr::Alloc(s) => SpecExpr::Alloc(s@),
        Expr::Assign(s, v) => SpecExpr::Assign(s@, Box::new(expr_view(*v))),
        Expr::Return(v) => SpecExpr::Return(Box::new(expr_view(*v))),
        Expr::Yield(v) => SpecExpr::Yield(Box::new(expr_view(*v))),
        Expr::Para(b) => {
            proof {
                assert(decreases_to!(b => b@));
            }
            SpecExpr::Para(exprs_view(b@))
        },
    }
}

pub open spec fn exprs_view(s: Seq<Expr>) -> Seq<SpecExpr>
    decreases s,
{
    if s.len() == 0 {
        Seq::empty()
    } else {
        exprs_view(s.drop_last()).push(expr_view(s.last()))
    }
}

impl View for Ty {
    type V = SpecTy;

    open spec fn view(&self) -> SpecTy {
        ty_view(*self)
    }
}

impl View for Expr {
    type V = SpecExpr;

    open spec fn view(&self) -> SpecExpr {
        expr_view(*self)
    }
}

impl View for Param {
    type V = SpecParam;

    open spec fn view(&self) -> SpecParam {
        SpecParam { ty: self.ty@, name: self.name@ }
    }
}

pub open spec fn params_view(s: Seq<Param>) -> Seq<SpecParam> {
    s.map_values(|p: Param| p@)
}

impl View for Extern {
    type V = SpecExtern;

    open spec fn view(&self) -> SpecExtern {
        SpecExtern {
            is_async: self.is_async,
            is_internal: self.is_internal,
            name: self.name@,
            params: params_view(self.params@),
            ret_ty: self.ret_ty@,
            offset: self.offset as int,
        }
    }
}

impl View for Function {
    type V = SpecFunction;

    open spec fn view(&self) -> SpecFunction {
        SpecFunction {
            name: self.name@,
            params: params_view(self.params@),
            ret_ty: self.ret_ty@,
            body_stmts: exprs_view(self.body_stmts@),
            offset: self.offset as int,
        }
    }
}

impl View for Declaration {
    type V = SpecDeclaration;

    open spec fn view(&self) -> SpecDeclaration {
        match self {
            Declaration::Extern(e) => SpecDeclaration::Extern(e@),
            Declaration::Function(f) => SpecDeclaration::Function(f@),
        }
    }
}

pub open spec fn decls_view(s: Seq<Declaration>) -> Seq<SpecDeclaration> {
    s.map_values(|d: Declaration| d@)
}

pub broadcast proof fn lemma_tys_view_len(s: Seq<Ty>)
    ensures
        #[trigger] tys_view(s).len() == s.len(),
    decreases s.len(),
{
    if s.len() > 0 {
        lemma_tys_view_len(s.drop_last());
    }
}

pub broadcast proof fn lemma_tys_view_index(s: Seq<Ty>, i: int)
    requires
        0 <= i < s.len(),
    ensures
        #[trigger] tys_view(s)[i] == ty_view(s[i]),
    decreases s.len(),
{
    lemma_tys_view_len(s.drop_last());
    if i < s.len() - 1 {
        lemma_tys_view_index(s.drop_last(), i);
    }
}

pub broadcast proof fn lemma_tys_view_push(s: Seq<Ty>, t: Ty)
    ensures
        #[trigger] tys_view(s.push(t)) == tys_view(s).push(ty_view(t)),
{
    assert(s.push(t).drop_last() =~= s);
}

pub broadcast proof fn lemma_exprs_view_len(s: Seq<Expr>)
    ensures
        #[trigger] exprs_view(s).len() == s.len(),
    decreases s.len(),
{
    if s.len() > 0 {
        lemma_exprs_view_len(s.drop_last());
    }
}

pub broadcast proof fn lemma_exprs_view_index(s: Seq<Expr>, i: int)
    requires
        0 <= i < s.len(),
    ensures
        #[trigger] exprs_view(s)[i] == expr_view(s[i]),
    decreases s.len(),
{
    lemma_exprs_view_len(s.drop_last());
    if i < s.len() - 1 {
        lemma_exprs_view_index(s.drop_last(), i);
    }
}

pub broadcast proof fn lemma_exprs_view_push(s: Seq<Expr>, t: Expr)
    ensures
        #[trigger] exprs_view(s.push(t)) == exprs_view(s).push(expr_view(t)),
{
    assert(s.push(t).drop_last() =~= s);
}

pub broadcast group group_ast_model {
    lemma_tys_view_len,
    lemma_tys_view_index,
    lemma_tys_view_push,
    lemma_exprs_view_len,
    lemma_exprs_view_index,
    lemma_exprs_view_push,
}

impl Ty {
    /// Returns a copy of this type.
    pub fn clone_ty(&self) -> (r: Ty)
        ensures
            r@ == self@,
        decreases self,
    {
        match self {
            Ty::Raw(name) => Ty::Raw(name.clone()),
            Ty::Fun(f) => {
                let r = Ty::Fun(
                    FunTy {
                        is_async: f.is_async,
                        param_tys: clone_tys(&f.param_tys),
                        ret_ty: Box::new(f.ret_ty.clone_ty()),
                    },
                );
                r
            },
        }
    }
}

/// Copies a list of types.
pub fn clone_tys(v: &Vec<Ty>) -> (r: Vec<Ty>)
    ensures
        tys_view(r@) == tys_view(v@),
    decreases v,
{
    broadcast use group_ast_model;

    let mut out: Vec<Ty> = Vec::new();
    let mut i: usize = 0;
    while i < v.len()
        invariant
            i <= v.len(),
            tys_view(out@) == tys_view(v@.take(i as int)),
        decreases v.len() - i,
    {
        assert(decreases_to!(v => v@[i as int]));
        let t = v[i].clone_ty();
        proof {
            lemma_tys_view_push(out@, t);
            assert(v@.take(i + 1) =~= v@.take(i as int).push(v@[i as int]));
            lemma_tys_view_push(v@.take(i as int), v@[i as int]);
        }
        out.push(t);
        i += 1;
    }
    assert(v@.take(v.len() as int) =~= v@);
    out
}

/// The types of the parameters, in order.
pub fn param_tys(params: &Vec<Param>) -> (r: Vec<Ty>)
    ensures
        tys_view(r@) == params_view(params@).map_values(|p: SpecParam| p.ty),
{
    broadcast use group_ast_model;

    let ghost want = params_view(params@).map_values(|p: SpecParam| p.ty);
    let mut out: Vec<Ty> = Vec::new();
    let mut i: usize = 0;
    while i < params.len()
        invariant
            i <= params.len(),
            want == params_view(params@).map_values(|p: SpecParam| p.ty),
            tys_view(out@) == want.take(i as int),
        decreases params.len() - i,
    {
        let t = params[i].ty.clone_ty();
        assert(want.take(i + 1) =~= want.take(i as int).push(params@[i as int].ty@));
        proof {
            lemma_tys_view_push(out@, t);
        }
        out.push(t);
        i += 1;
    }
    assert(want.take(params.len() as int) =~= want);
    out
}

impl Function {
    /// The type of this function, which is async when `is_async` holds.
    pub fn fun_ty(&self, is_async: bool) -> (r: FunTy)
        ensures
            r.is_async == is_async,
            tys_view(r.param_tys@) == self@.params.map_values(|p: SpecParam| p.ty),
            r.ret_ty@ == self@.ret_ty,
    {
        FunTy { is_async, param_tys: param_tys(&self.params), ret_ty: Box::new(self.ret_ty.clone_ty()) }
    }
}

impl Extern {
    /// The type of this external function.
    pub fn fun_ty(&self) -> (r: FunTy)
        ensures
            r.is_async == self.is_async,
            tys_view(r.param_tys@) == self@.params.map_values(|p: SpecParam| p.ty),
            r.ret_ty@ == self@.ret_ty,
    {
        FunTy { is_async: self.is_async, param_tys: param_tys(&self.params), ret_ty: Box::new(self.ret_ty.clone_ty()) }
    }
}

} // verus!
