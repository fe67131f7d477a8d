use crate::hir::model::{group_hir_model, ty_view, tys_view, lemma_tys_view_index, lemma_tys_view_push};
use crate::hir::Asyncness;
use vstd::prelude::*;

verus! {

broadcast use {vstd::std_specs::vec::group_vec_axioms, group_hir_model};

/// Types of the high-level intermediate representation.
pub enum Ty {
    /// Used before typecheck
    Unknown,
    /// A unit type. Represented by `i64 0`
    Null,
    /// The type of `return` or assignment. There is no value of this type.
    Void,
    /// Corresponds to `ptr` in llvm
    Any,
    ChiikaEnv,
    RustFuture,
    Int,
    Bool,
    Fun(FunTy),
}

pub struct FunTy {
    pub asyncness: Asyncness,
    pub param_tys: Vec<Ty>,
    pub ret_ty: Box<Ty>,
}

impl Ty {
    /// Returns a copy of this type.
    pub fn clone_ty(&self) -> (r: Ty)
        ensures
            r@ == self@,
        decreases self,
    {
        match self {
            Ty::Unknown => Ty::Unknown,
            Ty::Null => Ty::Null,
            Ty::Void => Ty::Void,
            Ty::Any => Ty::Any,
            Ty::ChiikaEnv => Ty::ChiikaEnv,
            Ty::RustFuture => Ty::RustFuture,
            Ty::Int => Ty::Int,
            Ty::Bool => Ty::Bool,
            Ty::Fun(f) => Ty::Fun(f.clone_fun_ty()),
        }
    }

    /// Structural equality of two types (the `==` of the type).
    pub fn eq_ty(&self, other: &Ty) -> (r: bool)
        ensures
            r == (self@ == other@),
        decreases self,
    {
        match self {
            Ty::Unknown => matches!(other, Ty::Unknown),
            Ty::Null => matches!(other, Ty::Null),
            Ty::Void => matches!(other, Ty::Void),
            Ty::Any => matches!(other, Ty::Any),
            Ty::ChiikaEnv => matches!(other, Ty::ChiikaEnv),
            Ty::RustFuture => matches!(other, Ty::RustFuture),
            Ty::Int => matches!(other, Ty::Int),
            Ty::Bool => matches!(other, Ty::Bool),
            Ty::Fun(f) => match other {
                Ty::Fun(g) => f.eq_fun_ty(g),
                _ => false,
            },
        }
    }
}

/// Copies a list of types.
pub fn clone_tys(v: &Vec<Ty>) -> (r: Vec<Ty>)
    ensures
        tys_view(r@) == tys_view(v@),
    decreases v,
{
    let mut out: Vec<Ty> = Vec::new();
    let mut i: usize = 0;
    while i < v.len()
        invariant
            i <= v.len(),
            tys_view(out@) == tys_view(v@.take(i as int)),
        decreases v.len() - i,
    {
        assert(decreases_to!(v => v@[i as int]));
        let t = v[i].clone_ty();
        proof {
            lemma_tys_view_push(out@, t);
            assert(v@.take(i + 1) =~= v@.take(i as int).push(v@[i as int]));
            lemma_tys_view_push(v@.take(i as int), v@[i as int]);
        }
        out.push(t);
        i += 1;
    }
    assert(v@.take(v.len() as int) =~= v@);
    out
}

/// Structural equality of two lists of types.
pub fn eq_tys(a: &Vec<Ty>, b: &Vec<Ty>) -> (r: bool)
    ensures
        r == (tys_view(a@) == tys_view(b@)),
    decreases a,
{
    if a.len() != b.len() {
        assert(tys_view(a@).len() != tys_view(b@).len());
        return false;
    }
    let mut i: usize = 0;
    while i < a.len()
        invariant
            i <= a.len(),
            a.len() == b.len(),
            forall|j: int| 0 <= j < i ==> ty_view(#[trigger] a@[j]) == ty_view(b@[j]),
        decreases a.len() - i,
    {
        assert(decreases_to!(a => a@[i as int]));
        if !a[i].eq_ty(&b[i]) {
            proof {
                lemma_tys_view_index(a@, i as int);
                lemma_tys_view_index(b@, i as int);
            }
            return false;
        }
        i += 1;
    }
    assert(tys_view(a@) =~= tys_view(b@));
    true
}

impl FunTy {
    /// Returns a copy of this function type.
    pub fn clone_fun_ty(&self) -> (r: FunTy)
        ensures
            r@ == self@,
        decreases self,
    {
        FunTy {
            asyncness: self.asyncness,
            param_tys: clone_tys(&self.param_tys),
            ret_ty: Box::new(self.ret_ty.clone_ty()),
        }
    }

    /// Structural equality of two function types (the `==` of the type).
    pub fn eq_fun_ty(&self, other: &FunTy) -> (r: bool)
        ensures
            r == (self@ == other@),
        decreases self,
    {
        if self.asyncness != other.asyncness {
            return false;
        }
        if !eq_tys(&self.param_tys, &other.param_tys) {
            return false;
        }
        self.ret_ty.eq_ty(&other.ret_ty)
    }
}

} // verus!
