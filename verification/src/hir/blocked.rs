//! HIR whose function bodies are lists of basic blocks (after `lower_if`).
use crate::hir::model::{texprs_view, tys_view, STyped, SpecExtern, SpecParam, SpecTy};
use crate::hir::{self, Extern, Param, Ty, TypedExpr};
use vstd::prelude::*;

verus! {

/// A basic block: its parameters' types and its statements.
pub struct Block {
    pub param_tys: Vec<Ty>,
    pub stmts: Vec<TypedExpr>,
}

pub struct Program {
    pub externs: Vec<Extern>,
    pub funcs: Vec<Function>,
}

pub struct Function {
    pub name: String,
    pub params: Vec<Param>,
    pub ret_ty: Ty,
    pub body_blocks: Vec<Block>,
}

/// Model of `Block`.
pub struct SpecBlock {
    pub param_tys: Seq<SpecTy>,
    pub stmts: Seq<STyped>,
}

/// Model of `Function`.
pub struct SpecFunction {
    pub name: Seq<char>,
    pub params: Seq<SpecParam>,
    pub ret_ty: SpecTy,
    pub body_blocks: Seq<SpecBlock>,
}

/// Model of `Program`.
pub struct SpecProgram {
    pub externs: Seq<SpecExtern>,
    pub funcs: Seq<SpecFunction>,
}

impl View for Block {
    type V = SpecBlock;

    open spec fn view(&self) -> SpecBlock {
        SpecBlock { param_tys: tys_view(self.param_tys@), stmts: texprs_view(self.stmts@) }
    }
}

pub open spec fn blocks_view(s: Seq<Block>) -> Seq<SpecBlock> {
    s.map_values(|b: Block| b@)
}

impl View for Function {
    type V = SpecFunction;

    open spec fn view(&self) -> SpecFunction {
        SpecFunction {
            name: self.name@,
            params: hir::params_view(self.params@),
            ret_ty: self.ret_ty@,
            body_blocks: blocks_view(self.body_blocks@),
        }
    }
}

pub open spec fn funcs_view(s: Seq<Function>) -> Seq<SpecFunction> {
    s.map_values(|f: Function| f@)
}

impl View for Program {
    type V = SpecProgram;

    open spec fn view(&self) -> SpecProgram {
        SpecProgram { externs: hir::externs_view(self.externs@), funcs: funcs_view(self.funcs@) }
    }
}

impl Block {
    pub fn new(param_tys: Vec<Ty>, stmts: Vec<TypedExpr>) -> (r: Block)
        ensures
            r@ == (SpecBlock { param_tys: tys_view(param_tys@), stmts: texprs_view(stmts@) }),
    {
        Block { param_tys, stmts }
    }

    pub fn new_empty(param_tys: Vec<Ty>) -> (r: Block)
        ensures
            r@ == (SpecBlock { param_tys: tys_view(param_tys@), stmts: Seq::empty() }),
    {
        let stmts: Vec<TypedExpr> = Vec::new();
        assert(texprs_view(stmts@) =~= Seq::<STyped>::empty());
        Block { param_tys, stmts }
    }
}

} // verus!
