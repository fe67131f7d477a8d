//! How the parser builds the operations of a product and of a sum.
use crate::ast::SpecExpr;
use crate::parser::{additive_ops, multiplicative_ops, sp_add, sp_add_rest, sp_atom, sp_mul, sp_mul_rest, sp_op_between};
use vstd::prelude::*;

verus! {

/// At `p` stand two atoms joined by one of `*` and `/`, and no further
/// operator of a product follows.
pub open spec fn two_atoms_at(s: Seq<char>, p: int) -> bool {
    &&& sp_atom(s, p) is Some
    &&& p <= sp_atom(s, p).unwrap().1 <= s.len()
    &&& sp_op_between(s, sp_atom(s, p).unwrap().1, multiplicative_ops()) is Some
    &&& {
        let q = sp_atom(s, p).unwrap().1;
        let r = sp_op_between(s, q, multiplicative_ops()).unwrap().1;
        &&& q < r <= s.len()
        &&& sp_atom(s, r) is Some
        &&& r < sp_atom(s, r).unwrap().1 <= s.len()
        &&& sp_op_between(s, sp_atom(s, r).unwrap().1, multiplicative_ops()) is None
    }
}

/// At `p` stand two products joined by one of `+` and `-`, and no further
/// operator of a sum follows.
pub open spec fn two_products_at(s: Seq<char>, p: int) -> bool {
    &&& sp_mul(s, p) is Some
    &&& p <= sp_mul(s, p).unwrap().1 <= s.len()
    &&& sp_op_between(s, sp_mul(s, p).unwrap().1, additive_ops()) is Some
    &&& {
        let q = sp_mul(s, p).unwrap().1;
        let r = sp_op_between(s, q, additive_ops()).unwrap().1;
        &&& q < r <= s.len()
        &&& sp_mul(s, r) is Some
        &&& r < sp_mul(s, r).unwrap().1 <= s.len()
        &&& sp_op_between(s, sp_mul(s, r).unwrap().1, additive_ops()) is None
    }
}

/// A product of two atoms, `a op b`, is parsed as the operation `op` with
/// the atom read first as its left operand and the atom read after the
/// operator as its right operand.
pub proof fn law_product_keeps_operand_order(s: Seq<char>, p: int)
    requires
        two_atoms_at(s, p),
    ensures
        ({
            let (a, q) = sp_atom(s, p)->0;
            let (op, r) = sp_op_between(s, q, multiplicative_ops())->0;
            let (b, q2) = sp_atom(s, r)->0;
            sp_mul(s, p) == Some((SpecExpr::OpCall(op, Box::new(a), Box::new(b)), q2))
        }),
{
    let (a, q) = sp_atom(s, p)->0;
    let (op, r) = sp_op_between(s, q, multiplicative_ops())->0;
    let (b, q2) = sp_atom(s, r)->0;
    let acc = SpecExpr::OpCall(op, Box::new(a), Box::new(b));
    assert(sp_mul_rest(s, q2, acc) == Some((acc, q2)));
    assert(sp_mul_rest(s, q, a) == sp_mul_rest(s, q2, acc));
}

/// A sum of two products, `a op b`, is parsed as the operation `op` with
/// the product read first as its left operand and the product read after the
/// operator as its right operand.
pub proof fn law_sum_keeps_operand_order(s: Seq<char>, p: int)
    requires
        two_products_at(s, p),
    ensures
        ({
            let (a, q) = sp_mul(s, p)->0;
            let (op, r) = sp_op_between(s, q, additive_ops())->0;
            let (b, q2) = sp_mul(s, r)->0;
            sp_add(s, p) == Some((SpecExpr::OpCall(op, Box::new(a), Box::new(b)), q2))
        }),
{
    let (a, q) = sp_mul(s, p)->0;
    let (op, r) = sp_op_between(s, q, additive_ops())->0;
    let (b, q2) = sp_mul(s, r)->0;
    let acc = SpecExpr::OpCall(op, Box::new(a), Box::new(b));
    assert(sp_add_rest(s, q2, acc) == Some((acc, q2)));
    assert(sp_add_rest(s, q, a) == sp_add_rest(s, q2, acc));
}

} // verus!
