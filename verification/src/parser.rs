//! The parser: from the characters of a Milika source to its AST.
//!
//! The grammar, in the order the alternatives are tried (`ws` is optional
//! white space, `ws+` is required white space, `#` starts a comment that
//! runs to the end of the line):
//!
//! ```text
//! program  := (comments decl)* comments ws EOF
//! decl     := extern | function
//! extern   := "extern" [ws "(" ws modifier (ws "," ws modifier)* ws ")"] ws+ ident params ws "->" ws ty ws ";"
//! modifier := "async" | "internal"
//! function := "fun" ws+ ident params ws "->" ws ty ws block
//! params   := "(" ws [ty ws+ ident (ws "," ws ty ws+ ident)*] ws ")"
//! ty       := "FN" ws "(" ws "(" ws [ty (ws "," ws ty)*] ws ")" ws "->" ws ty ws ")" | ident
//! block    := "{" (comments stmt)* comments "}"
//! stmt     := ("return" ws+ expr | "yield" ws+ expr | "alloc" ws+ ident | while
//!              | ident ws "=" ws expr | expr) (ws ";" | a `while`, `if` or `para` ends it)
//! while    := "while" ws "(" ws expr ws ")" ws block
//! expr     := add [ws+ ("==" | "!=" | "<=" | ">=" | "<" | ">") ws+ add]
//! add      := mul (ws+ ("+" | "-") ws+ mul)*
//! mul      := atom (ws+ ("*" | "/") ws+ atom)*
//! atom     := "para" ws+ block | "if" ws "(" ws expr ws ")" ws block [ws "else" ws block]
//!           | "(" ws expr ws ")" | ident "(" ws [expr (ws "," ws expr)*] ws ")" | number | ident
//! number   := ["-" | "+"] digit+
//! ident    := (letter | digit | "_")+
//! ```
use crate::ast::{self, Declaration, Expr, Extern, FunTy, Function, Param, Ty};
use vstd::prelude::*;

verus! {

broadcast use {vstd::std_specs::vec::group_vec_axioms, ast::group_ast_model};

pub open spec fn is_space(c: char) -> bool {
    c == ' ' || c == '\t' || c == '\n' || c == '\r'
}

pub open spec fn is_ident_char(c: char) -> bool {
    ('a' <= c && c <= 'z') || ('A' <= c && c <= 'Z') || ('0' <= c && c <= '9') || c == '_'
}

pub open spec fn is_digit(c: char) -> bool {
    '0' <= c && c <= '9'
}

/// Is `c` at position `p`?
pub open spec fn at(s: Seq<char>, p: int, c: char) -> bool {
    0 <= p < s.len() && s[p] == c
}

/// Does `t` start at position `p`?
pub open spec fn tag(s: Seq<char>, p: int, t: Seq<char>) -> bool {
    0 <= p && p + t.len() <= s.len() && s.subrange(p, p + t.len()) == t
}

/// The position after the white space at `p`.
pub open spec fn skip_ws(s: Seq<char>, p: int) -> int
    decreases s.len() - p,
{
    if 0 <= p < s.len() && is_space(s[p]) {
        skip_ws(s, p + 1)
    } else {
        p
    }
}

/// The position after the white space at `p`, of which there must be some.
pub open spec fn ws1(s: Seq<char>, p: int) -> Option<int> {
    if 0 <= p < s.len() && is_space(s[p]) {
        Some(skip_ws(s, p))
    } else {
        None
    }
}

/// The position of the end of the line at `p`.
pub open spec fn line_end(s: Seq<char>, p: int) -> int
    decreases s.len() - p,
{
    if 0 <= p < s.len() && s[p] != '\n' {
        line_end(s, p + 1)
    } else {
        p
    }
}

pub proof fn lemma_skip_ws(s: Seq<char>, p: int)
    ensures
        skip_ws(s, p) >= p,
        0 <= p <= s.len() ==> skip_ws(s, p) <= s.len(),
    decreases s.len() - p,
{
    if 0 <= p < s.len() && is_space(s[p]) {
        lemma_skip_ws(s, p + 1);
    }
}

pub proof fn lemma_line_end(s: Seq<char>, p: int)
    ensures
        line_end(s, p) >= p,
        0 <= p <= s.len() ==> line_end(s, p) <= s.len(),
    decreases s.len() - p,
{
    if 0 <= p < s.len() && s[p] != '\n' {
        lemma_line_end(s, p + 1);
    }
}

/// The position after the white space and the comments at `p`.
pub open spec fn skip_comments(s: Seq<char>, p: int) -> int
    decreases s.len() - p,
{
    let q = skip_ws(s, p);
    if at(s, q, '#') {
        proof {
            lemma_skip_ws(s, p);
            lemma_line_end(s, q + 1);
        }
        skip_comments(s, line_end(s, q + 1))
    } else {
        q
    }
}

/// The position after the identifier characters at `p`.
pub open spec fn ident_end(s: Seq<char>, p: int) -> int
    decreases s.len() - p,
{
    if 0 <= p < s.len() && is_ident_char(s[p]) {
        ident_end(s, p + 1)
    } else {
        p
    }
}

pub proof fn lemma_ident_end(s: Seq<char>, p: int)
    ensures
        ident_end(s, p) >= p,
        0 <= p <= s.len() ==> ident_end(s, p) <= s.len(),
    decreases s.len() - p,
{
    if 0 <= p < s.len() && is_ident_char(s[p]) {
        lemma_ident_end(s, p + 1);
    }
}

/// An identifier: one identifier character or more.
pub open spec fn sp_ident(s: Seq<char>, p: int) -> Option<(Seq<char>, int)> {
    let q = ident_end(s, p);
    if q > p {
        Some((s.subrange(p, q), q))
    } else {
        None
    }
}

/// The position after the keyword `kw` at `p`, if it is there.
pub open spec fn keyword(s: Seq<char>, p: int, kw: Seq<char>) -> Option<int> {
    if tag(s, p, kw) {
        Some(p + kw.len())
    } else {
        None
    }
}

/// The position after the digits at `p`.
pub open spec fn digits_end(s: Seq<char>, p: int) -> int
    decreases s.len() - p,
{
    if 0 <= p < s.len() && is_digit(s[p]) {
        digits_end(s, p + 1)
    } else {
        p
    }
}

/// The value of the decimal digits from `p` to `q`.
pub open spec fn digits_value(s: Seq<char>, p: int, q: int) -> int
    decreases q - p,
{
    if q <= p {
        0
    } else {
        digits_value(s, p, q - 1) * 10 + (s[q - 1] as int - '0' as int)
    }
}

/// `v`, or the nearest bound of `i64` when it is out of range.
pub open spec fn saturate(v: int) -> i64 {
    if v > i64::MAX {
        i64::MAX
    } else if v < i64::MIN {
        i64::MIN
    } else {
        v as i64
    }
}

/// A number: an optional sign and digits; its value saturates at the bounds
/// of `i64`.
pub open spec fn sp_number(s: Seq<char>, p: int) -> Option<(i64, int)> {
    let neg = at(s, p, '-');
    let start = if at(s, p, '-') || at(s, p, '+') {
        p + 1
    } else {
        p
    };
    let end = digits_end(s, start);
    if end > start {
        let v = digits_value(s, start, end);
        Some((saturate(if neg {
            -v
        } else {
            v
        }), end))
    } else {
        None
    }
}

/// A type: a function type or a named type.
pub open spec fn sp_ty(s: Seq<char>, p: int) -> Option<(ast::SpecTy, int)>
    decreases s.len() - p, 2int,
{
    match sp_fun_ty(s, p) {
        Some((f, q)) => Some((ast::SpecTy::Fun(f), q)),
        None => match sp_ident(s, p) {
            Some((name, q)) => Some((ast::SpecTy::Raw(name), q)),
            None => None,
        },
    }
}

/// `FN((params)->ret)`.
pub open spec fn sp_fun_ty(s: Seq<char>, p: int) -> Option<(ast::SpecFunTy, int)>
    decreases s.len() - p, 1int,
{
    if !tag(s, p, seq!['F', 'N']) {
        None
    } else {
        let p1 = skip_ws(s, p + 2);
        if !at(s, p1, '(') {
            None
        } else {
            let p2 = skip_ws(s, p1 + 1);
            if !at(s, p2, '(') {
                None
            } else {
                let p3 = skip_ws(s, p2 + 1);
                proof {
                    lemma_skip_ws(s, p + 2);
                    lemma_skip_ws(s, p1 + 1);
                    lemma_skip_ws(s, p2 + 1);
                }
                match sp_tys(s, p3) {
                    Some((tys, p4)) => {
                        let p5 = skip_ws(s, p4);
                        if !at(s, p5, ')') {
                            None
                        } else {
                            let p6 = skip_ws(s, p5 + 1);
                            if !tag(s, p6, seq!['-', '>']) {
                                None
                            } else {
                                let p7 = skip_ws(s, p6 + 2);
                                proof {
                                    lemma_skip_ws(s, p6 + 2);
                                }
                                if p7 <= p || p7 > s.len() {
                                    None
                                } else {
                                    match sp_ty(s, p7) {
                                        Some((ret, p8)) => {
                                            let p9 = skip_ws(s, p8);
                                            if at(s, p9, ')') {
                                                Some(
                                                    (
                                                        ast::SpecFunTy {
                                                            is_async: false,
                                                            param_tys: tys,
                                                            ret_ty: Box::new(ret),
                                                        },
                                                        p9 + 1,
                                                    ),
                                                )
                                            } else {
                                                None
                                            }
                                        },
                                        None => None,
                                    }
                                }
                            }
                        }
                    },
                    None => None,
                }
            }
        }
    }
}

/// Types separated by `,`; possibly none.
pub open spec fn sp_tys(s: Seq<char>, p: int) -> Option<(Seq<ast::SpecTy>, int)>
    decreases s.len() - p, 4int,
{
    match sp_ty(s, p) {
        Some((t, q)) => if p <= q <= s.len() {
            sp_tys_rest(s, q, seq![t])
        } else {
            None
        },
        None => Some((Seq::empty(), p)),
    }
}

/// More types, each after a `,`.
pub open spec fn sp_tys_rest(s: Seq<char>, p: int, acc: Seq<ast::SpecTy>) -> Option<(Seq<ast::SpecTy>, int)>
    decreases s.len() - p, 3int,
{
    let q = skip_ws(s, p);
    if !at(s, q, ',') {
        Some((acc, p))
    } else {
        let r = skip_ws(s, q + 1);
        proof {
            lemma_skip_ws(s, p);
            lemma_skip_ws(s, q + 1);
        }
        match sp_ty(s, r) {
            Some((t, r2)) => if p < r2 <= s.len() {
                sp_tys_rest(s, r2, acc.push(t))
            } else {
                None
            },
            None => Some((acc, p)),
        }
    }
}

} // verus!

verus! {

/// A binary operator at `p` out of `ops` (each one or two characters),
/// the longest first.
pub open spec fn sp_op(s: Seq<char>, p: int, ops: Seq<Seq<char>>) -> Option<(Seq<char>, int)>
    decreases ops.len(),
{
    if ops.len() == 0 {
        None
    } else if tag(s, p, ops[0]) {
        Some((ops[0], p + ops[0].len()))
    } else {
        sp_op(s, p, ops.drop_first())
    }
}

pub open spec fn comparison_ops() -> Seq<Seq<char>> {
    seq![seq!['=', '='], seq!['!', '='], seq!['<', '='], seq!['>', '='], seq!['<'], seq!['>']]
}

pub open spec fn additive_ops() -> Seq<Seq<char>> {
    seq![seq!['+'], seq!['-']]
}

pub open spec fn multiplicative_ops() -> Seq<Seq<char>> {
    seq![seq!['*'], seq!['/']]
}

/// `ws+ op ws+` at `p`: the operator and the position after it.
pub open spec fn sp_op_between(s: Seq<char>, p: int, ops: Seq<Seq<char>>) -> Option<(Seq<char>, int)> {
    match ws1(s, p) {
        Some(q) => match sp_op(s, q, ops) {
            Some((op, r)) => match ws1(s, r) {
                Some(r2) => Some((op, r2)),
                None => None,
            },
            None => None,
        },
        None => None,
    }
}

/// The statements of a block end with `while`, `if` or `para` need no `;`.
pub open spec fn ends_with_block(e: ast::SpecExpr) -> bool {
    e is While || e is If || e is Para
}

/// An expression: a comparison of two sums, or a sum.
pub open spec fn sp_expr(s: Seq<char>, p: int) -> Option<(ast::SpecExpr, int)>
    decreases s.len() - p, 6int,
{
    match sp_add(s, p) {
        Some((l, q)) => match sp_op_between(s, q, comparison_ops()) {
            Some((op, r)) => if p <= q && q < r <= s.len() {
                match sp_add(s, r) {
                    Some((rr, r2)) => Some((ast::SpecExpr::OpCall(op, Box::new(l), Box::new(rr)), r2)),
                    None => Some((l, q)),
                }
            } else {
                None
            },
            None => Some((l, q)),
        },
        None => None,
    }
}

/// A sum: products joined by `+` and `-`, left to right.
pub open spec fn sp_add(s: Seq<char>, p: int) -> Option<(ast::SpecExpr, int)>
    decreases s.len() - p, 5int,
{
    match sp_mul(s, p) {
        Some((l, q)) => if p <= q <= s.len() {
            sp_add_rest(s, q, l)
        } else {
            None
        },
        None => None,
    }
}

pub open spec fn sp_add_rest(s: Seq<char>, p: int, acc: ast::SpecExpr) -> Option<(ast::SpecExpr, int)>
    decreases s.len() - p, 4int,
{
    match sp_op_between(s, p, additive_ops()) {
        Some((op, q)) => if p < q <= s.len() {
            match sp_mul(s, q) {
                Some((r, q2)) => if q < q2 <= s.len() {
                    sp_add_rest(s, q2, ast::SpecExpr::OpCall(op, Box::new(acc), Box::new(r)))
                } else {
                    None
                },
                None => Some((acc, p)),
            }
        } else {
            None
        },
        None => Some((acc, p)),
    }
}

/// A product: atoms joined by `*` and `/`, left to right.
pub open spec fn sp_mul(s: Seq<char>, p: int) -> Option<(ast::SpecExpr, int)>
    decreases s.len() - p, 3int,
{
    match sp_atom(s, p) {
        Some((l, q)) => if p <= q <= s.len() {
            sp_mul_rest(s, q, l)
        } else {
            None
        },
        None => None,
    }
}

pub open spec fn sp_mul_rest(s: Seq<char>, p: int, acc: ast::SpecExpr) -> Option<(ast::SpecExpr, int)>
    decreases s.len() - p, 2int,
{
    match sp_op_between(s, p, multiplicative_ops()) {
        Some((op, q)) => if p < q <= s.len() {
            match sp_atom(s, q) {
                Some((r, q2)) => if q < q2 <= s.len() {
                    sp_mul_rest(s, q2, ast::SpecExpr::OpCall(op, Box::new(acc), Box::new(r)))
                } else {
                    None
                },
                None => Some((acc, p)),
            }
        } else {
            None
        },
        None => Some((acc, p)),
    }
}

/// `(expr)`, a `para` block, an `if`, a call, a number or a variable.
pub open spec fn sp_atom(s: Seq<char>, p: int) -> Option<(ast::SpecExpr, int)>
    decreases s.len() - p, 1int,
{
    match sp_para(s, p) {
        Some(r) => Some(r),
        None => match sp_if(s, p) {
            Some(r) => Some(r),
            None => match sp_paren(s, p) {
                Some(r) => Some(r),
                None => match sp_funcall(s, p) {
                    Some(r) => Some(r),
                    None => match sp_number(s, p) {
                        Some((n, q)) => Some((ast::SpecExpr::Number(n), q)),
                        None => match sp_ident(s, p) {
                            Some((name, q)) => Some((ast::SpecExpr::VarRef(name), q)),
                            None => None,
                        },
                    },
                },
            },
        },
    }
}

/// `(expr)`.
pub open spec fn sp_paren(s: Seq<char>, p: int) -> Option<(ast::SpecExpr, int)>
    decreases s.len() - p, 0int,
{
    if !at(s, p, '(') {
        None
    } else {
        let q = skip_ws(s, p + 1);
        proof {
            lemma_skip_ws(s, p + 1);
        }
        match sp_expr(s, q) {
            Some((e, r)) => {
                let r2 = skip_ws(s, r);
                if at(s, r2, ')') {
                    Some((e, r2 + 1))
                } else {
                    None
                }
            },
            None => None,
        }
    }
}

/// `para ws+ block`.
pub open spec fn sp_para(s: Seq<char>, p: int) -> Option<(ast::SpecExpr, int)>
    decreases s.len() - p, 0int,
{
    match keyword(s, p, seq!['p', 'a', 'r', 'a']) {
        Some(q) => match ws1(s, q) {
            Some(r) => {
                proof {
                    lemma_skip_ws(s, q);
                }
                match sp_block(s, r) {
                    Some((b, r2)) => Some((ast::SpecExpr::Para(b), r2)),
                    None => None,
                }
            },
            None => None,
        },
        None => None,
    }
}

/// `if (cond) block [else block]`.
pub open spec fn sp_if(s: Seq<char>, p: int) -> Option<(ast::SpecExpr, int)>
    decreases s.len() - p, 0int,
{
    match keyword(s, p, seq!['i', 'f']) {
        Some(q) => {
            let q1 = skip_ws(s, q);
            if !at(s, q1, '(') {
                None
            } else {
                let q2 = skip_ws(s, q1 + 1);
                proof {
                    lemma_skip_ws(s, q);
                    lemma_skip_ws(s, q1 + 1);
                }
                match sp_expr(s, q2) {
                    Some((c, q3)) => {
                        let q4 = skip_ws(s, q3);
                        if !at(s, q4, ')') {
                            None
                        } else {
                            let q5 = skip_ws(s, q4 + 1);
                            proof {
                                lemma_skip_ws(s, q4 + 1);
                            }
                            if q5 <= p || q5 > s.len() {
                                None
                            } else {
                                match sp_block(s, q5) {
                                    Some((t, q6)) => {
                                        let q7 = skip_ws(s, q6);
                                        match keyword(s, q7, seq!['e', 'l', 's', 'e']) {
                                            Some(q8) => {
                                                let q9 = skip_ws(s, q8);
                                                proof {
                                                    lemma_skip_ws(s, q8);
                                                }
                                                if q9 <= p || q9 > s.len() {
                                                    None
                                                } else {
                                                    match sp_block(s, q9) {
                                                        Some((f, q10)) => Some(
                                                            (ast::SpecExpr::If(Box::new(c), t, Some(f)), q10),
                                                        ),
                                                        None => Some((ast::SpecExpr::If(Box::new(c), t, None), q6)),
                                                    }
                                                }
                                            },
                                            None => Some((ast::SpecExpr::If(Box::new(c), t, None), q6)),
                                        }
                                    },
                                    None => None,
                                }
                            }
                        }
                    },
                    None => None,
                }
            }
        },
        None => None,
    }
}

/// `name(args)`.
pub open spec fn sp_funcall(s: Seq<char>, p: int) -> Option<(ast::SpecExpr, int)>
    decreases s.len() - p, 0int,
{
    match sp_ident(s, p) {
        Some((name, q)) => if !at(s, q, '(') {
            None
        } else {
            let q1 = skip_ws(s, q + 1);
            proof {
                lemma_ident_end(s, p);
                lemma_skip_ws(s, q + 1);
            }
            match sp_args(s, q1) {
                Some((args, q2)) => {
                    let q3 = skip_ws(s, q2);
                    if at(s, q3, ')') {
                        Some((ast::SpecExpr::FunCall(Box::new(ast::SpecExpr::VarRef(name)), args), q3 + 1))
                    } else {
                        None
                    }
                },
                None => None,
            }
        },
        None => None,
    }
}

/// Expressions separated by `,`; possibly none.
pub open spec fn sp_args(s: Seq<char>, p: int) -> Option<(Seq<ast::SpecExpr>, int)>
    decreases s.len() - p, 8int,
{
    match sp_expr(s, p) {
        Some((e, q)) => if p <= q <= s.len() {
            sp_args_rest(s, q, seq![e])
        } else {
            None
        },
        None => Some((Seq::empty(), p)),
    }
}

pub open spec fn sp_args_rest(s: Seq<char>, p: int, acc: Seq<ast::SpecExpr>) -> Option<(Seq<ast::SpecExpr>, int)>
    decreases s.len() - p, 7int,
{
    let q = skip_ws(s, p);
    if !at(s, q, ',') {
        Some((acc, p))
    } else {
        let r = skip_ws(s, q + 1);
        proof {
            lemma_skip_ws(s, p);
            lemma_skip_ws(s, q + 1);
        }
        match sp_expr(s, r) {
            Some((e, r2)) => if p < r2 <= s.len() {
                sp_args_rest(s, r2, acc.push(e))
            } else {
                None
            },
            None => Some((acc, p)),
        }
    }
}

/// `{ statements }`.
pub open spec fn sp_block(s: Seq<char>, p: int) -> Option<(Seq<ast::SpecExpr>, int)>
    decreases s.len() - p, 0int,
{
    if !at(s, p, '{') {
        None
    } else {
        sp_stmts(s, p + 1, Seq::empty())
    }
}

/// Statements up to the `}` that closes the block.
pub open spec fn sp_stmts(s: Seq<char>, p: int, acc: Seq<ast::SpecExpr>) -> Option<(Seq<ast::SpecExpr>, int)>
    decreases s.len() - p, 11int,
{
    let c = skip_comments(s, p);
    if at(s, c, '}') {
        Some((acc, c + 1))
    } else {
        proof {
            lemma_skip_comments(s, p);
        }
        match sp_stmt(s, c) {
            Some((st, q)) => if p < q <= s.len() {
                sp_stmts(s, q, acc.push(st))
            } else {
                None
            },
            None => None,
        }
    }
}

pub proof fn lemma_skip_comments(s: Seq<char>, p: int)
    ensures
        skip_comments(s, p) >= p,
        0 <= p <= s.len() ==> skip_comments(s, p) <= s.len(),
    decreases s.len() - p,
{
    let q = skip_ws(s, p);
    lemma_skip_ws(s, p);
    if at(s, q, '#') {
        lemma_line_end(s, q + 1);
        lemma_skip_comments(s, line_end(s, q + 1));
    }
}

/// A statement, then its `;`.
pub open spec fn sp_stmt(s: Seq<char>, p: int) -> Option<(ast::SpecExpr, int)>
    decreases s.len() - p, 10int,
{
    match sp_stmt_body(s, p) {
        Some((e, q)) => {
            let q2 = skip_ws(s, q);
            if at(s, q2, ';') {
                Some((e, q2 + 1))
            } else if ends_with_block(e) {
                Some((e, q))
            } else {
                None
            }
        },
        None => None,
    }
}

/// `return ws+ expr`.
pub open spec fn sp_return(s: Seq<char>, p: int) -> Option<(ast::SpecExpr, int)>
    decreases s.len() - p, 0int,
{
    match keyword(s, p, seq!['r', 'e', 't', 'u', 'r', 'n']) {
        Some(q) => match ws1(s, q) {
            Some(r) => {
                proof {
                    lemma_skip_ws(s, q);
                }
                match sp_expr(s, r) {
                    Some((e, r2)) => Some((ast::SpecExpr::Return(Box::new(e)), r2)),
                    None => None,
                }
            },
            None => None,
        },
        None => None,
    }
}

/// `yield ws+ expr`.
pub open spec fn sp_yield(s: Seq<char>, p: int) -> Option<(ast::SpecExpr, int)>
    decreases s.len() - p, 0int,
{
    match keyword(s, p, seq!['y', 'i', 'e', 'l', 'd']) {
        Some(q) => match ws1(s, q) {
            Some(r) => {
                proof {
                    lemma_skip_ws(s, q);
                }
                match sp_expr(s, r) {
                    Some((e, r2)) => Some((ast::SpecExpr::Yield(Box::new(e)), r2)),
                    None => None,
                }
            },
            None => None,
        },
        None => None,
    }
}

/// `return e`, `yield e`, `alloc x`, `while`, `x = e` or an expression.
pub open spec fn sp_stmt_body(s: Seq<char>, p: int) -> Option<(ast::SpecExpr, int)>
    decreases s.len() - p, 9int,
{
    match sp_return(s, p) {
        Some(r) => Some(r),
        None => match sp_yield(s, p) {
            Some(r) => Some(r),
            None => sp_stmt_body_rest(s, p),
        },
    }
}

/// `alloc x`, `while`, `x = e` or an expression.
pub open spec fn sp_stmt_body_rest(s: Seq<char>, p: int) -> Option<(ast::SpecExpr, int)>
    decreases s.len() - p, 8int,
{
    match sp_alloc(s, p) {
        Some(r) => Some(r),
        None => match sp_while(s, p) {
            Some(r) => Some(r),
            None => match sp_assign(s, p) {
                Some(r) => Some(r),
                None => sp_expr(s, p),
            },
        },
    }
}

/// `alloc x`.
pub open spec fn sp_alloc(s: Seq<char>, p: int) -> Option<(ast::SpecExpr, int)> {
    match keyword(s, p, seq!['a', 'l', 'l', 'o', 'c']) {
        Some(q) => match ws1(s, q) {
            Some(r) => match sp_ident(s, r) {
                Some((name, r2)) => Some((ast::SpecExpr::Alloc(name), r2)),
                None => None,
            },
            None => None,
        },
        None => None,
    }
}

/// `while (cond) block`.
pub open spec fn sp_while(s: Seq<char>, p: int) -> Option<(ast::SpecExpr, int)>
    decreases s.len() - p, 0int,
{
    match keyword(s, p, seq!['w', 'h', 'i', 'l', 'e']) {
        Some(q) => {
            let q1 = skip_ws(s, q);
            if !at(s, q1, '(') {
                None
            } else {
                let q2 = skip_ws(s, q1 + 1);
                proof {
                    lemma_skip_ws(s, q);
                    lemma_skip_ws(s, q1 + 1);
                }
                match sp_expr(s, q2) {
                    Some((c, q3)) => {
                        let q4 = skip_ws(s, q3);
                        if !at(s, q4, ')') {
                            None
                        } else {
                            let q5 = skip_ws(s, q4 + 1);
                            proof {
                                lemma_skip_ws(s, q4 + 1);
                            }
                            if q5 <= p || q5 > s.len() {
                                None
                            } else {
                                match sp_block(s, q5) {
                                    Some((b, q6)) => Some((ast::SpecExpr::While(Box::new(c), b), q6)),
                                    None => None,
                                }
                            }
                        }
                    },
                    None => None,
                }
            }
        },
        None => None,
    }
}

/// `x = e` (the `=` not the start of `==`).
pub open spec fn sp_assign(s: Seq<char>, p: int) -> Option<(ast::SpecExpr, int)>
    decreases s.len() - p, 0int,
{
    match sp_ident(s, p) {
        Some((name, q)) => {
            let q1 = skip_ws(s, q);
            if at(s, q1, '=') && !at(s, q1 + 1, '=') {
                let q2 = skip_ws(s, q1 + 1);
                proof {
                    lemma_ident_end(s, p);
                    lemma_skip_ws(s, q);
                    lemma_skip_ws(s, q1 + 1);
                }
                match sp_expr(s, q2) {
                    Some((e, q3)) => Some((ast::SpecExpr::Assign(name, Box::new(e)), q3)),
                    None => None,
                }
            } else {
                None
            }
        },
        None => None,
    }
}

} // verus!

verus! {

/// `ty ws+ name`.
pub open spec fn sp_param(s: Seq<char>, p: int) -> Option<(ast::SpecParam, int)> {
    match sp_ty(s, p) {
        Some((ty, q)) => match ws1(s, q) {
            Some(r) => match sp_ident(s, r) {
                Some((name, r2)) => Some((ast::SpecParam { ty, name }, r2)),
                None => None,
            },
            None => None,
        },
        None => None,
    }
}

/// `(params)`: parameters separated by `,`, possibly none.
pub open spec fn sp_param_list(s: Seq<char>, p: int) -> Option<(Seq<ast::SpecParam>, int)> {
    if !at(s, p, '(') {
        None
    } else {
        let q = skip_ws(s, p + 1);
        match sp_param(s, q) {
            Some((first, q1)) => match sp_params_rest(s, q1, seq![first]) {
                Some((ps, q2)) => {
                    let q3 = skip_ws(s, q2);
                    if at(s, q3, ')') {
                        Some((ps, q3 + 1))
                    } else {
                        None
                    }
                },
                None => None,
            },
            None => if at(s, q, ')') {
                Some((Seq::empty(), q + 1))
            } else {
                None
            },
        }
    }
}

pub open spec fn sp_params_rest(s: Seq<char>, p: int, acc: Seq<ast::SpecParam>) -> Option<(Seq<ast::SpecParam>, int)>
    decreases s.len() - p,
{
    let q = skip_ws(s, p);
    if !at(s, q, ',') {
        Some((acc, p))
    } else {
        let r = skip_ws(s, q + 1);
        match sp_param(s, r) {
            Some((prm, r2)) => if p < r2 <= s.len() {
                sp_params_rest(s, r2, acc.push(prm))
            } else {
                None
            },
            None => Some((acc, p)),
        }
    }
}

/// The modifiers of an extern: `(async)`, `(internal)` or both.
pub open spec fn sp_modifier(s: Seq<char>, p: int) -> Option<((bool, bool), int)> {
    match keyword(s, p, seq!['a', 's', 'y', 'n', 'c']) {
        Some(q) => Some(((true, false), q)),
        None => match keyword(s, p, seq!['i', 'n', 't', 'e', 'r', 'n', 'a', 'l']) {
            Some(q) => Some(((false, true), q)),
            None => None,
        },
    }
}

pub open spec fn sp_modifiers_rest(s: Seq<char>, p: int, acc: (bool, bool)) -> Option<((bool, bool), int)>
    decreases s.len() - p,
{
    let q = skip_ws(s, p);
    if !at(s, q, ',') {
        Some((acc, p))
    } else {
        let r = skip_ws(s, q + 1);
        match sp_modifier(s, r) {
            Some((m, r2)) => if p < r2 <= s.len() {
                sp_modifiers_rest(s, r2, (acc.0 || m.0, acc.1 || m.1))
            } else {
                None
            },
            None => Some((acc, p)),
        }
    }
}

/// `ws ( modifiers ws )` after `extern`, if there; `(is_async, is_internal)`.
pub open spec fn sp_modifier_list(s: Seq<char>, p: int) -> Option<((bool, bool), int)> {
    let q = skip_ws(s, p);
    if !at(s, q, '(') {
        Some(((false, false), p))
    } else {
        let r = skip_ws(s, q + 1);
        match sp_modifier(s, r) {
            Some((m, r1)) => match sp_modifiers_rest(s, r1, m) {
                Some((ms, r2)) => {
                    let r3 = skip_ws(s, r2);
                    if at(s, r3, ')') {
                        Some((ms, r3 + 1))
                    } else {
                        None
                    }
                },
                None => None,
            },
            None => None,
        }
    }
}

/// `ws -> ws ty`.
pub open spec fn sp_ret_ty(s: Seq<char>, p: int) -> Option<(ast::SpecTy, int)> {
    let q = skip_ws(s, p);
    if !tag(s, q, seq!['-', '>']) {
        None
    } else {
        sp_ty(s, skip_ws(s, q + 2))
    }
}

/// `extern[(modifiers)] name(params) -> ty;`, which starts at `p`.
pub open spec fn sp_extern(s: Seq<char>, p: int) -> Option<(ast::SpecExtern, int)> {
    match keyword(s, p, seq!['e', 'x', 't', 'e', 'r', 'n']) {
        Some(q) => match sp_modifier_list(s, q) {
            Some(((is_async, is_internal), q1)) => match ws1(s, q1) {
                Some(q2) => match sp_ident(s, q2) {
                    Some((name, q3)) => match sp_param_list(s, q3) {
                        Some((params, q4)) => match sp_ret_ty(s, q4) {
                            Some((ret_ty, q5)) => {
                                let q6 = skip_ws(s, q5);
                                if at(s, q6, ';') {
                                    Some(
                                        (
                                            ast::SpecExtern { is_async, is_internal, name, params, ret_ty, offset: p },
                                            q6 + 1,
                                        ),
                                    )
                                } else {
                                    None
                                }
                            },
                            None => None,
                        },
                        None => None,
                    },
                    None => None,
                },
                None => None,
            },
            None => None,
        },
        None => None,
    }
}

/// `fun name(params) -> ty block`, which starts at `p`.
pub open spec fn sp_function(s: Seq<char>, p: int) -> Option<(ast::SpecFunction, int)> {
    match keyword(s, p, seq!['f', 'u', 'n']) {
        Some(q) => match ws1(s, q) {
            Some(q1) => match sp_ident(s, q1) {
                Some((name, q2)) => match sp_param_list(s, q2) {
                    Some((params, q3)) => match sp_ret_ty(s, q3) {
                        Some((ret_ty, q4)) => match sp_block(s, skip_ws(s, q4)) {
                            Some((body_stmts, q5)) => Some(
                                (ast::SpecFunction { name, params, ret_ty, body_stmts, offset: p }, q5),
                            ),
                            None => None,
                        },
                        None => None,
                    },
                    None => None,
                },
                None => None,
            },
            None => None,
        },
        None => None,
    }
}

/// An extern or a function.
pub open spec fn sp_decl(s: Seq<char>, p: int) -> Option<(ast::SpecDeclaration, int)> {
    match sp_extern(s, p) {
        Some((e, q)) => Some((ast::SpecDeclaration::Extern(e), q)),
        None => match sp_function(s, p) {
            Some((f, q)) => Some((ast::SpecDeclaration::Function(f), q)),
            None => None,
        },
    }
}

/// The declarations from `p` on, and the position after the last one and
/// the comments after it.
pub open spec fn sp_decls(s: Seq<char>, p: int, acc: Seq<ast::SpecDeclaration>) -> (Seq<ast::SpecDeclaration>, int)
    decreases s.len() - p,
{
    let c = skip_comments(s, p);
    match sp_decl(s, c) {
        Some((d, q)) => if p < q <= s.len() {
            sp_decls(s, q, acc.push(d))
        } else {
            (acc, c)
        },
        None => (acc, c),
    }
}

/// The declarations of a program, or the position where the parser
/// stopped when something other than white space is left after them.
pub open spec fn spec_parse(s: Seq<char>) -> Result<Seq<ast::SpecDeclaration>, int> {
    let (decls, p) = sp_decls(s, 0, Seq::empty());
    let q = skip_ws(s, p);
    if q == s.len() {
        Ok(decls)
    } else {
        Err(q)
    }
}

} // verus!

verus! {

/// The source being parsed, and its characters.
pub struct Input<'a> {
    src: &'a str,
    chars: Vec<char>,
}

impl<'a> Input<'a> {
    pub closed spec fn wf(&self) -> bool {
        &&& self.chars@ == self.src@
        &&& self.chars@.len() <= usize::MAX
    }

    pub closed spec fn s(&self) -> Seq<char> {
        self.chars@
    }

    pub fn new(src: &'a str) -> (r: Input<'a>)
        ensures
            r.wf(),
            r.s() == src@,
    {
        let n = src.unicode_len();
        let mut chars: Vec<char> = Vec::new();
        let mut i: usize = 0;
        while i < n
            invariant
                n == src@.len(),
                i <= n,
                chars@ == src@.take(i as int),
            decreases n - i,
        {
            chars.push(src.get_char(i));
            assert(src@.take(i + 1) =~= src@.take(i as int).push(src@[i as int]));
            i += 1;
        }
        assert(src@.take(n as int) =~= src@);
        Input { src, chars }
    }

    fn len(&self) -> (r: usize)
        ensures
            r == self.s().len(),
    {
        self.chars.len()
    }

    /// Is `c` at position `p`?
    fn at(&self, p: usize, c: char) -> (r: bool)
        ensures
            r == at(self.s(), p as int, c),
    {
        p < self.chars.len() && self.chars[p] == c
    }

    /// Does `t` start at position `p`?
    fn tag(&self, p: usize, t: &str) -> (r: bool)
        ensures
            r == tag(self.s(), p as int, t@),
    {
        let n = t.unicode_len();
        if p > self.chars.len() || n > self.chars.len() - p {
            return false;
        }
        let mut i: usize = 0;
        while i < n
            invariant
                n == t@.len(),
                p + n <= self.s().len(),
                self.s().len() == self.chars.len(),
                i <= n,
                forall|j: int| 0 <= j < i ==> self.s()[p + j] == t@[j],
            decreases n - i,
        {
            if self.chars[p + i] != t.get_char(i) {
                assert(self.s().subrange(p as int, p + n)[i as int] != t@[i as int]);
                return false;
            }
            i += 1;
        }
        assert(self.s().subrange(p as int, p + n) =~= t@);
        true
    }

    /// The characters from `p` to `q`.
    fn substring(&self, p: usize, q: usize) -> (r: String)
        requires
            self.wf(),
            p <= q <= self.s().len(),
        ensures
            r@ == self.s().subrange(p as int, q as int),
    {
        String::from_str(self.src.substring_char(p, q))
    }

    fn skip_ws(&self, p: usize) -> (r: usize)
        requires
            self.wf(),
            p <= self.s().len(),
        ensures
            r == skip_ws(self.s(), p as int),
            p <= r <= self.s().len(),
    {
        let mut i = p;
        while i < self.chars.len() && is_space_char(self.chars[i])
            invariant
                p <= i <= self.s().len(),
                skip_ws(self.s(), i as int) == skip_ws(self.s(), p as int),
            decreases self.s().len() - i,
        {
            i += 1;
        }
        i
    }

    fn ws1(&self, p: usize) -> (r: Option<usize>)
        requires
            self.wf(),
            p <= self.s().len(),
        ensures
            pos(r) == ws1(self.s(), p as int),
            r matches Some(q) ==> p < q <= self.s().len(),
    {
        if p < self.chars.len() && is_space_char(self.chars[p]) {
            Some(self.skip_ws(p + 1))
        } else {
            None
        }
    }

    fn skip_comments(&self, p: usize) -> (r: usize)
        requires
            self.wf(),
            p <= self.s().len(),
        ensures
            r == skip_comments(self.s(), p as int),
            p <= r <= self.s().len(),
    {
        let mut i = p;
        loop
            invariant
                self.wf(),
                p <= i <= self.s().len(),
                skip_comments(self.s(), i as int) == skip_comments(self.s(), p as int),
            decreases self.s().len() - i,
        {
            let q = self.skip_ws(i);
            assert(self.s().len() == self.chars.len());
            if self.at(q, '#') {
                let mut j = q + 1;
                while j < self.chars.len() && self.chars[j] != '\n'
                    invariant
                        q < j <= self.s().len(),
                        line_end(self.s(), j as int) == line_end(self.s(), q + 1),
                    decreases self.s().len() - j,
                {
                    j += 1;
                }
                i = j;
            } else {
                return q;
            }
        }
    }

    fn ident_end(&self, p: usize) -> (r: usize)
        requires
            self.wf(),
            p <= self.s().len(),
        ensures
            r == ident_end(self.s(), p as int),
            p <= r <= self.s().len(),
    {
        let mut i = p;
        while i < self.chars.len() && is_ident_char_x(self.chars[i])
            invariant
                p <= i <= self.s().len(),
                ident_end(self.s(), i as int) == ident_end(self.s(), p as int),
            decreases self.s().len() - i,
        {
            i += 1;
        }
        i
    }

    fn ident(&self, p: usize) -> (r: Option<(String, usize)>)
        requires
            self.wf(),
            p <= self.s().len(),
        ensures
            res_op(r) == sp_ident(self.s(), p as int),
            r matches Some((_, q)) ==> p < q <= self.s().len(),
    {
        let q = self.ident_end(p);
        if q > p {
            Some((self.substring(p, q), q))
        } else {
            None
        }
    }

    fn keyword(&self, p: usize, kw: &str) -> (r: Option<usize>)
        requires
            self.wf(),
            p <= self.s().len(),
        ensures
            pos(r) == keyword(self.s(), p as int, kw@),
            r matches Some(q) ==> p <= q <= self.s().len(),
    {
        if self.tag(p, kw) {
            assert(self.s().len() == self.chars.len());
            Some(p + kw.unicode_len())
        } else {
            None
        }
    }
}

fn is_space_char(c: char) -> (r: bool)
    ensures
        r == is_space(c),
{
    c == ' ' || c == '\t' || c == '\n' || c == '\r'
}

fn is_ident_char_x(c: char) -> (r: bool)
    ensures
        r == is_ident_char(c),
{
    ('a' <= c && c <= 'z') || ('A' <= c && c <= 'Z') || ('0' <= c && c <= '9') || c == '_'
}

} // verus!

verus! {

/// View of a position that may be missing.
pub open spec fn pos(r: Option<usize>) -> Option<int> {
    match r {
        Some(q) => Some(q as int),
        None => None,
    }
}

/// View of a parse result that is a number.
pub open spec fn res_num(r: Option<(i64, usize)>) -> Option<(i64, int)> {
    match r {
        Some((v, q)) => Some((v, q as int)),
        None => None,
    }
}

/// View of a parse result.
pub open spec fn res<T: View>(r: Option<(T, usize)>) -> Option<(T::V, int)> {
    match r {
        Some((v, q)) => Some((v@, q as int)),
        None => None,
    }
}

/// View of a parse result that is a list of types.
pub open spec fn res_tys(r: Option<(Vec<Ty>, usize)>) -> Option<(Seq<ast::SpecTy>, int)> {
    match r {
        Some((v, q)) => Some((ast::tys_view(v@), q as int)),
        None => None,
    }
}

/// View of a parse result that is a list of expressions.
pub open spec fn res_exprs(r: Option<(Vec<Expr>, usize)>) -> Option<(Seq<ast::SpecExpr>, int)> {
    match r {
        Some((v, q)) => Some((ast::exprs_view(v@), q as int)),
        None => None,
    }
}

/// The position of a parse result is in `p..=len`.
pub open spec fn within<T>(r: Option<(T, usize)>, p: int, len: int) -> bool {
    r matches Some((_, q)) ==> p <= q <= len
}

/// The largest magnitude that matters for a saturated `i64`.
pub open spec fn cap() -> int {
    0x8000_0000_0000_0000int
}

proof fn lemma_saturate_cap(neg: bool, v: int)
    requires
        v >= 0,
    ensures
        saturate(if neg { -v } else { v }) == saturate(
            if neg {
                -(if v > cap() { cap() } else { v })
            } else {
                if v > cap() { cap() } else { v }
            },
        ),
{
}

impl<'a> Input<'a> {
    fn number(&self, p: usize) -> (r: Option<(i64, usize)>)
        requires
            self.wf(),
            p <= self.s().len(),
        ensures
            res_num(r) == sp_number(self.s(), p as int),
            within(r, p as int, self.s().len() as int),
    {
        let neg = self.at(p, '-');
        let start = if self.at(p, '-') || self.at(p, '+') {
            p + 1
        } else {
            p
        };
        let ghost s = self.s();
        let mut i = start;
        let mut acc: i128 = 0;
        while i < self.chars.len() && '0' <= self.chars[i] && self.chars[i] <= '9'
            invariant
                start <= i <= s.len(),
                s == self.s(),
                s.len() == self.chars.len(),
                digits_end(s, i as int) == digits_end(s, start as int),
                acc == (if digits_value(s, start as int, i as int) > cap() {
                    cap()
                } else {
                    digits_value(s, start as int, i as int)
                }),
                digits_value(s, start as int, i as int) >= 0,
            decreases s.len() - i,
        {
            let d = (self.chars[i] as u32 - '0' as u32) as i128;
            assert(digits_value(s, start as int, i + 1) == digits_value(s, start as int, i as int) * 10 + d);
            if acc >= 0x8000_0000_0000_0000i128 {
                acc = 0x8000_0000_0000_0000i128;
            } else {
                let next = acc * 10 + d;
                acc = if next > 0x8000_0000_0000_0000i128 {
                    0x8000_0000_0000_0000i128
                } else {
                    next
                };
            }
            i += 1;
        }
        if i == start {
            return None;
        }
        proof {
            lemma_saturate_cap(neg, digits_value(s, start as int, i as int));
        }
        let signed = if neg {
            -acc
        } else {
            acc
        };
        let v: i64 = if signed > 0x7fff_ffff_ffff_ffffi128 {
            0x7fff_ffff_ffff_ffffi64
        } else if signed < -0x8000_0000_0000_0000i128 {
            -0x8000_0000_0000_0000i64
        } else {
            signed as i64
        };
        Some((v, i))
    }

    /// A type: a function type or a named type.
    fn ty(&self, p: usize) -> (r: Option<(Ty, usize)>)
        requires
            self.wf(),
            p <= self.s().len(),
        ensures
            res(r) == sp_ty(self.s(), p as int),
            within(r, p as int, self.s().len() as int),
        decreases self.s().len() - p, 2int,
    {
        match self.fun_ty(p) {
            Some(r) => Some(r),
            None => match self.ident(p) {
                Some((name, q)) => Some((Ty::Raw(name), q)),
                None => None,
            },
        }
    }

    /// `FN((params)->ret)`.
    fn fun_ty(&self, p: usize) -> (r: Option<(Ty, usize)>)
        requires
            self.wf(),
            p <= self.s().len(),
        ensures
            res(r) == match sp_fun_ty(self.s(), p as int) {
                Some((f, q)) => Some((ast::SpecTy::Fun(f), q)),
                None => None,
            },
            within(r, p as int, self.s().len() as int),
        decreases self.s().len() - p, 1int,
    {
        proof {
            reveal_strlit("FN");
            reveal_strlit("->");
            assert("FN"@ =~= seq!['F', 'N']);
            assert("->"@ =~= seq!['-', '>']);
        }
        if !self.tag(p, "FN") {
            return None;
        }
        let p1 = self.skip_ws(p + 2);
        if !self.at(p1, '(') {
            return None;
        }
        let p2 = self.skip_ws(p1 + 1);
        if !self.at(p2, '(') {
            return None;
        }
        let p3 = self.skip_ws(p2 + 1);
        let (tys, p4) = match self.tys(p3) {
            Some(r) => r,
            None => {
                return None;
            },
        };
        let p5 = self.skip_ws(p4);
        if !self.at(p5, ')') {
            return None;
        }
        let p6 = self.skip_ws(p5 + 1);
        if !self.tag(p6, "->") {
            return None;
        }
        let p7 = self.skip_ws(p6 + 2);
        if p7 <= p {
            return None;
        }
        let (ret, p8) = match self.ty(p7) {
            Some(r) => r,
            None => {
                return None;
            },
        };
        let p9 = self.skip_ws(p8);
        if !self.at(p9, ')') {
            return None;
        }
        Some((Ty::Fun(FunTy { is_async: false, param_tys: tys, ret_ty: Box::new(ret) }), p9 + 1))
    }

    /// Types separated by `,`; possibly none.
    fn tys(&self, p: usize) -> (r: Option<(Vec<Ty>, usize)>)
        requires
            self.wf(),
            p <= self.s().len(),
        ensures
            res_tys(r) == sp_tys(self.s(), p as int),
            within(r, p as int, self.s().len() as int),
        decreases self.s().len() - p, 4int,
    {
        match self.ty(p) {
            Some((t, q)) => {
                let mut acc: Vec<Ty> = Vec::new();
                acc.push(t);
                assert(ast::tys_view(acc@) =~= seq![t@]);
                self.tys_rest(q, acc)
            },
            None => {
                let v: Vec<Ty> = Vec::new();
                assert(ast::tys_view(v@) =~= Seq::<ast::SpecTy>::empty());
                Some((v, p))
            },
        }
    }

    fn tys_rest(&self, p: usize, acc: Vec<Ty>) -> (r: Option<(Vec<Ty>, usize)>)
        requires
            self.wf(),
            p <= self.s().len(),
        ensures
            res_tys(r) == sp_tys_rest(self.s(), p as int, ast::tys_view(acc@)),
            within(r, p as int, self.s().len() as int),
        decreases self.s().len() - p, 3int,
    {
        let q = self.skip_ws(p);
        if !self.at(q, ',') {
            return Some((acc, p));
        }
        let r = self.skip_ws(q + 1);
        match self.ty(r) {
            Some((t, r2)) => {
                if r2 <= p {
                    return None;
                }
                let mut acc = acc;
                acc.push(t);
                self.tys_rest(r2, acc)
            },
            None => Some((acc, p)),
        }
    }
}

} // verus!

verus! {

/// The three levels of binary operators.
pub enum OpKind {
    Comparison,
    Additive,
    Multiplicative,
}

pub open spec fn ops_of(kind: OpKind) -> Seq<Seq<char>> {
    match kind {
        OpKind::Comparison => comparison_ops(),
        OpKind::Additive => additive_ops(),
        OpKind::Multiplicative => multiplicative_ops(),
    }
}

/// View of a parse result that is an operator.
pub open spec fn res_op(r: Option<(String, usize)>) -> Option<(Seq<char>, int)> {
    match r {
        Some((v, q)) => Some((v@, q as int)),
        None => None,
    }
}

impl<'a> Input<'a> {
    /// The operator of `ops` at `p`, if there is one.
    fn op_try(&self, p: usize, op: &str) -> (r: Option<(String, usize)>)
        requires
            self.wf(),
            p <= self.s().len(),
            op@.len() > 0,
        ensures
            tag(self.s(), p as int, op@) ==> res_op(r) == Some((op@, p + op@.len())),
            !tag(self.s(), p as int, op@) ==> r is None,
    {
        if self.tag(p, op) {
            Some((String::from_str(op), p + op.unicode_len()))
        } else {
            None
        }
    }

    fn op(&self, p: usize, kind: &OpKind) -> (r: Option<(String, usize)>)
        requires
            self.wf(),
            p <= self.s().len(),
        ensures
            res_op(r) == sp_op(self.s(), p as int, ops_of(*kind)),
            within(r, p as int, self.s().len() as int),
    {
        proof {
            reveal_strlit("==");
            reveal_strlit("!=");
            reveal_strlit("<=");
            reveal_strlit(">=");
            reveal_strlit("<");
            reveal_strlit(">");
            reveal_strlit("+");
            reveal_strlit("-");
            reveal_strlit("*");
            reveal_strlit("/");
            reveal_with_fuel(sp_op, 7);
            assert("=="@ =~= seq!['=', '=']);
            assert("!="@ =~= seq!['!', '=']);
            assert("<="@ =~= seq!['<', '=']);
            assert(">="@ =~= seq!['>', '=']);
            assert("<"@ =~= seq!['<']);
            assert(">"@ =~= seq!['>']);
            assert("+"@ =~= seq!['+']);
            assert("-"@ =~= seq!['-']);
            assert("*"@ =~= seq!['*']);
            assert("/"@ =~= seq!['/']);
        }
        match kind {
            OpKind::Comparison => {
                let ghost ops = comparison_ops();
                assert(ops.drop_first() =~= seq![seq!['!', '='], seq!['<', '='], seq!['>', '='], seq!['<'], seq!['>']]);
                assert(ops.drop_first().drop_first() =~= seq![seq!['<', '='], seq!['>', '='], seq!['<'], seq!['>']]);
                assert(ops.drop_first().drop_first().drop_first() =~= seq![seq!['>', '='], seq!['<'], seq!['>']]);
                assert(ops.drop_first().drop_first().drop_first().drop_first() =~= seq![seq!['<'], seq!['>']]);
                assert(ops.drop_first().drop_first().drop_first().drop_first().drop_first() =~= seq![seq!['>']]);
                assert(ops.drop_first().drop_first().drop_first().drop_first().drop_first().drop_first() =~= Seq::<Seq<char>>::empty());
                if let Some(r) = self.op_try(p, "==") {
                    return Some(r);
                }
                if let Some(r) = self.op_try(p, "!=") {
                    return Some(r);
                }
                if let Some(r) = self.op_try(p, "<=") {
                    return Some(r);
                }
                if let Some(r) = self.op_try(p, ">=") {
                    return Some(r);
                }
                if let Some(r) = self.op_try(p, "<") {
                    return Some(r);
                }
                self.op_try(p, ">")
            },
            OpKind::Additive => {
                let ghost ops = additive_ops();
                assert(ops.drop_first() =~= seq![seq!['-']]);
                assert(ops.drop_first().drop_first() =~= Seq::<Seq<char>>::empty());
                if let Some(r) = self.op_try(p, "+") {
                    return Some(r);
                }
                self.op_try(p, "-")
            },
            OpKind::Multiplicative => {
                let ghost ops = multiplicative_ops();
                assert(ops.drop_first() =~= seq![seq!['/']]);
                assert(ops.drop_first().drop_first() =~= Seq::<Seq<char>>::empty());
                if let Some(r) = self.op_try(p, "*") {
                    return Some(r);
                }
                self.op_try(p, "/")
            },
        }
    }

    /// `ws+ op ws+`.
    fn op_between(&self, p: usize, kind: &OpKind) -> (r: Option<(String, usize)>)
        requires
            self.wf(),
            p <= self.s().len(),
        ensures
            res_op(r) == sp_op_between(self.s(), p as int, ops_of(*kind)),
            within(r, p as int, self.s().len() as int),
    {
        let q = match self.ws1(p) {
            Some(q) => q,
            None => {
                return None;
            },
        };
        assert(ws1(self.s(), p as int) == Some(q as int));
        let (op, r) = match self.op(q, kind) {
            Some(x) => x,
            None => {
                return None;
            },
        };
        match self.ws1(r) {
            Some(r2) => {
                assert(ws1(self.s(), r as int) == Some(r2 as int));
                Some((op, r2))
            },
            None => {
                assert(ws1(self.s(), r as int) is None);
                None
            },
        }
    }
}

} // verus!

verus! {

impl<'a> Input<'a> {
    /// An expression: a comparison of two sums, or a sum.
    fn expr(&self, p: usize) -> (r: Option<(Expr, usize)>)
        requires
            self.wf(),
            p <= self.s().len(),
        ensures
            res(r) == sp_expr(self.s(), p as int),
            within(r, p as int, self.s().len() as int),
        decreases self.s().len() - p, 6int,
    {
        let (l, q) = match self.add(p) {
            Some(x) => x,
            None => {
                return None;
            },
        };
        match self.op_between(q, &OpKind::Comparison) {
            Some((op, r)) => {
                if !(q < r) {
                    return None;
                }
                match self.add(r) {
                    Some((rr, r2)) => Some((Expr::OpCall(op, Box::new(l), Box::new(rr)), r2)),
                    None => Some((l, q)),
                }
            },
            None => Some((l, q)),
        }
    }

    /// A sum: products joined by `+` and `-`, left to right.
    fn add(&self, p: usize) -> (r: Option<(Expr, usize)>)
        requires
            self.wf(),
            p <= self.s().len(),
        ensures
            res(r) == sp_add(self.s(), p as int),
            within(r, p as int, self.s().len() as int),
        decreases self.s().len() - p, 5int,
    {
        let (l, q) = match self.mul(p) {
            Some(x) => x,
            None => {
                return None;
            },
        };
        self.add_rest(q, l)
    }

    fn add_rest(&self, p: usize, acc: Expr) -> (r: Option<(Expr, usize)>)
        requires
            self.wf(),
            p <= self.s().len(),
        ensures
            res(r) == sp_add_rest(self.s(), p as int, acc@),
            within(r, p as int, self.s().len() as int),
        decreases self.s().len() - p, 4int,
    {
        match self.op_between(p, &OpKind::Additive) {
            Some((op, q)) => {
                if !(p < q) {
                    return None;
                }
                match self.mul(q) {
                    Some((r, q2)) => {
                        if !(q < q2) {
                            return None;
                        }
                        self.add_rest(q2, Expr::OpCall(op, Box::new(acc), Box::new(r)))
                    },
                    None => Some((acc, p)),
                }
            },
            None => Some((acc, p)),
        }
    }

    /// A product: atoms joined by `*` and `/`, left to right.
    fn mul(&self, p: usize) -> (r: Option<(Expr, usize)>)
        requires
            self.wf(),
            p <= self.s().len(),
        ensures
            res(r) == sp_mul(self.s(), p as int),
            within(r, p as int, self.s().len() as int),
        decreases self.s().len() - p, 3int,
    {
        let (l, q) = match self.atom(p) {
            Some(x) => x,
            None => {
                return None;
            },
        };
        self.mul_rest(q, l)
    }

    fn mul_rest(&self, p: usize, acc: Expr) -> (r: Option<(Expr, usize)>)
        requires
            self.wf(),
            p <= self.s().len(),
        ensures
            res(r) == sp_mul_rest(self.s(), p as int, acc@),
            within(r, p as int, self.s().len() as int),
        decreases self.s().len() - p, 2int,
    {
        match self.op_between(p, &OpKind::Multiplicative) {
            Some((op, q)) => {
                if !(p < q) {
                    return None;
                }
                match self.atom(q) {
                    Some((r, q2)) => {
                        if !(q < q2) {
                            return None;
                        }
                        self.mul_rest(q2, Expr::OpCall(op, Box::new(acc), Box::new(r)))
                    },
                    None => Some((acc, p)),
                }
            },
            None => Some((acc, p)),
        }
    }

    /// `(expr)`, a `para` block, an `if`, a call, a number or a variable.
    fn atom(&self, p: usize) -> (r: Option<(Expr, usize)>)
        requires
            self.wf(),
            p <= self.s().len(),
        ensures
            res(r) == sp_atom(self.s(), p as int),
            within(r, p as int, self.s().len() as int),
        decreases self.s().len() - p, 1int,
    {
        if let Some(r) = self.para(p) {
            return Some(r);
        }
        if let Some(r) = self.if_expr(p) {
            return Some(r);
        }
        if let Some(r) = self.paren(p) {
            return Some(r);
        }
        if let Some(r) = self.funcall(p) {
            return Some(r);
        }
        if let Some((n, q)) = self.number(p) {
            return Some((Expr::Number(n), q));
        }
        match self.ident(p) {
            Some((name, q)) => Some((Expr::VarRef(name), q)),
            None => None,
        }
    }

    /// `(expr)`.
    fn paren(&self, p: usize) -> (r: Option<(Expr, usize)>)
        requires
            self.wf(),
            p <= self.s().len(),
        ensures
            res(r) == sp_paren(self.s(), p as int),
            within(r, p as int, self.s().len() as int),
        decreases self.s().len() - p, 0int,
    {
        if !self.at(p, '(') {
            return None;
        }
        let q = self.skip_ws(p + 1);
        let (e, r) = match self.expr(q) {
            Some(x) => x,
            None => {
                return None;
            },
        };
        let r2 = self.skip_ws(r);
        if self.at(r2, ')') {
            Some((e, r2 + 1))
        } else {
            None
        }
    }

    /// `para ws+ block`.
    fn para(&self, p: usize) -> (r: Option<(Expr, usize)>)
        requires
            self.wf(),
            p <= self.s().len(),
        ensures
            res(r) == sp_para(self.s(), p as int),
            within(r, p as int, self.s().len() as int),
        decreases self.s().len() - p, 0int,
    {
        proof {
            reveal_strlit("para");
            assert("para"@ =~= seq!['p', 'a', 'r', 'a']);
        }
        let q = match self.keyword(p, "para") {
            Some(q) => q,
            None => {
                return None;
            },
        };
        let r = match self.ws1(q) {
            Some(r) => r,
            None => {
                return None;
            },
        };
        match self.block(r) {
            Some((b, r2)) => Some((Expr::Para(b), r2)),
            None => None,
        }
    }

    /// `if (cond) block [else block]`.
    fn if_expr(&self, p: usize) -> (r: Option<(Expr, usize)>)
        requires
            self.wf(),
            p <= self.s().len(),
        ensures
            res(r) == sp_if(self.s(), p as int),
            within(r, p as int, self.s().len() as int),
        decreases self.s().len() - p, 0int,
    {
        proof {
            reveal_strlit("if");
            reveal_strlit("else");
            assert("if"@ =~= seq!['i', 'f']);
            assert("else"@ =~= seq!['e', 'l', 's', 'e']);
        }
        let q = match self.keyword(p, "if") {
            Some(q) => q,
            None => {
                return None;
            },
        };
        let q1 = self.skip_ws(q);
        if !self.at(q1, '(') {
            return None;
        }
        let q2 = self.skip_ws(q1 + 1);
        let (c, q3) = match self.expr(q2) {
            Some(x) => x,
            None => {
                return None;
            },
        };
        let q4 = self.skip_ws(q3);
        if !self.at(q4, ')') {
            return None;
        }
        let q5 = self.skip_ws(q4 + 1);
        if q5 <= p {
            return None;
        }
        let (t, q6) = match self.block(q5) {
            Some(x) => x,
            None => {
                return None;
            },
        };
        let q7 = self.skip_ws(q6);
        match self.keyword(q7, "else") {
            Some(q8) => {
                let q9 = self.skip_ws(q8);
                if q9 <= p {
                    return None;
                }
                match self.block(q9) {
                    Some((f, q10)) => Some((Expr::If(Box::new(c), t, Some(f)), q10)),
                    None => Some((Expr::If(Box::new(c), t, None), q6)),
                }
            },
            None => Some((Expr::If(Box::new(c), t, None), q6)),
        }
    }

    /// `name(args)`.
    fn funcall(&self, p: usize) -> (r: Option<(Expr, usize)>)
        requires
            self.wf(),
            p <= self.s().len(),
        ensures
            res(r) == sp_funcall(self.s(), p as int),
            within(r, p as int, self.s().len() as int),
        decreases self.s().len() - p, 0int,
    {
        let (name, q) = match self.ident(p) {
            Some(x) => x,
            None => {
                return None;
            },
        };
        if !self.at(q, '(') {
            return None;
        }
        let q1 = self.skip_ws(q + 1);
        let (args, q2) = match self.args(q1) {
            Some(x) => x,
            None => {
                return None;
            },
        };
        let q3 = self.skip_ws(q2);
        if self.at(q3, ')') {
            let f = Expr::VarRef(name);
            assert(f@ == ast::SpecExpr::VarRef(sp_ident(self.s(), p as int).unwrap().0));
            let call = Expr::FunCall(Box::new(f), args);
            assert(call@ == ast::SpecExpr::FunCall(Box::new(f@), sp_args(self.s(), q1 as int).unwrap().0));
            Some((call, q3 + 1))
        } else {
            None
        }
    }

    /// Expressions separated by `,`; possibly none.
    fn args(&self, p: usize) -> (r: Option<(Vec<Expr>, usize)>)
        requires
            self.wf(),
            p <= self.s().len(),
        ensures
            res_exprs(r) == sp_args(self.s(), p as int),
            within(r, p as int, self.s().len() as int),
        decreases self.s().len() - p, 8int,
    {
        match self.expr(p) {
            Some((e, q)) => {
                let mut acc: Vec<Expr> = Vec::new();
                acc.push(e);
                assert(ast::exprs_view(acc@) =~= seq![e@]);
                self.args_rest(q, acc)
            },
            None => {
                let v: Vec<Expr> = Vec::new();
                assert(ast::exprs_view(v@) =~= Seq::<ast::SpecExpr>::empty());
                Some((v, p))
            },
        }
    }

    fn args_rest(&self, p: usize, acc: Vec<Expr>) -> (r: Option<(Vec<Expr>, usize)>)
        requires
            self.wf(),
            p <= self.s().len(),
        ensures
            res_exprs(r) == sp_args_rest(self.s(), p as int, ast::exprs_view(acc@)),
            within(r, p as int, self.s().len() as int),
        decreases self.s().len() - p, 7int,
    {
        let q = self.skip_ws(p);
        if !self.at(q, ',') {
            return Some((acc, p));
        }
        let r = self.skip_ws(q + 1);
        match self.expr(r) {
            Some((e, r2)) => {
                if r2 <= p {
                    return None;
                }
                let mut acc = acc;
                acc.push(e);
                self.args_rest(r2, acc)
            },
            None => Some((acc, p)),
        }
    }

    /// `{ statements }`.
    fn block(&self, p: usize) -> (r: Option<(Vec<Expr>, usize)>)
        requires
            self.wf(),
            p <= self.s().len(),
        ensures
            res_exprs(r) == sp_block(self.s(), p as int),
            within(r, p as int, self.s().len() as int),
        decreases self.s().len() - p, 0int,
    {
        if !self.at(p, '{') {
            return None;
        }
        let v: Vec<Expr> = Vec::new();
        assert(ast::exprs_view(v@) =~= Seq::<ast::SpecExpr>::empty());
        self.stmts(p + 1, v)
    }

    /// Statements up to the `}` that closes the block.
    fn stmts(&self, p: usize, acc: Vec<Expr>) -> (r: Option<(Vec<Expr>, usize)>)
        requires
            self.wf(),
            p <= self.s().len(),
        ensures
            res_exprs(r) == sp_stmts(self.s(), p as int, ast::exprs_view(acc@)),
            within(r, p as int, self.s().len() as int),
        decreases self.s().len() - p, 10int,
    {
        let c = self.skip_comments(p);
        if self.at(c, '}') {
            return Some((acc, c + 1));
        }
        match self.stmt(c) {
            Some((st, q)) => {
                if q <= p {
                    return None;
                }
                let mut acc = acc;
                acc.push(st);
                self.stmts(q, acc)
            },
            None => None,
        }
    }

    /// A statement, then its `;`.
    fn stmt(&self, p: usize) -> (r: Option<(Expr, usize)>)
        requires
            self.wf(),
            p <= self.s().len(),
        ensures
            res(r) == sp_stmt(self.s(), p as int),
            within(r, p as int, self.s().len() as int),
        decreases self.s().len() - p, 9int,
    {
        let (e, q) = match self.stmt_body(p) {
            Some(x) => x,
            None => {
                return None;
            },
        };
        let q2 = self.skip_ws(q);
        if self.at(q2, ';') {
            Some((e, q2 + 1))
        } else if matches!(e, Expr::While(_, _)) || matches!(e, Expr::If(_, _, _)) || matches!(e, Expr::Para(_)) {
            Some((e, q))
        } else {
            None
        }
    }

    /// `return ws+ expr`.
    #[verifier::rlimit(50)]
    fn return_stmt(&self, p: usize) -> (r: Option<(Expr, usize)>)
        requires
            self.wf(),
            p <= self.s().len(),
        ensures
            res(r) == sp_return(self.s(), p as int),
            within(r, p as int, self.s().len() as int),
        decreases self.s().len() - p, 0int,
    {
        proof {
            reveal_strlit("return");
            assert("return"@ =~= seq!['r', 'e', 't', 'u', 'r', 'n']);
        }
        let q = match self.keyword(p, "return") {
            Some(q) => q,
            None => {
                return None;
            },
        };
        let r = match self.ws1(q) {
            Some(r) => r,
            None => {
                return None;
            },
        };
        match self.expr(r) {
            Some((e, r2)) => {
                let st = Expr::Return(Box::new(e));
                assert(st@ == ast::SpecExpr::Return(Box::new(e@)));
                Some((st, r2))
            },
            None => None,
        }
    }

    /// `yield ws+ expr`.
    #[verifier::rlimit(50)]
    fn yield_stmt(&self, p: usize) -> (r: Option<(Expr, usize)>)
        requires
            self.wf(),
            p <= self.s().len(),
        ensures
            res(r) == sp_yield(self.s(), p as int),
            within(r, p as int, self.s().len() as int),
        decreases self.s().len() - p, 0int,
    {
        proof {
            reveal_strlit("yield");
            assert("yield"@ =~= seq!['y', 'i', 'e', 'l', 'd']);
        }
        let q = match self.keyword(p, "yield") {
            Some(q) => q,
            None => {
                return None;
            },
        };
        let r = match self.ws1(q) {
            Some(r) => r,
            None => {
                return None;
            },
        };
        match self.expr(r) {
            Some((e, r2)) => {
                let st = Expr::Yield(Box::new(e));
                assert(st@ == ast::SpecExpr::Yield(Box::new(e@)));
                Some((st, r2))
            },
            None => None,
        }
    }

    /// `return e`, `yield e`, `alloc x`, `while`, `x = e` or an expression.
    fn stmt_body(&self, p: usize) -> (r: Option<(Expr, usize)>)
        requires
            self.wf(),
            p <= self.s().len(),
        ensures
            res(r) == sp_stmt_body(self.s(), p as int),
            within(r, p as int, self.s().len() as int),
        decreases self.s().len() - p, 8int,
    {
        if let Some(x) = self.return_stmt(p) {
            return Some(x);
        }
        if let Some(x) = self.yield_stmt(p) {
            return Some(x);
        }
        self.stmt_body_rest(p)
    }

    /// `alloc x`, `while`, `x = e` or an expression.
    fn stmt_body_rest(&self, p: usize) -> (r: Option<(Expr, usize)>)
        requires
            self.wf(),
            p <= self.s().len(),
        ensures
            res(r) == sp_stmt_body_rest(self.s(), p as int),
            within(r, p as int, self.s().len() as int),
        decreases self.s().len() - p, 7int,
    {
        if let Some(r) = self.alloc_stmt(p) {
            return Some(r);
        }
        if let Some(r) = self.while_expr(p) {
            return Some(r);
        }
        if let Some(r) = self.assign(p) {
            return Some(r);
        }
        self.expr(p)
    }

    /// `alloc x`.
    fn alloc_stmt(&self, p: usize) -> (r: Option<(Expr, usize)>)
        requires
            self.wf(),
            p <= self.s().len(),
        ensures
            res(r) == sp_alloc(self.s(), p as int),
            within(r, p as int, self.s().len() as int),
    {
        proof {
            reveal_strlit("alloc");
            assert("alloc"@ =~= seq!['a', 'l', 'l', 'o', 'c']);
        }
        let q = match self.keyword(p, "alloc") {
            Some(q) => q,
            None => {
                return None;
            },
        };
        let r = match self.ws1(q) {
            Some(r) => r,
            None => {
                return None;
            },
        };
        match self.ident(r) {
            Some((name, r2)) => Some((Expr::Alloc(name), r2)),
            None => None,
        }
    }

    /// `while (cond) block`.
    fn while_expr(&self, p: usize) -> (r: Option<(Expr, usize)>)
        requires
            self.wf(),
            p <= self.s().len(),
        ensures
            res(r) == sp_while(self.s(), p as int),
            within(r, p as int, self.s().len() as int),
        decreases self.s().len() - p, 0int,
    {
        proof {
            reveal_strlit("while");
            assert("while"@ =~= seq!['w', 'h', 'i', 'l', 'e']);
        }
        let q = match self.keyword(p, "while") {
            Some(q) => q,
            None => {
                return None;
            },
        };
        let q1 = self.skip_ws(q);
        if !self.at(q1, '(') {
            return None;
        }
        let q2 = self.skip_ws(q1 + 1);
        let (c, q3) = match self.expr(q2) {
            Some(x) => x,
            None => {
                return None;
            },
        };
        let q4 = self.skip_ws(q3);
        if !self.at(q4, ')') {
            return None;
        }
        let q5 = self.skip_ws(q4 + 1);
        if q5 <= p {
            return None;
        }
        match self.block(q5) {
            Some((b, q6)) => Some((Expr::While(Box::new(c), b), q6)),
            None => None,
        }
    }

    /// `x = e`.
    #[verifier::rlimit(40)]
    fn assign(&self, p: usize) -> (r: Option<(Expr, usize)>)
        requires
            self.wf(),
            p <= self.s().len(),
        ensures
            res(r) == sp_assign(self.s(), p as int),
            within(r, p as int, self.s().len() as int),
        decreases self.s().len() - p, 0int,
    {
        let (name, q) = match self.ident(p) {
            Some(x) => x,
            None => {
                return None;
            },
        };
        let q1 = self.skip_ws(q);
        if self.at(q1, '=') && !self.at(q1 + 1, '=') {
            let q2 = self.skip_ws(q1 + 1);
            match self.expr(q2) {
                Some((e, q3)) => {
                    let st = Expr::Assign(name, Box::new(e));
                    assert(st@ == ast::SpecExpr::Assign(sp_ident(self.s(), p as int).unwrap().0, Box::new(e@)));
                    Some((st, q3))
                },
                None => None,
            }
        } else {
            None
        }
    }
}

} // verus!

verus! {

/// View of a parse result that is a list of parameters.
pub open spec fn res_params(r: Option<(Vec<Param>, usize)>) -> Option<(Seq<ast::SpecParam>, int)> {
    match r {
        Some((v, q)) => Some((ast::params_view(v@), q as int)),
        None => None,
    }
}

/// View of a parse result that is the modifiers of an extern.
pub open spec fn res_mods(r: Option<((bool, bool), usize)>) -> Option<((bool, bool), int)> {
    match r {
        Some((v, q)) => Some((v, q as int)),
        None => None,
    }
}

/// The result of parsing a program: its declarations, or the position at
/// which the parser stopped.
pub struct ParseError {
    pub offset: usize,
}

impl<'a> Input<'a> {
    /// `ty ws+ name`.
    fn param(&self, p: usize) -> (r: Option<(Param, usize)>)
        requires
            self.wf(),
            p <= self.s().len(),
        ensures
            res(r) == sp_param(self.s(), p as int),
            within(r, p as int, self.s().len() as int),
    {
        let (ty, q) = match self.ty(p) {
            Some(x) => x,
            None => {
                return None;
            },
        };
        let r = match self.ws1(q) {
            Some(r) => r,
            None => {
                return None;
            },
        };
        match self.ident(r) {
            Some((name, r2)) => Some((Param { ty, name }, r2)),
            None => None,
        }
    }

    /// `(params)`.
    fn param_list(&self, p: usize) -> (r: Option<(Vec<Param>, usize)>)
        requires
            self.wf(),
            p <= self.s().len(),
        ensures
            res_params(r) == sp_param_list(self.s(), p as int),
            within(r, p as int, self.s().len() as int),
    {
        if !self.at(p, '(') {
            return None;
        }
        let q = self.skip_ws(p + 1);
        match self.param(q) {
            Some((first, q1)) => {
                let mut acc: Vec<Param> = Vec::new();
                acc.push(first);
                assert(ast::params_view(acc@) =~= seq![first@]);
                let (ps, q2) = match self.params_rest(q1, acc) {
                    Some(x) => x,
                    None => {
                        return None;
                    },
                };
                let q3 = self.skip_ws(q2);
                if self.at(q3, ')') {
                    Some((ps, q3 + 1))
                } else {
                    None
                }
            },
            None => {
                if self.at(q, ')') {
                    let v: Vec<Param> = Vec::new();
                    assert(ast::params_view(v@) =~= Seq::<ast::SpecParam>::empty());
                    Some((v, q + 1))
                } else {
                    None
                }
            },
        }
    }

    fn params_rest(&self, p: usize, acc: Vec<Param>) -> (r: Option<(Vec<Param>, usize)>)
        requires
            self.wf(),
            p <= self.s().len(),
        ensures
            res_params(r) == sp_params_rest(self.s(), p as int, ast::params_view(acc@)),
            within(r, p as int, self.s().len() as int),
        decreases self.s().len() - p,
    {
        let q = self.skip_ws(p);
        if !self.at(q, ',') {
            return Some((acc, p));
        }
        let r = self.skip_ws(q + 1);
        match self.param(r) {
            Some((prm, r2)) => {
                if r2 <= p {
                    return None;
                }
                let mut acc = acc;
                let ghost before = acc@;
                acc.push(prm);
                assert(ast::params_view(acc@) =~= ast::params_view(before).push(prm@));
                self.params_rest(r2, acc)
            },
            None => Some((acc, p)),
        }
    }

    fn modifier(&self, p: usize) -> (r: Option<((bool, bool), usize)>)
        requires
            self.wf(),
            p <= self.s().len(),
        ensures
            res_mods(r) == sp_modifier(self.s(), p as int),
            within(r, p as int, self.s().len() as int),
    {
        proof {
            reveal_strlit("async");
            reveal_strlit("internal");
            assert("async"@ =~= seq!['a', 's', 'y', 'n', 'c']);
            assert("internal"@ =~= seq!['i', 'n', 't', 'e', 'r', 'n', 'a', 'l']);
        }
        if let Some(q) = self.keyword(p, "async") {
            return Some(((true, false), q));
        }
        match self.keyword(p, "internal") {
            Some(q) => Some(((false, true), q)),
            None => None,
        }
    }

    fn modifiers_rest(&self, p: usize, acc: (bool, bool)) -> (r: Option<((bool, bool), usize)>)
        requires
            self.wf(),
            p <= self.s().len(),
        ensures
            res_mods(r) == sp_modifiers_rest(self.s(), p as int, acc),
            within(r, p as int, self.s().len() as int),
        decreases self.s().len() - p,
    {
        let q = self.skip_ws(p);
        if !self.at(q, ',') {
            return Some((acc, p));
        }
        let r = self.skip_ws(q + 1);
        match self.modifier(r) {
            Some((m, r2)) => {
                if r2 <= p {
                    return None;
                }
                self.modifiers_rest(r2, (acc.0 || m.0, acc.1 || m.1))
            },
            None => Some((acc, p)),
        }
    }

    fn modifier_list(&self, p: usize) -> (r: Option<((bool, bool), usize)>)
        requires
            self.wf(),
            p <= self.s().len(),
        ensures
            res_mods(r) == sp_modifier_list(self.s(), p as int),
            within(r, p as int, self.s().len() as int),
    {
        let q = self.skip_ws(p);
        if !self.at(q, '(') {
            return Some(((false, false), p));
        }
        let r = self.skip_ws(q + 1);
        let (m, r1) = match self.modifier(r) {
            Some(x) => x,
            None => {
                return None;
            },
        };
        let (ms, r2) = match self.modifiers_rest(r1, m) {
            Some(x) => x,
            None => {
                return None;
            },
        };
        let r3 = self.skip_ws(r2);
        if self.at(r3, ')') {
            Some((ms, r3 + 1))
        } else {
            None
        }
    }

    /// `ws -> ws ty`.
    fn ret_ty(&self, p: usize) -> (r: Option<(Ty, usize)>)
        requires
            self.wf(),
            p <= self.s().len(),
        ensures
            res(r) == sp_ret_ty(self.s(), p as int),
            within(r, p as int, self.s().len() as int),
    {
        proof {
            reveal_strlit("->");
            assert("->"@ =~= seq!['-', '>']);
        }
        let q = self.skip_ws(p);
        if !self.tag(q, "->") {
            return None;
        }
        self.ty(self.skip_ws(q + 2))
    }

    /// `extern[(modifiers)] name(params) -> ty;`.
    fn extern_decl(&self, p: usize) -> (r: Option<(Extern, usize)>)
        requires
            self.wf(),
            p <= self.s().len(),
        ensures
            res(r) == sp_extern(self.s(), p as int),
            within(r, p as int, self.s().len() as int),
    {
        proof {
            reveal_strlit("extern");
            assert("extern"@ =~= seq!['e', 'x', 't', 'e', 'r', 'n']);
        }
        let q = match self.keyword(p, "extern") {
            Some(q) => q,
            None => {
                return None;
            },
        };
        let ((is_async, is_internal), q1) = match self.modifier_list(q) {
            Some(x) => x,
            None => {
                return None;
            },
        };
        let q2 = match self.ws1(q1) {
            Some(x) => x,
            None => {
                return None;
            },
        };
        let (name, q3) = match self.ident(q2) {
            Some(x) => x,
            None => {
                return None;
            },
        };
        let (params, q4) = match self.param_list(q3) {
            Some(x) => x,
            None => {
                return None;
            },
        };
        let (ret_ty, q5) = match self.ret_ty(q4) {
            Some(x) => x,
            None => {
                return None;
            },
        };
        let q6 = self.skip_ws(q5);
        if self.at(q6, ';') {
            Some((Extern { is_async, is_internal, name, params, ret_ty, offset: p }, q6 + 1))
        } else {
            None
        }
    }

    /// `fun name(params) -> ty block`.
    fn function_decl(&self, p: usize) -> (r: Option<(Function, usize)>)
        requires
            self.wf(),
            p <= self.s().len(),
        ensures
            res(r) == sp_function(self.s(), p as int),
            within(r, p as int, self.s().len() as int),
    {
        proof {
            reveal_strlit("fun");
            assert("fun"@ =~= seq!['f', 'u', 'n']);
        }
        let q = match self.keyword(p, "fun") {
            Some(q) => q,
            None => {
                return None;
            },
        };
        let q1 = match self.ws1(q) {
            Some(x) => x,
            None => {
                return None;
            },
        };
        let (name, q2) = match self.ident(q1) {
            Some(x) => x,
            None => {
                return None;
            },
        };
        let (params, q3) = match self.param_list(q2) {
            Some(x) => x,
            None => {
                return None;
            },
        };
        let (ret_ty, q4) = match self.ret_ty(q3) {
            Some(x) => x,
            None => {
                return None;
            },
        };
        match self.block(self.skip_ws(q4)) {
            Some((body_stmts, q5)) => Some((Function { name, params, ret_ty, body_stmts, offset: p }, q5)),
            None => None,
        }
    }

    /// An extern or a function.
    fn decl(&self, p: usize) -> (r: Option<(Declaration, usize)>)
        requires
            self.wf(),
            p <= self.s().len(),
        ensures
            res(r) == sp_decl(self.s(), p as int),
            within(r, p as int, self.s().len() as int),
    {
        if let Some((e, q)) = self.extern_decl(p) {
            return Some((Declaration::Extern(e), q));
        }
        match self.function_decl(p) {
            Some((f, q)) => Some((Declaration::Function(f), q)),
            None => None,
        }
    }

    /// The declarations from `p` on.
    fn decls(&self, p: usize, acc: Vec<Declaration>) -> (r: (Vec<Declaration>, usize))
        requires
            self.wf(),
            p <= self.s().len(),
        ensures
            (ast::decls_view(r.0@), r.1 as int) == sp_decls(self.s(), p as int, ast::decls_view(acc@)),
            r.1 <= self.s().len(),
        decreases self.s().len() - p,
    {
        let c = self.skip_comments(p);
        match self.decl(c) {
            Some((d, q)) => {
                if q <= p {
                    return (acc, c);
                }
                let mut acc = acc;
                let ghost before = acc@;
                acc.push(d);
                assert(ast::decls_view(acc@) =~= ast::decls_view(before).push(d@));
                self.decls(q, acc)
            },
            None => (acc, c),
        }
    }
}

/// View of the result of `parse`.
pub open spec fn parse_result_view(r: Result<ast::Program, ParseError>) -> Result<Seq<ast::SpecDeclaration>, int> {
    match r {
        Ok(p) => Ok(ast::decls_view(p@)),
        Err(e) => Err(e.offset as int),
    }
}

/// Parses a Milika program: its declarations, or the position (in
/// characters) where the parser stopped.
pub fn parse(src: &str) -> (r: Result<ast::Program, ParseError>)
    ensures
        parse_result_view(r) == spec_parse(src@),
{
    let input = Input::new(src);
    let acc: Vec<Declaration> = Vec::new();
    assert(ast::decls_view(acc@) =~= Seq::<ast::SpecDeclaration>::empty());
    let (decls, p) = input.decls(0, acc);
    let q = input.skip_ws(p);
    if q == input.len() {
        Ok(decls)
    } else {
        Err(ParseError { offset: q })
    }
}

} // verus!
