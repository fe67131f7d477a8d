//! The text form of the HIR, for inspecting the passes.
use crate::hir::model::{funcs_view, group_hir_model, texprs_view, tys_view, STyped, SpecCastType, SpecExpr, SpecExtern, SpecFunTy, SpecFunction, SpecParam, SpecProgram, SpecTy};
use crate::hir::split::{self, SpecSplitProgram};
use crate::hir::{self, cast_result_ty, Asyncness, CastType, Expr, Extern, FunTy, Function, Param, Program, PseudoVar, Ty, TypedExpr};
use crate::strings::{concat_str, decimal, decimal_string};
use vstd::prelude::*;

verus! {

broadcast use {vstd::std_specs::vec::group_vec_axioms, group_hir_model};

/// The text of a type: its name, or `(params)->ret` for a function type.
pub open spec fn ty_text(t: SpecTy) -> Seq<char>
    decreases t,
{
    match t {
        SpecTy::Unknown => "Unknown"@,
        SpecTy::Null => "Null"@,
        SpecTy::Void => "Void"@,
        SpecTy::Any => "Any"@,
        SpecTy::ChiikaEnv => "ChiikaEnv"@,
        SpecTy::RustFuture => "RustFuture"@,
        SpecTy::Int => "Int"@,
        SpecTy::Bool => "Bool"@,
        SpecTy::Fun(f) => "("@ + tys_text(f.param_tys) + ")->"@ + ty_text(*f.ret_ty),
    }
}

/// The texts of types, separated by `,`.
pub open spec fn tys_text(ts: Seq<SpecTy>) -> Seq<char>
    decreases ts,
{
    if ts.len() == 0 {
        Seq::empty()
    } else if ts.len() == 1 {
        ty_text(ts[0])
    } else {
        tys_text(ts.drop_last()) + ","@ + ty_text(ts.last())
    }
}

pub open spec fn fun_ty_text(f: SpecFunTy) -> Seq<char> {
    ty_text(SpecTy::Fun(f))
}

/// The mark of an asyncness: `[?]`, `[+]`, `[*]`, or nothing once lowered.
pub open spec fn asyncness_text(a: Asyncness) -> Seq<char> {
    match a {
        Asyncness::Unknown => "[?]"@,
        Asyncness::Sync => "[+]"@,
        Asyncness::Async => "[*]"@,
        Asyncness::Lowered => Seq::empty(),
    }
}

/// The decimal text of an integer.
pub open spec fn int_text(n: i64) -> Seq<char> {
    if n < 0 {
        seq!['-'] + decimal((-n) as nat)
    } else {
        decimal(n as nat)
    }
}

/// Can `e` be printed: is each callee that the text shows of a function type?
pub open spec fn printable(e: SpecExpr) -> bool
    decreases e,
{
    match e {
        SpecExpr::OpCall(_, l, r) => printable(l.0) && printable(r.0),
        SpecExpr::FunCall(f, args) => f.1 is Fun && printable(f.0) && printable_all(args),
        SpecExpr::If(c, t, f) => printable(c.0) && printable_all(t) && printable_all(f),
        SpecExpr::Yield(v) => printable(v.0),
        SpecExpr::While(c, b) => printable(c.0) && printable_all(b),
        SpecExpr::Assign(_, v) => printable(v.0),
        SpecExpr::Return(v) => printable(v.0),
        SpecExpr::Cast(_, v) => printable(v.0),
        SpecExpr::CondReturn(c, ft, _, ff, _) => ft.1 is Fun && ff.1 is Fun && printable(c.0) && printable(ft.0)
            && printable(ff.0),
        SpecExpr::Br(v, _) => printable(v.0),
        SpecExpr::CondBr(c, _, _) => printable(c.0),
        _ => true,
    }
}

/// Can each expression of the list be printed?
pub open spec fn printable_all(es: Seq<STyped>) -> bool
    decreases es,
{
    if es.len() == 0 {
        true
    } else {
        printable_all(es.drop_last()) && printable(es.last().0)
    }
}

pub proof fn lemma_printable_all(es: Seq<STyped>)
    ensures
        printable_all(es) <==> forall|i: int| 0 <= i < es.len() ==> printable(#[trigger] es[i].0),
    decreases es.len(),
{
    if es.len() > 0 {
        lemma_printable_all(es.drop_last());
        if printable_all(es) {
            assert forall|i: int| 0 <= i < es.len() implies printable(#[trigger] es[i].0) by {
                if i < es.len() - 1 {
                    assert(es.drop_last()[i] == es[i]);
                }
            }
        }
        if forall|i: int| 0 <= i < es.len() ==> printable(#[trigger] es[i].0) {
            assert forall|i: int| 0 <= i < es.drop_last().len() implies printable(#[trigger] es.drop_last()[i].0) by {
                assert(es.drop_last()[i] == es[i]);
            }
            assert(printable(es[es.len() - 1].0));
        }
    }
}

/// The text of an expression.
pub open spec fn expr_text(e: SpecExpr) -> Seq<char>
    decreases e,
{
    match e {
        SpecExpr::Number(n) => int_text(n),
        SpecExpr::PseudoVar(PseudoVar::True) => "true"@,
        SpecExpr::PseudoVar(PseudoVar::False) => "false"@,
        SpecExpr::PseudoVar(PseudoVar::Null) => "null"@,
        SpecExpr::LVarRef(name) => name,
        SpecExpr::ArgRef(idx) => "%arg_"@ + decimal(idx as nat),
        SpecExpr::FuncRef(name) => name,
        SpecExpr::OpCall(op, l, r) => "("@ + expr_text(l.0) + " "@ + op + " "@ + expr_text(r.0) + ")"@,
        SpecExpr::FunCall(f, args) => expr_text(f.0) + asyncness_text(f.1->Fun_0.asyncness) + "("@ + args_text(args)
            + ")"@,
        SpecExpr::If(c, t, f) => "if("@ + expr_text(c.0) + "){\n"@ + lines_text("    "@, t) + "  }"@ + if f.len() == 0 {
            Seq::empty()
        } else {
            " else {\n"@ + lines_text("    "@, f) + "  }"@
        },
        SpecExpr::Yield(v) => "yield "@ + expr_text(v.0) + "  # "@ + ty_text(v.1),
        SpecExpr::While(c, b) => "while "@ + expr_text(c.0) + " {\n"@ + lines_text("  "@, b) + "}"@,
        SpecExpr::Alloc(name) => "alloc "@ + name,
        SpecExpr::Assign(name, v) => name + " = "@ + expr_text(v.0),
        SpecExpr::Return(v) => "return "@ + expr_text(v.0) + "  # "@ + ty_text(v.1),
        SpecExpr::Cast(ct, v) => "("@ + expr_text(v.0) + " as "@ + ty_text(cast_result_ty(ct)) + ")"@,
        SpecExpr::CondReturn(c, ft, _, ff, _) => "cond_return "@ + expr_text(c.0) + ", "@ + expr_text(ft.0)
            + asyncness_text(ft.1->Fun_0.asyncness) + "(...), "@ + expr_text(ff.0) + asyncness_text(
            ff.1->Fun_0.asyncness,
        ) + "(...)"@,
        SpecExpr::Br(v, target) => "%br ^bb"@ + decimal(target as nat) + "("@ + expr_text(v.0) + ")  # "@ + ty_text(
            v.1,
        ),
        SpecExpr::CondBr(c, t, f) => "%cond_br "@ + expr_text(c.0) + " ^bb"@ + decimal(t as nat) + " ^bb"@ + decimal(
            f as nat,
        ),
        SpecExpr::BlockArgRef => "%block_arg"@,
    }
}

/// The texts of arguments, separated by `, `.
pub open spec fn args_text(args: Seq<STyped>) -> Seq<char>
    decreases args,
{
    if args.len() == 0 {
        Seq::empty()
    } else if args.len() == 1 {
        expr_text(args[0].0)
    } else {
        args_text(args.drop_last()) + ", "@ + expr_text(args.last().0)
    }
}

/// One line for each statement: `indent`, its text and a newline.
pub open spec fn lines_text(indent: Seq<char>, stmts: Seq<STyped>) -> Seq<char>
    decreases stmts,
{
    if stmts.len() == 0 {
        Seq::empty()
    } else {
        lines_text(indent, stmts.drop_last()) + indent + expr_text(stmts.last().0) + "\n"@
    }
}

/// `type name`.
pub open spec fn param_text(p: SpecParam) -> Seq<char> {
    ty_text(p.ty) + " "@ + p.name
}

/// The texts of parameters, separated by `, `.
pub open spec fn params_text(ps: Seq<SpecParam>) -> Seq<char>
    decreases ps.len(),
{
    if ps.len() == 0 {
        Seq::empty()
    } else if ps.len() == 1 {
        param_text(ps[0])
    } else {
        params_text(ps.drop_last()) + ", "@ + param_text(ps.last())
    }
}

/// `extern(async)(internal) name(params) -> ret;` and a newline.
pub open spec fn extern_text(e: SpecExtern) -> Seq<char> {
    "extern"@ + (if e.is_async {
        "(async)"@
    } else {
        Seq::empty()
    }) + (if e.is_internal {
        "(internal)"@
    } else {
        Seq::empty()
    }) + " "@ + e.name + "("@ + params_text(e.params) + ") -> "@ + ty_text(e.ret_ty) + ";\n"@
}

/// The statements of a function body, one per line with its type.
pub open spec fn body_text(stmts: Seq<STyped>) -> Seq<char>
    decreases stmts.len(),
{
    if stmts.len() == 0 {
        Seq::empty()
    } else {
        body_text(stmts.drop_last()) + "  "@ + expr_text(stmts.last().0) + "  #-> "@ + ty_text(stmts.last().1)
            + "\n"@
    }
}

/// `fun. name[*](params) -> ret {`, the body, and `}`.
pub open spec fn function_text(f: SpecFunction) -> Seq<char> {
    "fun"@ + (if f.generated {
        "."@
    } else {
        Seq::empty()
    }) + " "@ + f.name + asyncness_text(f.asyncness) + "("@ + params_text(f.params) + ") -> "@ + ty_text(f.ret_ty)
        + " {\n"@ + body_text(f.body_stmts) + "}\n"@
}

pub open spec fn externs_text(es: Seq<SpecExtern>) -> Seq<char>
    decreases es.len(),
{
    if es.len() == 0 {
        Seq::empty()
    } else {
        externs_text(es.drop_last()) + extern_text(es.last())
    }
}

pub open spec fn functions_text(fs: Seq<SpecFunction>) -> Seq<char>
    decreases fs.len(),
{
    if fs.len() == 0 {
        Seq::empty()
    } else {
        functions_text(fs.drop_last()) + function_text(fs.last())
    }
}

/// The externs, then the functions.
pub open spec fn program_text(p: SpecProgram) -> Seq<char> {
    externs_text(p.externs) + functions_text(p.funcs)
}

/// Can every statement of every function be printed?
pub open spec fn program_printable(p: SpecProgram) -> bool {
    forall|i: int| 0 <= i < p.funcs.len() ==> printable_all(#[trigger] p.funcs[i].body_stmts)
}

/// The functions of each group, group by group.
pub open spec fn groups_text(gs: Seq<Seq<SpecFunction>>) -> Seq<char>
    decreases gs.len(),
{
    if gs.len() == 0 {
        Seq::empty()
    } else {
        groups_text(gs.drop_last()) + functions_text(gs.last())
    }
}

/// Can every statement of every function of every group be printed?
pub open spec fn groups_printable(gs: Seq<Seq<SpecFunction>>) -> bool {
    forall|i: int, j: int| 0 <= i < gs.len() && 0 <= j < gs[i].len() ==> printable_all(#[trigger] gs[i][j].body_stmts)
}

/// The externs, then the functions of each group.
pub open spec fn split_program_text(p: SpecSplitProgram) -> Seq<char> {
    externs_text(p.externs) + groups_text(p.funcs)
}

} // verus!

verus! {

impl Ty {
    /// The text of this type.
    pub fn to_string(&self) -> (r: String)
        ensures
            r@ == ty_text(self@),
        decreases self,
    {
        proof {
            reveal_strlit("Unknown");
            reveal_strlit("Null");
            reveal_strlit("Void");
            reveal_strlit("Any");
            reveal_strlit("ChiikaEnv");
            reveal_strlit("RustFuture");
            reveal_strlit("Int");
            reveal_strlit("Bool");
        }
        match self {
            Ty::Unknown => String::from_str("Unknown"),
            Ty::Null => String::from_str("Null"),
            Ty::Void => String::from_str("Void"),
            Ty::Any => String::from_str("Any"),
            Ty::ChiikaEnv => String::from_str("ChiikaEnv"),
            Ty::RustFuture => String::from_str("RustFuture"),
            Ty::Int => String::from_str("Int"),
            Ty::Bool => String::from_str("Bool"),
            Ty::Fun(f) => f.to_string(),
        }
    }
}

impl FunTy {
    /// `(params)->ret`.
    pub fn to_string(&self) -> (r: String)
        ensures
            r@ == fun_ty_text(self@),
        decreases self,
    {
        let s = String::from_str("(");
        let p = tys_to_string(&self.param_tys);
        let s = concat_str(&s, p.as_str());
        let s = concat_str(&s, ")->");
        let t = self.ret_ty.to_string();
        let s = concat_str(&s, t.as_str());
        assert(s@ =~= fun_ty_text(self@));
        s
    }
}

/// The texts of types, separated by `,`.
fn tys_to_string(ts: &Vec<Ty>) -> (r: String)
    ensures
        r@ == tys_text(tys_view(ts@)),
    decreases ts,
{
    let ghost tv = tys_view(ts@);
    let mut s = String::new();
    let mut i: usize = 0;
    assert(tv.take(0) =~= Seq::<SpecTy>::empty());
    while i < ts.len()
        invariant
            i <= ts.len(),
            tv == tys_view(ts@),
            s@ == tys_text(tv.take(i as int)),
        decreases ts.len() - i,
    {
        assert(decreases_to!(ts => ts@[i as int]));
        let t = ts[i].to_string();
        assert(tv.take(i + 1).drop_last() =~= tv.take(i as int));
        if i == 0 {
            s = t;
            assert(tv.take(1)[0] == tv[0]);
        } else {
            s = concat_str(&s, ",");
            s = concat_str(&s, t.as_str());
        }
        i += 1;
    }
    assert(tv.take(ts.len() as int) =~= tv);
    s
}

impl Asyncness {
    /// The mark of this asyncness.
    pub fn to_string(&self) -> (r: String)
        ensures
            r@ == asyncness_text(*self),
    {
        proof {
            reveal_strlit("[?]");
            reveal_strlit("[+]");
            reveal_strlit("[*]");
        }
        match self {
            Asyncness::Unknown => String::from_str("[?]"),
            Asyncness::Sync => String::from_str("[+]"),
            Asyncness::Async => String::from_str("[*]"),
            Asyncness::Lowered => String::new(),
        }
    }
}

/// The decimal text of an integer.
fn int_to_string(n: i64) -> (r: String)
    ensures
        r@ == int_text(n),
{
    if n < 0 {
        let m = (-(n as i128)) as u64;
        let d = crate::strings::decimal_u64(m);
        proof {
            reveal_strlit("-");
        }
        let s = String::from_str("-");
        let s = concat_str(&s, d.as_str());
        assert(s@ =~= int_text(n));
        s
    } else {
        crate::strings::decimal_u64(n as u64)
    }
}

} // verus!

verus! {

/// `base` followed by the text of `s`.
fn append(base: String, s: &String) -> (r: String)
    ensures
        r@ == base@ + s@,
{
    concat_str(&base, s.as_str())
}

impl Expr {
    /// Whether the text of this expression can be made: each callee it
    /// shows has a function type.
    pub fn is_printable(&self) -> (r: bool)
        ensures
            r == printable(self@),
        decreases self,
    {
        match self {
            Expr::OpCall(_, lhs, rhs) => lhs.0.is_printable() && rhs.0.is_printable(),
            Expr::FunCall(f, args) => {
                match &f.1 {
                    Ty::Fun(_) => {},
                    _ => {
                        return false;
                    },
                }
                f.0.is_printable() && all_printable(args)
            },
            Expr::If(c, t, f) => c.0.is_printable() && all_printable(t) && all_printable(f),
            Expr::Yield(v) => v.0.is_printable(),
            Expr::While(c, b) => c.0.is_printable() && all_printable(b),
            Expr::Assign(_, v) => v.0.is_printable(),
            Expr::Return(v) => v.0.is_printable(),
            Expr::Cast(_, v) => v.0.is_printable(),
            Expr::CondReturn(c, ft, _, ff, _) => {
                match (&ft.1, &ff.1) {
                    (Ty::Fun(_), Ty::Fun(_)) => {},
                    _ => {
                        return false;
                    },
                }
                c.0.is_printable() && ft.0.is_printable() && ff.0.is_printable()
            },
            Expr::Br(v, _) => v.0.is_printable(),
            Expr::CondBr(c, _, _) => c.0.is_printable(),
            _ => true,
        }
    }

    /// The text of this expression.
    pub fn to_string(&self) -> (r: String)
        requires
            printable(self@),
        ensures
            r@ == expr_text(self@),
        decreases self,
    {
        let text = match self {
            Expr::Number(n) => int_to_string(*n),
            Expr::PseudoVar(PseudoVar::True) => String::from_str("true"),
            Expr::PseudoVar(PseudoVar::False) => String::from_str("false"),
            Expr::PseudoVar(PseudoVar::Null) => String::from_str("null"),
            Expr::LVarRef(name) => name.clone(),
            Expr::ArgRef(idx) => append(String::from_str("%arg_"), &decimal_string(*idx)),
            Expr::FuncRef(name) => name.clone(),
            Expr::OpCall(op, lhs, rhs) => {
                let s = append(String::from_str("("), &lhs.0.to_string());
                let s = append(concat_str(&s, " "), op);
                let s = append(concat_str(&s, " "), &rhs.0.to_string());
                concat_str(&s, ")")
            },
            Expr::FunCall(f, args) => {
                let a = match &f.1 {
                    Ty::Fun(ft) => ft.asyncness.to_string(),
                    _ => vstd::pervasive::unreached(),
                };
                let s = append(f.0.to_string(), &a);
                let s = append(concat_str(&s, "("), &args_to_string(args));
                concat_str(&s, ")")
            },
            Expr::If(c, t, f) => {
                let s = append(String::from_str("if("), &c.0.to_string());
                let s = append(concat_str(&s, "){\n"), &lines_to_string("    ", t));
                let s = concat_str(&s, "  }");
                if f.len() == 0 {
                    assert(texprs_view(f@).len() == 0);
                    s
                } else {
                    let s = append(concat_str(&s, " else {\n"), &lines_to_string("    ", f));
                    concat_str(&s, "  }")
                }
            },
            Expr::Yield(v) => {
                let s = append(String::from_str("yield "), &v.0.to_string());
                append(concat_str(&s, "  # "), &v.1.to_string())
            },
            Expr::While(c, b) => {
                let s = append(String::from_str("while "), &c.0.to_string());
                let s = append(concat_str(&s, " {\n"), &lines_to_string("  ", b));
                concat_str(&s, "}")
            },
            Expr::Alloc(name) => append(String::from_str("alloc "), name),
            Expr::Assign(name, v) => append(concat_str(name, " = "), &v.0.to_string()),
            Expr::Return(v) => {
                let s = append(String::from_str("return "), &v.0.to_string());
                append(concat_str(&s, "  # "), &v.1.to_string())
            },
            Expr::Cast(ct, v) => {
                let s = append(String::from_str("("), &v.0.to_string());
                let s = append(concat_str(&s, " as "), &ct.result_ty().to_string());
                concat_str(&s, ")")
            },
            Expr::CondReturn(c, ft, _, ff, _) => {
                let (at, af) = match (&ft.1, &ff.1) {
                    (Ty::Fun(t), Ty::Fun(f)) => (t.asyncness.to_string(), f.asyncness.to_string()),
                    _ => vstd::pervasive::unreached(),
                };
                let s = append(String::from_str("cond_return "), &c.0.to_string());
                let s = append(concat_str(&s, ", "), &ft.0.to_string());
                let s = append(s, &at);
                let s = append(concat_str(&s, "(...), "), &ff.0.to_string());
                let s = append(s, &af);
                concat_str(&s, "(...)")
            },
            Expr::Br(v, target) => {
                let s = append(String::from_str("%br ^bb"), &decimal_string(*target));
                let s = append(concat_str(&s, "("), &v.0.to_string());
                append(concat_str(&s, ")  # "), &v.1.to_string())
            },
            Expr::CondBr(c, t, f) => {
                let s = append(String::from_str("%cond_br "), &c.0.to_string());
                let s = append(concat_str(&s, " ^bb"), &decimal_string(*t));
                append(concat_str(&s, " ^bb"), &decimal_string(*f))
            },
            Expr::BlockArgRef => String::from_str("%block_arg"),
        };
        assert(text@ =~= expr_text(self@));
        text
    }
}

/// Whether each expression of the list can be printed.
fn all_printable(es: &Vec<TypedExpr>) -> (r: bool)
    ensures
        r == printable_all(texprs_view(es@)),
    decreases es,
{
    proof {
        lemma_printable_all(texprs_view(es@));
    }
    let mut i: usize = 0;
    while i < es.len()
        invariant
            i <= es.len(),
            forall|j: int| 0 <= j < i ==> printable(#[trigger] texprs_view(es@)[j].0),
        decreases es.len() - i,
    {
        assert(decreases_to!(es => es@[i as int]));
        if !es[i].0.is_printable() {
            assert(texprs_view(es@)[i as int].0 == es@[i as int].0@);
            proof {
                lemma_printable_all(texprs_view(es@));
            }
            return false;
        }
        i += 1;
    }
    proof {
        lemma_printable_all(texprs_view(es@));
    }
    true
}

/// The texts of arguments, separated by `, `.
fn args_to_string(args: &Vec<TypedExpr>) -> (r: String)
    requires
        printable_all(texprs_view(args@)),
    ensures
        r@ == args_text(texprs_view(args@)),
    decreases args,
{
    let ghost av = texprs_view(args@);
    proof {
        lemma_printable_all(av);
    }
    let mut s = String::new();
    let mut i: usize = 0;
    assert(av.take(0) =~= Seq::<STyped>::empty());
    while i < args.len()
        invariant
            i <= args.len(),
            av == texprs_view(args@),
            forall|i: int| 0 <= i < args.len() ==> printable(#[trigger] av[i].0),
            s@ == args_text(av.take(i as int)),
        decreases args.len() - i,
    {
        assert(decreases_to!(args => args@[i as int]));
        assert(av[i as int] == args@[i as int]@);
        assert(printable(av[i as int].0));
        let t = args[i].0.to_string();
        assert(av.take(i + 1).drop_last() =~= av.take(i as int));
        if i == 0 {
            s = t;
        } else {
            s = concat_str(&s, ", ");
            s = append(s, &t);
        }
        i += 1;
    }
    assert(av.take(args.len() as int) =~= av);
    s
}

/// One line for each statement: `indent`, its text and a newline.
fn lines_to_string(indent: &str, stmts: &Vec<TypedExpr>) -> (r: String)
    requires
        printable_all(texprs_view(stmts@)),
    ensures
        r@ == lines_text(indent@, texprs_view(stmts@)),
    decreases stmts,
{
    let ghost sv = texprs_view(stmts@);
    proof {
        lemma_printable_all(sv);
    }
    let mut s = String::new();
    let mut i: usize = 0;
    assert(sv.take(0) =~= Seq::<STyped>::empty());
    while i < stmts.len()
        invariant
            i <= stmts.len(),
            sv == texprs_view(stmts@),
            forall|i: int| 0 <= i < stmts.len() ==> printable(#[trigger] sv[i].0),
            s@ == lines_text(indent@, sv.take(i as int)),
        decreases stmts.len() - i,
    {
        assert(decreases_to!(stmts => stmts@[i as int]));
        assert(sv[i as int] == stmts@[i as int]@);
        assert(printable(sv[i as int].0));
        let t = stmts[i].0.to_string();
        assert(sv.take(i + 1).drop_last() =~= sv.take(i as int));
        s = concat_str(&s, indent);
        s = append(s, &t);
        s = concat_str(&s, "\n");
        i += 1;
    }
    assert(sv.take(stmts.len() as int) =~= sv);
    s
}

} // verus!

verus! {

impl Param {
    /// `type name`.
    pub fn to_string(&self) -> (r: String)
        ensures
            r@ == param_text(self@),
    {
        let s = concat_str(&self.ty.to_string(), " ");
        append(s, &self.name)
    }
}

/// The texts of parameters, separated by `, `.
fn params_to_string(ps: &Vec<Param>) -> (r: String)
    ensures
        r@ == params_text(hir::params_view(ps@)),
{
    let ghost pv = hir::params_view(ps@);
    let mut s = String::new();
    let mut i: usize = 0;
    assert(pv.take(0) =~= Seq::<SpecParam>::empty());
    while i < ps.len()
        invariant
            i <= ps.len(),
            pv == hir::params_view(ps@),
            s@ == params_text(pv.take(i as int)),
        decreases ps.len() - i,
    {
        let t = ps[i].to_string();
        assert(pv.take(i + 1).drop_last() =~= pv.take(i as int));
        assert(pv.take(i + 1).last() == ps@[i as int]@);
        if i == 0 {
            s = t;
        } else {
            s = concat_str(&s, ", ");
            s = append(s, &t);
        }
        i += 1;
    }
    assert(pv.take(ps.len() as int) =~= pv);
    s
}

impl Extern {
    /// `extern(async)(internal) name(params) -> ret;` and a newline.
    pub fn to_string(&self) -> (r: String)
        ensures
            r@ == extern_text(self@),
    {
        let mut s = String::from_str("extern");
        if self.is_async {
            s = concat_str(&s, "(async)");
        }
        if self.is_internal {
            s = concat_str(&s, "(internal)");
        }
        let s = append(concat_str(&s, " "), &self.name);
        let s = append(concat_str(&s, "("), &params_to_string(&self.params));
        let s = append(concat_str(&s, ") -> "), &self.ret_ty.to_string());
        let s = concat_str(&s, ";\n");
        assert(s@ =~= extern_text(self@));
        s
    }
}

impl Function {
    /// Whether every statement of the body can be printed.
    pub fn is_printable(&self) -> (r: bool)
        ensures
            r == printable_all(self@.body_stmts),
    {
        all_printable(&self.body_stmts)
    }

    /// `fun. name[*](params) -> ret {`, the body with the type of each
    /// statement, and `}`.
    pub fn to_string(&self) -> (r: String)
        requires
            printable_all(self@.body_stmts),
        ensures
            r@ == function_text(self@),
    {
        let mut s = String::from_str("fun");
        if self.generated {
            s = concat_str(&s, ".");
        }
        let s = append(concat_str(&s, " "), &self.name);
        let s = append(s, &self.asyncness.to_string());
        let s = append(concat_str(&s, "("), &params_to_string(&self.params));
        let s = append(concat_str(&s, ") -> "), &self.ret_ty.to_string());
        let mut s = concat_str(&s, " {\n");
        let ghost sv = texprs_view(self.body_stmts@);
        let ghost head = s@;
        proof {
            lemma_printable_all(sv);
        }
        let mut i: usize = 0;
        assert(sv.take(0) =~= Seq::<STyped>::empty());
        assert(s@ =~= head + body_text(sv.take(0)));
        while i < self.body_stmts.len()
            invariant
                i <= self.body_stmts.len(),
                sv == texprs_view(self.body_stmts@),
                forall|i: int| 0 <= i < sv.len() ==> printable(#[trigger] sv[i].0),
                s@ == head + body_text(sv.take(i as int)),
            decreases self.body_stmts.len() - i,
        {
            let e = &self.body_stmts[i];
            assert(sv[i as int] == e@);
            assert(printable(sv[i as int].0));
            s = concat_str(&s, "  ");
            s = append(s, &e.0.to_string());
            s = concat_str(&s, "  #-> ");
            s = append(s, &e.1.to_string());
            s = concat_str(&s, "\n");
            assert(sv.take(i + 1).drop_last() =~= sv.take(i as int));
            i += 1;
        }
        assert(sv.take(self.body_stmts.len() as int) =~= sv);
        let s = concat_str(&s, "}\n");
        assert(s@ =~= function_text(self@));
        s
    }
}

impl Program {
    /// Whether every function can be printed.
    pub fn is_printable(&self) -> (r: bool)
        ensures
            r == program_printable(self@),
    {
        let mut i: usize = 0;
        while i < self.funcs.len()
            invariant
                i <= self.funcs.len(),
                forall|j: int| 0 <= j < i ==> printable_all(#[trigger] self@.funcs[j].body_stmts),
            decreases self.funcs.len() - i,
        {
            assert(self@.funcs[i as int] == self.funcs@[i as int]@);
            if !self.funcs[i].is_printable() {
                return false;
            }
            i += 1;
        }
        true
    }

    /// The externs, then the functions.
    pub fn to_string(&self) -> (r: String)
        requires
            program_printable(self@),
        ensures
            r@ == program_text(self@),
    {
        let ghost p = self@;
        let mut s = String::new();
        let mut i: usize = 0;
        assert(p.externs.take(0) =~= Seq::<SpecExtern>::empty());
        while i < self.externs.len()
            invariant
                i <= self.externs.len(),
                p == self@,
                s@ == externs_text(p.externs.take(i as int)),
            decreases self.externs.len() - i,
        {
            s = append(s, &self.externs[i].to_string());
            assert(p.externs.take(i + 1).drop_last() =~= p.externs.take(i as int));
            assert(p.externs[i as int] == self.externs@[i as int]@);
            i += 1;
        }
        assert(p.externs.take(self.externs.len() as int) =~= p.externs);
        let ghost head = s@;
        let mut i: usize = 0;
        assert(p.funcs.take(0) =~= Seq::<SpecFunction>::empty());
        assert(s@ =~= head + functions_text(p.funcs.take(0)));
        while i < self.funcs.len()
            invariant
                i <= self.funcs.len(),
                p == self@,
                program_printable(p),
                s@ == head + functions_text(p.funcs.take(i as int)),
            decreases self.funcs.len() - i,
        {
            assert(p.funcs[i as int] == self.funcs@[i as int]@);
            assert(printable_all(p.funcs[i as int].body_stmts));
            s = append(s, &self.funcs[i].to_string());
            assert(p.funcs.take(i + 1).drop_last() =~= p.funcs.take(i as int));
            i += 1;
        }
        assert(p.funcs.take(self.funcs.len() as int) =~= p.funcs);
        s
    }
}

fn functions_to_string(funcs: &Vec<Function>) -> (r: String)
    requires
        forall|j: int| 0 <= j < funcs.len() ==> printable_all(#[trigger] funcs@[j]@.body_stmts),
    ensures
        r@ == functions_text(funcs_view(funcs@)),
{
    let ghost fs = funcs_view(funcs@);
    let mut s = String::new();
    let mut i: usize = 0;
    assert(fs.take(0) =~= Seq::<SpecFunction>::empty());
    while i < funcs.len()
        invariant
            i <= funcs.len(),
            fs == funcs_view(funcs@),
            forall|j: int| 0 <= j < funcs.len() ==> printable_all(#[trigger] funcs@[j]@.body_stmts),
            s@ == functions_text(fs.take(i as int)),
        decreases funcs.len() - i,
    {
        assert(printable_all(funcs@[i as int]@.body_stmts));
        s = append(s, &funcs[i].to_string());
        assert(fs.take(i + 1).drop_last() =~= fs.take(i as int));
        assert(fs[i as int] == funcs@[i as int]@);
        i += 1;
    }
    assert(fs.take(funcs.len() as int) =~= fs);
    s
}

impl split::Program {
    /// Whether every function of every group can be printed.
    pub fn is_printable(&self) -> (r: bool)
        ensures
            r == groups_printable(self@.funcs),
    {
        let mut i: usize = 0;
        while i < self.funcs.len()
            invariant
                i <= self.funcs.len(),
                forall|a: int, b: int|
                    0 <= a < i && 0 <= b < self@.funcs[a].len() ==> printable_all(#[trigger] self@.funcs[a][b].body_stmts),
            decreases self.funcs.len() - i,
        {
            let group = &self.funcs[i];
            assert(self@.funcs[i as int] == funcs_view(group@));
            let mut j: usize = 0;
            while j < group.len()
                invariant
                    i < self.funcs.len(),
                    j <= group.len(),
                    group == &self.funcs@[i as int],
                    self@.funcs[i as int] == funcs_view(group@),
                    forall|a: int, b: int|
                        0 <= a < i && 0 <= b < self@.funcs[a].len() ==> printable_all(
                            #[trigger] self@.funcs[a][b].body_stmts,
                        ),
                    forall|b: int| 0 <= b < j ==> printable_all(#[trigger] self@.funcs[i as int][b].body_stmts),
                decreases group.len() - j,
            {
                assert(self@.funcs[i as int][j as int] == group@[j as int]@);
                if !group[j].is_printable() {
                    return false;
                }
                j += 1;
            }
            i += 1;
        }
        true
    }

    /// The externs, then the functions of each group.
    pub fn to_string(&self) -> (r: String)
        requires
            groups_printable(self@.funcs),
        ensures
            r@ == split_program_text(self@),
    {
        let ghost p = self@;
        let mut s = String::new();
        let mut i: usize = 0;
        assert(p.externs.take(0) =~= Seq::<SpecExtern>::empty());
        while i < self.externs.len()
            invariant
                i <= self.externs.len(),
                p == self@,
                s@ == externs_text(p.externs.take(i as int)),
            decreases self.externs.len() - i,
        {
            s = append(s, &self.externs[i].to_string());
            assert(p.externs.take(i + 1).drop_last() =~= p.externs.take(i as int));
            assert(p.externs[i as int] == self.externs@[i as int]@);
            i += 1;
        }
        assert(p.externs.take(self.externs.len() as int) =~= p.externs);
        let ghost head = s@;
        let mut i: usize = 0;
        assert(p.funcs.take(0) =~= Seq::<Seq<SpecFunction>>::empty());
        assert(s@ =~= head + groups_text(p.funcs.take(0)));
        while i < self.funcs.len()
            invariant
                i <= self.funcs.len(),
                p == self@,
                groups_printable(p.funcs),
                s@ == head + groups_text(p.funcs.take(i as int)),
            decreases self.funcs.len() - i,
        {
            assert(p.funcs[i as int] == funcs_view(self.funcs@[i as int]@));
            assert forall|j: int| 0 <= j < self.funcs@[i as int].len() implies printable_all(
                #[trigger] self.funcs@[i as int]@[j]@.body_stmts,
            ) by {
                assert(p.funcs[i as int][j] == self.funcs@[i as int]@[j]@);
            }
            s = append(s, &functions_to_string(&self.funcs[i]));
            assert(p.funcs.take(i + 1).drop_last() =~= p.funcs.take(i as int));
            i += 1;
        }
        assert(p.funcs.take(self.funcs.len() as int) =~= p.funcs);
        s
    }
}

} // verus!
