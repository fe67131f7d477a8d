//! The compiler's passes, from the source text of a Milika program to the
//! blocked HIR that code generation takes.
use crate::error::Error;
use crate::hir::asyncness_check::spec_asyncness_check;
use crate::hir::blocked;
use crate::hir::model::{funcs_view, SpecExtern, SpecFunction, SpecProgram};
use crate::hir::split::{self, groups_view, uniq_names, SpecSplitProgram};
use crate::hir::typing::spec_typing;
use crate::hir::untyped::spec_create;
use crate::hir::{self, asyncness_check, typing, untyped};
use crate::hir_lowering::async_splitter::{self, flatten_groups, spec_async_splitter};
use crate::hir_lowering::lower_async_if::{self, spec_lower_async_if};
use crate::hir_lowering::lower_if::{self, spec_lower_if};
use crate::hir_verifier::{self, spec_verify};
use crate::parser::{self, spec_parse, ParseError};
use crate::{ast, strings::string_is};
use vstd::prelude::*;

verus! {

broadcast use vstd::std_specs::vec::group_vec_axioms;

/// Why a source could not be compiled.
pub enum CompileError {
    /// The parser stopped at this position (in characters).
    Parse(ParseError),
    /// A pass rejected the program.
    Pass(Error),
}

/// Each function in a group of its own.
pub open spec fn singleton_groups(fs: Seq<SpecFunction>) -> Seq<Seq<SpecFunction>> {
    fs.map_values(|f: SpecFunction| seq![f])
}

/// The passes after parsing: the untyped HIR, the asyncness of each
/// function, the types, the splitting of `if`s and of async functions.
pub open spec fn spec_passes(decls: Seq<ast::SpecDeclaration>) -> Option<SpecSplitProgram> {
    match spec_create(decls) {
        Some(p1) => match spec_typing(spec_asyncness_check(p1)) {
            Some(p2) => match spec_lower_async_if(p2) {
                Some(p3) => if uniq_names(singleton_groups(p3.funcs)) {
                    spec_async_splitter(SpecSplitProgram { externs: p3.externs, funcs: singleton_groups(p3.funcs) })
                } else {
                    None
                },
                None => None,
            },
            None => None,
        },
        None => None,
    }
}

/// Compiles a Milika source to split HIR.
pub fn compile(src: &str) -> (r: Result<split::Program, CompileError>)
    ensures
        match spec_parse(src@) {
            Err(offset) => r matches Err(CompileError::Parse(e)) && e.offset == offset,
            Ok(decls) => match spec_passes(decls) {
                Some(p) => r is Ok && r->Ok_0@ == p,
                None => r matches Err(CompileError::Pass(_)),
            },
        },
{
    let ast = match parser::parse(src) {
        Ok(ast) => ast,
        Err(e) => {
            return Err(CompileError::Parse(e));
        },
    };
    let mut hir = match untyped::create(&ast) {
        Ok(h) => h,
        Err(e) => {
            return Err(CompileError::Pass(e));
        },
    };
    asyncness_check::run(&mut hir);
    let hir = match typing::run(hir) {
        Ok(h) => h,
        Err(e) => {
            return Err(CompileError::Pass(e));
        },
    };
    let hir = match lower_async_if::run(hir) {
        Ok(h) => h,
        Err(e) => {
            return Err(CompileError::Pass(e));
        },
    };
    let ghost p3 = hir@;
    let shir = match split::Program::from_program(hir) {
        Ok(s) => s,
        Err(e) => {
            return Err(CompileError::Pass(e));
        },
    };
    assert(shir@ == SpecSplitProgram { externs: p3.externs, funcs: singleton_groups(p3.funcs) });
    match async_splitter::run(shir) {
        Ok(s) => Ok(s),
        Err(e) => Err(CompileError::Pass(e)),
    }
}

/// The first function named `chiika_main`, in the order of the groups.
pub open spec fn find_main(fs: Seq<SpecFunction>) -> Option<SpecFunction>
    decreases fs.len(),
{
    if fs.len() == 0 {
        None
    } else if fs[0].name == "chiika_main"@ {
        Some(fs[0])
    } else {
        find_main(fs.drop_first())
    }
}

/// Whether `chiika_main` was lowered to take a continuation, that is,
/// whether it calls async functions; an error when there is none.
pub fn main_is_async(hir: &split::Program) -> (r: Result<bool, Error>)
    ensures
        match find_main(flatten_groups(hir@.funcs)) {
            Some(f) => r == Ok::<bool, Error>(f.params.len() > 0),
            None => r is Err,
        },
{
    let ghost all = flatten_groups(hir@.funcs);
    let mut i: usize = 0;
    let ghost seen: Seq<SpecFunction> = Seq::empty();
    assert(flatten_groups(hir@.funcs.take(0)) =~= seen);
    assert(all.skip(0) =~= all);
    assert(all.take(0) =~= seen);
    while i < hir.funcs.len()
        invariant
            i <= hir.funcs.len(),
            all == flatten_groups(hir@.funcs),
            seen == flatten_groups(hir@.funcs.take(i as int)),
            find_main(all) == find_main(all.skip(seen.len() as int)),
            seen.len() <= all.len(),
            all.take(seen.len() as int) == seen,
        decreases hir.funcs.len() - i,
    {
        let group = &hir.funcs[i];
        let ghost g = funcs_view(group@);
        assert(hir@.funcs[i as int] == g);
        proof {
            lemma_flatten_take(hir@.funcs, i as int);
        }
        let mut j: usize = 0;
        while j < group.len()
            invariant
                i < hir.funcs.len(),
                group == hir.funcs@[i as int],
                g == funcs_view(group@),
                j <= group.len(),
                all == flatten_groups(hir@.funcs),
                seen == flatten_groups(hir@.funcs.take(i as int)),
                all.take((seen.len() + g.len()) as int) == seen + g,
                seen.len() + g.len() <= all.len(),
                find_main(all) == find_main(all.skip(seen.len() + j)),
            decreases group.len() - j,
        {
            let f = &group[j];
            assert(all.skip(seen.len() + j)[0] == all[seen.len() + j]);
            assert(all[seen.len() + j] == (seen + g)[seen.len() + j]);
            assert(g[j as int] == f@);
            assert(all.skip(seen.len() + j).drop_first() =~= all.skip(seen.len() + j + 1));
            proof {
                reveal_strlit("chiika_main");
            }
            if string_is(&f.name, "chiika_main") {
                // When chiika_main calls async function, it is lowered to take a continuation.
                return Ok(f.params.len() > 0);
            }
            j += 1;
        }
        proof {
            assert(hir@.funcs.take(i + 1).drop_last() =~= hir@.funcs.take(i as int));
            seen = seen + g;
        }
        i += 1;
    }
    assert(hir@.funcs.take(hir.funcs.len() as int) =~= hir@.funcs);
    assert(all.skip(seen.len() as int) =~= Seq::<SpecFunction>::empty());
    Err(Error::new("chiika_main not found"))
}

/// The functions of the first `k` groups, then those of group `k`, are a
/// prefix of the functions of all the groups.
proof fn lemma_flatten_take(gs: Seq<Seq<SpecFunction>>, k: int)
    requires
        0 <= k < gs.len(),
    ensures
        flatten_groups(gs.take(k)).len() + gs[k].len() <= flatten_groups(gs).len(),
        flatten_groups(gs).take((flatten_groups(gs.take(k)).len() + gs[k].len()) as int) == flatten_groups(gs.take(k)) + gs[k],
    decreases gs.len() - k,
{
    assert(gs.take(k + 1).drop_last() =~= gs.take(k));
    if k + 1 < gs.len() {
        lemma_flatten_take(gs, k + 1);
        let a = flatten_groups(gs.take(k + 1));
        assert(a == flatten_groups(gs.take(k)) + gs[k]);
        assert(flatten_groups(gs).take(a.len() as int) =~= a) by {
            let b = flatten_groups(gs.take(k + 1)) + gs[k + 1];
            assert(flatten_groups(gs).take(b.len() as int) == b);
            assert(b.take(a.len() as int) =~= a);
            assert(flatten_groups(gs).take(b.len() as int).take(a.len() as int) =~= flatten_groups(gs).take(a.len() as int));
        }
    } else {
        assert(gs.take(k + 1) =~= gs);
        assert(flatten_groups(gs) == flatten_groups(gs.take(k)) + gs[k]);
        assert(flatten_groups(gs).take(flatten_groups(gs).len() as int) =~= flatten_groups(gs));
    }
}

/// The program with the prelude: the externs of the prelude that are not
/// internal are added to the program's, and the prelude's functions follow
/// the program's.
pub open spec fn spec_link(main: SpecSplitProgram, prelude: SpecSplitProgram) -> Option<SpecSplitProgram> {
    let funcs = main.funcs + prelude.funcs;
    if uniq_names(funcs) {
        Some(
            SpecSplitProgram {
                externs: main.externs + prelude.externs.filter(|e: SpecExtern| !e.is_internal),
                funcs,
            },
        )
    } else {
        None
    }
}

/// Merges the prelude into the program; fails when a function name is
/// defined twice.
pub fn link_prelude(main: split::Program, prelude: split::Program) -> (r: Result<split::Program, Error>)
    ensures
        match spec_link(main@, prelude@) {
            Some(p) => r is Ok && r->Ok_0@ == p,
            None => r is Err,
        },
{
    let ghost pe = prelude@.externs;
    let mut externs = main.externs;
    let ghost base = hir::externs_view(externs@);
    let mut i: usize = 0;
    assert(pe.take(0).filter(|e: SpecExtern| !e.is_internal) =~= Seq::<SpecExtern>::empty());
    assert(hir::externs_view(externs@) =~= base + pe.take(0).filter(|e: SpecExtern| !e.is_internal));
    let mut rest = prelude.externs;
    let ghost n = rest.len();
    while rest.len() > 0
        invariant
            i + rest.len() == n,
            pe.len() == n,
            hir::externs_view(rest@) == pe.skip(i as int),
            hir::externs_view(externs@) == base + pe.take(i as int).filter(|e: SpecExtern| !e.is_internal),
        decreases rest.len(),
    {
        let ghost before = rest@;
        assert(hir::externs_view(before)[0] == pe.skip(i as int)[0]);
        let e = rest.remove(0);
        assert(e@ == pe[i as int]);
        assert(pe.take(i + 1) =~= pe.take(i as int).push(pe[i as int]));
        proof {
            pe.take(i as int).lemma_filter_push(pe[i as int], |e: SpecExtern| !e.is_internal);
        }
        if !e.is_internal {
            let ghost prev = externs@;
            externs.push(e);
            assert(hir::externs_view(externs@) =~= hir::externs_view(prev).push(pe[i as int]));
        }
        assert(hir::externs_view(rest@) =~= hir::externs_view(before).skip(1));
        assert(pe.skip(i as int).skip(1) =~= pe.skip(i + 1));
        i += 1;
    }
    assert(pe.take(n as int) =~= pe);
    let mut funcs = main.funcs;
    let mut more = prelude.funcs;
    let ghost f1 = groups_view(funcs@);
    let ghost f2 = groups_view(more@);
    funcs.append(&mut more);
    assert(groups_view(funcs@) =~= f1 + f2);
    if split::has_uniq_names(&funcs) {
        Ok(split::Program::new(externs, funcs))
    } else {
        Err(Error::new("function names are not unique after merging the prelude"))
    }
}

/// All the functions, in the order of the groups.
pub open spec fn flatten_program(p: SpecSplitProgram) -> SpecProgram {
    SpecProgram { externs: p.externs, funcs: flatten_groups(p.funcs) }
}

/// The blocked HIR of a program, checked for type consistency.
pub open spec fn spec_lower(p: SpecSplitProgram) -> Option<blocked::SpecProgram> {
    match spec_lower_if(flatten_program(p)) {
        Some(b) => if spec_verify(b) {
            Some(b)
        } else {
            None
        },
        None => None,
    }
}

/// Lowers the `if`s of a split program to blocks, then checks the type
/// consistency of the result.
pub fn lower_for_codegen(p: split::Program) -> (r: Result<blocked::Program, Error>)
    ensures
        match spec_lower(p@) {
            Some(b) => r is Ok && r->Ok_0@ == b,
            None => r is Err,
        },
{
    let ghost gv = p@.funcs;
    let mut groups = p.funcs;
    let mut funcs: Vec<hir::Function> = Vec::new();
    let ghost n = groups.len();
    let mut k: usize = 0;
    assert(gv.take(0) =~= Seq::<Seq<SpecFunction>>::empty());
    assert(funcs_view(funcs@) =~= flatten_groups(gv.take(0)));
    while groups.len() > 0
        invariant
            k + groups.len() == n,
            gv.len() == n,
            groups_view(groups@) == gv.skip(k as int),
            funcs_view(funcs@) == flatten_groups(gv.take(k as int)),
        decreases groups.len(),
    {
        let ghost before = groups@;
        assert(groups_view(before)[0] == gv.skip(k as int)[0]);
        let mut g = groups.remove(0);
        let ghost prev = funcs@;
        let ghost gview = funcs_view(g@);
        funcs.append(&mut g);
        assert(funcs_view(funcs@) =~= funcs_view(prev) + gview);
        assert(gv.take(k + 1).drop_last() =~= gv.take(k as int));
        assert(groups_view(groups@) =~= groups_view(before).skip(1));
        assert(gv.skip(k as int).skip(1) =~= gv.skip(k + 1));
        k += 1;
    }
    assert(gv.take(n as int) =~= gv);
    let program = hir::Program { externs: p.externs, funcs };
    let b = lower_if::run(program)?;
    match hir_verifier::run(&b) {
        Ok(()) => Ok(b),
        Err(e) => Err(e),
    }
}

} // verus!
