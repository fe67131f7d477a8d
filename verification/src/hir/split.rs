//! HIR whose functions are grouped by the function of the source they were
//! split from.
use crate::error::Error;
use crate::hir::model::{externs_view, funcs_view, SpecExtern, SpecFunction, SpecProgram};
use crate::hir::{self, Extern, Function};
use vstd::prelude::*;

verus! {

broadcast use vstd::std_specs::vec::group_vec_axioms;

/// Functions grouped by the original function; no two functions have the
/// same name. A group holds one function when the original is synchronous.
pub struct Program {
    pub externs: Vec<Extern>,
    pub funcs: Vec<Vec<Function>>,
}

/// Model of `Program`.
pub struct SpecSplitProgram {
    pub externs: Seq<SpecExtern>,
    pub funcs: Seq<Seq<SpecFunction>>,
}

pub open spec fn groups_view(s: Seq<Vec<Function>>) -> Seq<Seq<SpecFunction>> {
    s.map_values(|g: Vec<Function>| funcs_view(g@))
}

impl View for Program {
    type V = SpecSplitProgram;

    open spec fn view(&self) -> SpecSplitProgram {
        SpecSplitProgram { externs: externs_view(self.externs@), funcs: groups_view(self.funcs@) }
    }
}

/// The names of the functions of all the groups, in order.
pub open spec fn all_names(groups: Seq<Seq<SpecFunction>>) -> Seq<Seq<char>>
    decreases groups.len(),
{
    if groups.len() == 0 {
        Seq::empty()
    } else {
        all_names(groups.drop_last()) + groups.last().map_values(|f: SpecFunction| f.name)
    }
}

/// No two functions of the groups have the same name.
pub open spec fn uniq_names(groups: Seq<Seq<SpecFunction>>) -> bool {
    all_names(groups).no_duplicates()
}

/// The names of the functions of all the groups.
fn collect_names(funcs: &Vec<Vec<Function>>) -> (r: Vec<String>)
    ensures
        r@.map_values(|s: String| s@) == all_names(groups_view(funcs@)),
{
    let ghost gv = groups_view(funcs@);
    let mut names: Vec<String> = Vec::new();
    let mut i: usize = 0;
    assert(gv.take(0) =~= Seq::<Seq<SpecFunction>>::empty());
    assert(names@.map_values(|s: String| s@) =~= Seq::<Seq<char>>::empty());
    while i < funcs.len()
        invariant
            i <= funcs.len(),
            gv == groups_view(funcs@),
            names@.map_values(|s: String| s@) == all_names(gv.take(i as int)),
        decreases funcs.len() - i,
    {
        let group = &funcs[i];
        let ghost before = names@.map_values(|s: String| s@);
        let mut j: usize = 0;
        assert(gv[i as int] == funcs_view(group@));
        while j < group.len()
            invariant
                i < funcs.len(),
                group == funcs@[i as int],
                j <= group.len(),
                names@.map_values(|s: String| s@) == before + funcs_view(group@).take(j as int).map_values(
                    |f: SpecFunction| f.name,
                ),
            decreases group.len() - j,
        {
            let ghost prev = names@;
            names.push(group[j].name.clone());
            assert(names@.map_values(|s: String| s@) =~= prev.map_values(|s: String| s@).push(group@[j as int]@.name));
            assert(funcs_view(group@).take(j + 1) =~= funcs_view(group@).take(j as int).push(group@[j as int]@));
            assert(funcs_view(group@).take(j + 1).map_values(|f: SpecFunction| f.name) =~= funcs_view(group@).take(
                j as int,
            ).map_values(|f: SpecFunction| f.name).push(group@[j as int]@.name));
            j += 1;
        }
        assert(funcs_view(group@).take(group.len() as int) =~= funcs_view(group@));
        assert(gv.take(i + 1).drop_last() =~= gv.take(i as int));
        assert(gv.take(i + 1).last() == funcs_view(group@));
        i += 1;
    }
    assert(gv.take(funcs.len() as int) =~= gv);
    names
}

/// Whether no two functions of the groups have the same name.
pub fn has_uniq_names(funcs: &Vec<Vec<Function>>) -> (r: bool)
    ensures
        r == uniq_names(groups_view(funcs@)),
{
    let names = collect_names(funcs);
    let ghost nv = names@.map_values(|s: String| s@);
    let mut i: usize = 0;
    while i < names.len()
        invariant
            i <= names.len(),
            nv == names@.map_values(|s: String| s@),
            nv == all_names(groups_view(funcs@)),
            forall|a: int, b: int| 0 <= a < i && 0 <= b < i && a != b ==> nv[a] != nv[b],
        decreases names.len() - i,
    {
        let mut j: usize = 0;
        while j < i
            invariant
                i < names.len(),
                j <= i,
                nv == names@.map_values(|s: String| s@),
                nv == all_names(groups_view(funcs@)),
                forall|a: int, b: int| 0 <= a < i && 0 <= b < i && a != b ==> nv[a] != nv[b],
                forall|b: int| 0 <= b < j ==> nv[i as int] != nv[b],
            decreases i - j,
        {
            if names[i].eq(&names[j]) {
                assert(nv[i as int] == nv[j as int]);
                assert(!nv.no_duplicates());
                return false;
            }
            j += 1;
        }
        i += 1;
    }
    true
}

impl Program {
    pub fn new(externs: Vec<Extern>, funcs: Vec<Vec<Function>>) -> (r: Program)
        requires
            uniq_names(groups_view(funcs@)),
        ensures
            r@ == (SpecSplitProgram { externs: externs_view(externs@), funcs: groups_view(funcs@) }),
    {
        Program { externs, funcs }
    }

    /// Puts each function of `hir_program` in a group of its own; fails when
    /// two functions have the same name.
    pub fn from_program(hir_program: hir::Program) -> (r: Result<Program, Error>)
        ensures
            uniq_names(hir_program@.funcs.map_values(|f: SpecFunction| seq![f])) ==> r is Ok && r->Ok_0@ == (
            SpecSplitProgram {
                externs: hir_program@.externs,
                funcs: hir_program@.funcs.map_values(|f: SpecFunction| seq![f]),
            }),
            !uniq_names(hir_program@.funcs.map_values(|f: SpecFunction| seq![f])) ==> r is Err,
    {
        let ghost p = hir_program@;
        let mut groups: Vec<Vec<Function>> = Vec::new();
        let mut fs = hir_program.funcs;
        let ghost n = fs.len();
        let ghost all = funcs_view(fs@);
        while fs.len() > 0
            invariant
                groups.len() + fs.len() == n,
                all.len() == n,
                funcs_view(fs@) == all.skip(groups.len() as int),
                groups_view(groups@) == all.take(groups.len() as int).map_values(|f: SpecFunction| seq![f]),
            decreases fs.len(),
        {
            let ghost k = groups.len() as int;
            let ghost before = fs@;
            assert(funcs_view(before)[0] == all.skip(k)[0]);
            let f = fs.remove(0);
            let mut g: Vec<Function> = Vec::new();
            g.push(f);
            assert(funcs_view(g@) =~= seq![all[k]]);
            let ghost old_groups = groups@;
            groups.push(g);
            assert(groups_view(groups@) =~= groups_view(old_groups).push(seq![all[k]]));
            assert(all.take(k + 1) =~= all.take(k).push(all[k]));
            assert(all.take(k + 1).map_values(|f: SpecFunction| seq![f]) =~= all.take(k).map_values(
                |f: SpecFunction| seq![f],
            ).push(seq![all[k]]));
            assert(funcs_view(fs@) =~= funcs_view(before).skip(1));
            assert(all.skip(k).skip(1) =~= all.skip(k + 1));
        }
        assert(all.take(n as int) =~= all);
        if has_uniq_names(&groups) {
            Ok(Program::new(hir_program.externs, groups))
        } else {
            Err(Error::new("function names are not unique"))
        }
    }
}

} // verus!
