//! Small string utilities used by the compiler passes.
use vstd::prelude::*;

verus! {

/// Does `s` hold exactly the characters of `lit`?
pub fn string_is(s: &String, lit: &str) -> (r: bool)
    ensures
        r == (s@ == lit@),
{
    let t: String = lit.to_owned();
    s.eq(&t)
}

} // verus!

verus! {

/// The set of the strings held by a list.
pub open spec fn name_set(v: Seq<String>) -> Set<Seq<char>> {
    v.map_values(|s: String| s@).to_set()
}

pub proof fn lemma_name_set_push(v: Seq<String>, s: String)
    ensures
        name_set(v.push(s)) == name_set(v).insert(s@),
{
    assert(v.push(s).map_values(|s: String| s@) =~= v.map_values(|s: String| s@).push(s@));
    assert(name_set(v.push(s)) =~= name_set(v).insert(s@)) by {
        assert forall|x: Seq<char>| name_set(v.push(s)).contains(x) implies name_set(v).insert(s@).contains(x) by {
            let m = v.push(s).map_values(|s: String| s@);
            assert(m.contains(x));
            let i = choose|i: int| 0 <= i < m.len() && m[i] == x;
            if i < v.len() {
                assert(v.map_values(|s: String| s@)[i] == x);
            }
        }
        assert forall|x: Seq<char>| name_set(v).insert(s@).contains(x) implies name_set(v.push(s)).contains(x) by {
            let m = v.push(s).map_values(|s: String| s@);
            if x == s@ {
                assert(m[v.len() as int] == x);
            } else {
                let m0 = v.map_values(|s: String| s@);
                assert(m0.contains(x));
                let i = choose|i: int| 0 <= i < m0.len() && m0[i] == x;
                assert(m[i] == x);
            }
        }
    }
}

pub proof fn lemma_name_set_empty()
    ensures
        name_set(Seq::<String>::empty()) == Set::<Seq<char>>::empty(),
{
    assert(name_set(Seq::<String>::empty()) =~= Set::<Seq<char>>::empty());
}

/// Is `name` one of the strings of `v`?
pub fn contains_name(v: &Vec<String>, name: &String) -> (r: bool)
    ensures
        r == name_set(v@).contains(name@),
{
    let mut i: usize = 0;
    while i < v.len()
        invariant
            i <= v.len(),
            forall|j: int| 0 <= j < i ==> v@[j]@ != name@,
        decreases v.len() - i,
    {
        if v[i].eq(name) {
            assert(v@.map_values(|s: String| s@)[i as int] == name@);
            return true;
        }
        i += 1;
    }
    proof {
        if name_set(v@).contains(name@) {
            let m = v@.map_values(|s: String| s@);
            let j = choose|j: int| 0 <= j < m.len() && m[j] == name@;
            assert(v@[j]@ == name@);
        }
    }
    false
}

} // verus!

verus! {

/// `base` followed by `suffix`.
pub fn concat_str(base: &String, suffix: &str) -> (r: String)
    ensures
        r@ == base@ + suffix@,
{
    base.clone().concat(suffix)
}

} // verus!

verus! {

/// The decimal digit for `d` (`0 <= d < 10`).
pub open spec fn digit_char(d: nat) -> char {
    (48 + d) as char
}

/// The decimal representation of `n`, without leading zeros.
pub open spec fn decimal(n: nat) -> Seq<char>
    decreases n,
{
    if n < 10 {
        seq![digit_char(n)]
    } else {
        decimal(n / 10).push(digit_char(n % 10))
    }
}

fn digit_str(d: usize) -> (r: &'static str)
    requires
        d < 10,
    ensures
        r@ == seq![digit_char(d as nat)],
{
    proof {
        reveal_strlit("0");
        reveal_strlit("1");
        reveal_strlit("2");
        reveal_strlit("3");
        reveal_strlit("4");
        reveal_strlit("5");
        reveal_strlit("6");
        reveal_strlit("7");
        reveal_strlit("8");
        reveal_strlit("9");
    }
    if d == 0 {
        assert("0"@ =~= seq!['0']);
        "0"
    } else if d == 1 {
        assert("1"@ =~= seq!['1']);
        "1"
    } else if d == 2 {
        assert("2"@ =~= seq!['2']);
        "2"
    } else if d == 3 {
        assert("3"@ =~= seq!['3']);
        "3"
    } else if d == 4 {
        assert("4"@ =~= seq!['4']);
        "4"
    } else if d == 5 {
        assert("5"@ =~= seq!['5']);
        "5"
    } else if d == 6 {
        assert("6"@ =~= seq!['6']);
        "6"
    } else if d == 7 {
        assert("7"@ =~= seq!['7']);
        "7"
    } else if d == 8 {
        assert("8"@ =~= seq!['8']);
        "8"
    } else {
        assert("9"@ =~= seq!['9']);
        "9"
    }
}

/// The decimal representation of `n`.
pub fn decimal_u64(n: u64) -> (r: String)
    ensures
        r@ == decimal(n as nat),
    decreases n,
{
    if n < 10 {
        String::from_str(digit_str(n as usize))
    } else {
        let head = decimal_u64(n / 10);
        let r = head.concat(digit_str((n % 10) as usize));
        assert(r@ =~= decimal(n as nat));
        r
    }
}

/// The decimal representation of `n`.
pub fn decimal_string(n: usize) -> (r: String)
    ensures
        r@ == decimal(n as nat),
{
    decimal_u64(n as u64)
}

} // verus!
