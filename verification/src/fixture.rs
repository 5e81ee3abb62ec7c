//! Discovery of test fixtures: the files of one test folder are paired by
//! filename stem into input / expected-output fixtures, and an input file
//! without its expected-output file is reported rather than skipped.

use vstd::prelude::*;

verus! {

/// The suffix of an input file.
pub open spec fn in_suffix() -> Seq<char> {
    ".in"@
}

/// The suffix of an expected-output file.
pub open spec fn out_suffix() -> Seq<char> {
    ".out"@
}

/// The name ends with the suffix.
pub open spec fn has_suffix(s: Seq<char>, suf: Seq<char>) -> bool {
    s.len() >= suf.len() && s.subrange(s.len() - suf.len(), s.len() as int) == suf
}

/// The name with the suffix removed.
pub open spec fn stem_of(s: Seq<char>, suf: Seq<char>) -> Seq<char> {
    s.subrange(0, s.len() - suf.len())
}

/// The name occurs in the list.
pub open spec fn contains_name(names: Seq<Seq<char>>, x: Seq<char>) -> bool {
    exists|i: int| 0 <= i < names.len() && names[i] == x
}

/// One planned fixture: its identifier (the filename stem), the test folder
/// it came from, its input file if one exists, and its expected-output file.
pub struct FixturePlan {
    pub id: String,
    pub folder: String,
    pub input_name: Option<String>,
    pub expected_name: String,
}

/// The model of one plan, as plain sequences: identifier, folder, input file
/// (if any) and expected-output file.
pub open spec fn plan_view(p: FixturePlan) -> (Seq<char>, Seq<char>, Option<Seq<char>>, Seq<char>) {
    (
        p.id@,
        p.folder@,
        match p.input_name {
            Some(s) => Some(s@),
            None => None,
        },
        p.expected_name@,
    )
}

/// The models of a list of plans, in order.
pub open spec fn plans_view(ps: Seq<FixturePlan>) -> Seq<
    (Seq<char>, Seq<char>, Option<Seq<char>>, Seq<char>),
> {
    ps.map_values(|p: FixturePlan| plan_view(p))
}

/// The plan an expected-output file earns: the identifier is the filename
/// stem, and the input file is the stem with the input suffix when such a
/// file exists among the folder's files; else the fixture runs on empty
/// input.
pub open spec fn plan_model(folder: Seq<char>, all: Seq<Seq<char>>, name: Seq<char>) -> (
    Seq<char>,
    Seq<char>,
    Option<Seq<char>>,
    Seq<char>,
) {
    let stem = stem_of(name, out_suffix());
    let input = stem + in_suffix();
    (
        stem,
        folder,
        if contains_name(all, input) {
            Some(input)
        } else {
            None::<Seq<char>>
        },
        name,
    )
}

/// The plans of all expected-output files among the names, in their order.
pub open spec fn spec_plans(folder: Seq<char>, all: Seq<Seq<char>>, names: Seq<Seq<char>>) -> Seq<
    (Seq<char>, Seq<char>, Option<Seq<char>>, Seq<char>),
>
    decreases names.len(),
{
    if names.len() == 0 {
        Seq::empty()
    } else {
        spec_plans(folder, all, names.drop_last()) + if has_suffix(names.last(), out_suffix()) {
            seq![plan_model(folder, all, names.last())]
        } else {
            Seq::empty()
        }
    }
}

/// The input files among the names whose expected-output file is missing,
/// in their order: each is a malformed fixture.
pub open spec fn spec_malformed(all: Seq<Seq<char>>, names: Seq<Seq<char>>) -> Seq<Seq<char>>
    decreases names.len(),
{
    if names.len() == 0 {
        Seq::empty()
    } else {
        spec_malformed(all, names.drop_last()) + if has_suffix(names.last(), in_suffix())
            && !contains_name(all, stem_of(names.last(), in_suffix()) + out_suffix()) {
            seq![names.last()]
        } else {
            Seq::empty()
        }
    }
}

/// The string ends with the given suffix.
fn ends_with(s: &String, suf: &str) -> (r: bool)
    ensures
        r == has_suffix(s@, suf@),
{
    let n = s.as_str().unicode_len();
    let m = suf.unicode_len();
    if n < m {
        return false;
    }
    let mut j: usize = 0;
    while j < m
        invariant
            n == s@.len(),
            m == suf@.len(),
            m <= n,
            j <= m,
            forall|k: int| 0 <= k < j ==> s@[n - m + k] == suf@[k],
        decreases m - j,
    {
        if s.as_str().get_char(n - m + j) != suf.get_char(j) {
            proof {
                let sub = s@.subrange(n as int - m as int, n as int);
                assert(sub[j as int] == s@[n - m + j]);
            }
            return false;
        }
        j += 1;
    }
    proof {
        assert(s@.subrange(n as int - m as int, n as int) =~= suf@);
    }
    true
}

/// The string with its last `suf_chars` characters removed.
fn stem_str(s: &String, suf_chars: usize) -> (r: String)
    requires
        suf_chars <= s@.len(),
    ensures
        r@ == s@.subrange(0, s@.len() - suf_chars as int),
{
    let n = s.as_str().unicode_len();
    let sub = s.as_str().substring_char(0, n - suf_chars);
    sub.to_owned()
}

/// The string occurs in the list.
fn contains_string(names: &Vec<String>, x: &String) -> (r: bool)
    ensures
        r == contains_name(names.deep_view(), x@),
{
    let n = names.len();
    let mut i: usize = 0;
    while i < n
        invariant
            n == names@.len(),
            i <= n,
            forall|k: int| 0 <= k < i ==> names.deep_view()[k] != x@,
        decreases n - i,
    {
        if names[i] == *x {
            proof {
                assert(names.deep_view()[i as int] == x@);
            }
            return true;
        }
        i += 1;
    }
    false
}

/// Walks one test folder's files and pairs them into fixtures by the naming
/// convention. Reading the directory happens outside the library; the
/// discoverer is handed the file names.
pub struct FixtureDiscoverer;

impl FixtureDiscoverer {
    /// Pair the files of one test folder into fixtures: every expected-output
    /// file makes a fixture under its stem, with its matching input file when
    /// one exists (else the fixture runs on empty input), and every input
    /// file without an expected-output file is reported as malformed.
    pub fn pair_fixtures(folder: &String, names: &Vec<String>) -> (r: (
        Vec<FixturePlan>,
        Vec<String>,
    ))
        ensures
            plans_view(r.0@) == spec_plans(folder@, names.deep_view(), names.deep_view()),
            r.1.deep_view() == spec_malformed(names.deep_view(), names.deep_view()),
    {
        let ghost all = names.deep_view();
        let mut plans: Vec<FixturePlan> = Vec::new();
        let mut malformed: Vec<String> = Vec::new();
        let n = names.len();
        let mut i: usize = 0;
        proof {
            reveal_strlit(".in");
            reveal_strlit(".out");
            assert(all.take(0) =~= Seq::<Seq<char>>::empty());
            assert(plans_view(plans@) =~= Seq::<
                (Seq<char>, Seq<char>, Option<Seq<char>>, Seq<char>),
            >::empty());
            assert(malformed.deep_view() =~= Seq::<Seq<char>>::empty());
        }
        while i < n
            invariant
                n == names@.len(),
                all == names.deep_view(),
                all.len() == n,
                i <= n,
                plans_view(plans@) == spec_plans(folder@, all, all.take(i as int)),
                malformed.deep_view() == spec_malformed(all, all.take(i as int)),
            decreases n - i,
        {
            proof {
                reveal_strlit(".in");
                reveal_strlit(".out");
                assert(all.take(i as int + 1).drop_last() =~= all.take(i as int));
                assert(all.take(i as int + 1).last() == all[i as int]);
            }
            let name = &names[i];
            proof {
                assert(name@ == all[i as int]);
            }
            let ghost plans0 = plans@;
            let ghost mal0 = malformed.deep_view();
            if ends_with(name, ".out") {
                let stem = stem_str(name, 4);
                let input_name = stem.clone().concat(".in");
                let has_input = contains_string(names, &input_name);
                let plan = FixturePlan {
                    id: stem,
                    folder: folder.clone(),
                    input_name: if has_input {
                        Some(input_name)
                    } else {
                        None
                    },
                    expected_name: name.clone(),
                };
                let ghost pv = plan_view(plan);
                plans.push(plan);
                proof {
                    assert(pv == plan_model(folder@, all, name@));
                    assert(plans_view(plans@) =~= plans_view(plans0).push(pv));
                    if has_suffix(name@, in_suffix()) {
                        assert(name@[name@.len() - 1] == in_suffix()[2]);
                        assert(name@[name@.len() - 1] == out_suffix()[3]);
                        assert(false);
                    }
                    assert(malformed.deep_view() == spec_malformed(all, all.take(i as int + 1)));
                }
            } else {
                let is_input = ends_with(name, ".in");
                if is_input {
                    let stem = stem_str(name, 3);
                    let out_name = stem.concat(".out");
                    proof {
                        assert(out_name@ == stem_of(name@, in_suffix()) + out_suffix());
                    }
                    if !contains_string(names, &out_name) {
                        malformed.push(name.clone());
                        proof {
                            assert(malformed.deep_view() =~= mal0.push(name@));
                        }
                    }
                }
                proof {
                    assert(plans_view(plans@) == spec_plans(folder@, all, all.take(i as int + 1)));
                    assert(malformed.deep_view() == spec_malformed(all, all.take(i as int + 1)));
                }
            }
            i += 1;
        }
        proof {
            assert(all.take(n as int) =~= all);
        }
        (plans, malformed)
    }
}

} // verus!
