//! The cleanup policy applied when a job is canceled: every entry of the
//! download directory whose name contains the job's resolved output name is
//! removed; nothing else is touched.
use vstd::prelude::*;
use crate::text::{contains, contains_text, last_line, last_line_of};

verus! {

/// The output name that a run of the external tool resolved: the last line
/// it printed, when it ran successfully.
pub open spec fn resolved_name_spec(succeeded: bool, output: Seq<char>) -> Option<Seq<char>> {
    if succeeded {
        Some(last_line_of(output))
    } else {
        None
    }
}

/// The output name that a run of the external tool resolved, from whether
/// it succeeded and what it printed.
pub fn resolved_name(succeeded: bool, output: &str) -> (r: Option<String>)
    ensures
        match r {
            Some(n) => resolved_name_spec(succeeded, output@) == Some(n@),
            None => resolved_name_spec(succeeded, output@) is None,
        },
{
    if succeeded {
        Some(last_line(output))
    } else {
        None
    }
}

/// The names among `names` that contain `name`, in their order.
pub open spec fn matching_names(names: Seq<Seq<char>>, name: Seq<char>) -> Seq<Seq<char>>
    decreases names.len(),
{
    if names.len() == 0 {
        Seq::empty()
    } else {
        let rest = matching_names(names.drop_last(), name);
        if contains_text(names.last(), name) {
            rest.push(names.last())
        } else {
            rest
        }
    }
}

/// The texts of a list of strings.
pub open spec fn texts(v: Seq<String>) -> Seq<Seq<char>> {
    v.map_values(|s: String| s@)
}

/// The entries of the download directory to remove for a canceled job whose
/// output name resolved to `name`.
pub fn files_to_remove(entries: &Vec<String>, name: &str) -> (r: Vec<String>)
    ensures
        texts(r@) == matching_names(texts(entries@), name@),
{
    let mut r: Vec<String> = Vec::new();
    let mut i: usize = 0;
    while i < entries.len()
        invariant
            i <= entries@.len(),
            texts(r@) == matching_names(texts(entries@.subrange(0, i as int)), name@),
        decreases entries@.len() - i,
    {
        proof {
            assert(texts(entries@.subrange(0, i + 1)).drop_last() =~= texts(
                entries@.subrange(0, i as int),
            ));
        }
        if contains(entries[i].as_str(), name) {
            r.push(entries[i].clone());
            proof {
                assert(texts(r@) =~= texts(r@.drop_last()).push(entries@[i as int]@));
            }
        }
        i = i + 1;
    }
    proof {
        assert(entries@.subrange(0, i as int) =~= entries@);
    }
    r
}

/// An entry is among the names to remove exactly when it is one of the
/// directory's entries and its name contains `name`.
pub proof fn lemma_matching_names(names: Seq<Seq<char>>, name: Seq<char>, x: Seq<char>)
    ensures
        matching_names(names, name).contains(x) <==> (names.contains(x) && contains_text(
            x,
            name,
        )),
    decreases names.len(),
{
    if names.len() > 0 {
        let init = names.drop_last();
        lemma_matching_names(init, name, x);
        assert(names =~= init.push(names.last()));
        if names.contains(x) && x != names.last() {
            let k = choose|k: int| 0 <= k < names.len() && names[k] == x;
            assert(init[k] == x);
        }
        if init.contains(x) {
            let k = choose|k: int| 0 <= k < init.len() && init[k] == x;
            assert(names[k] == x);
        }
        if contains_text(names.last(), name) {
            let rest = matching_names(init, name);
            if rest.contains(x) {
                let k = choose|k: int| 0 <= k < rest.len() && rest[k] == x;
                assert(rest.push(names.last())[k] == x);
            }
            if rest.push(names.last()).contains(x) && x != names.last() {
                let k = choose|k: int| 0 <= k < rest.len() + 1 && rest.push(names.last())[k] == x;
                assert(rest[k] == x);
            }
            assert(rest.push(names.last())[rest.len() as int] == names.last());
        }
        assert(names[names.len() - 1] == names.last());
    }
}

} // verus!
