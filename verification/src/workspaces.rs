//! Discovery, filtering and selection of workspaces.
//!
//! A workspace starts as a directory matched by one of the root manifest's
//! glob patterns.  The caller expands each pattern on disk and reads each
//! directory's manifest file; everything after that — keeping pattern
//! order, dropping directories without a readable manifest, and selecting
//! the workspaces that declare the target package — happens here.

use vstd::prelude::*;

use crate::manifest::{parse_manifest, spec_parse_manifest, Manifest};

verus! {

/// The rows of a vector of match lists, as sequences of strings.
pub open spec fn spec_rows(matches: Seq<Vec<String>>) -> Seq<Seq<String>> {
    matches.map_values(|row: Vec<String>| row@)
}

/// The concatenation, in pattern order then match order, of the directory
/// matches of each pattern; duplicates across patterns are kept.
pub fn concat_pattern_matches(matches: &Vec<Vec<String>>) -> (r: Vec<String>)
    ensures
        r@ == spec_rows(matches@).flatten(),
{
    let mut r: Vec<String> = Vec::new();
    proof {
        assert(spec_rows(matches@).subrange(0, 0).flatten() =~= Seq::<String>::empty());
    }
    let mut i: usize = 0;
    while i < matches.len()
        invariant
            i <= matches@.len(),
            r@ =~= spec_rows(matches@).subrange(0, i as int).flatten(),
        decreases matches.len() - i,
    {
        let row = &matches[i];
        let mut j: usize = 0;
        while j < row.len()
            invariant
                i < matches@.len(),
                j <= row@.len(),
                row@ == matches@[i as int]@,
                r@ =~= spec_rows(matches@).subrange(0, i as int).flatten() + row@.subrange(
                    0,
                    j as int,
                ),
            decreases row.len() - j,
        {
            r.push(row[j].clone());
            j += 1;
        }
        proof {
            let pre = spec_rows(matches@).subrange(0, i as int);
            let elem = spec_rows(matches@)[i as int];
            pre.lemma_flatten_push(elem);
            assert(row@.subrange(0, j as int) =~= elem);
            assert(pre.push(elem) =~= spec_rows(matches@).subrange(0, i as int + 1));
            assert(r@ =~= spec_rows(matches@).subrange(0, i as int + 1).flatten());
        }
        i += 1;
    }
    proof {
        assert(spec_rows(matches@).subrange(0, matches@.len() as int) =~= spec_rows(matches@));
    }
    r
}

/// Pairs each discovered directory with its parsed manifest: an entry
/// whose manifest file could not be read, or whose text does not parse,
/// yields no manifest; one whose text parses is paired with exactly that
/// manifest; directories and their order are kept as they are.
pub fn parse_workspace_manifests(entries: &Vec<(String, Option<String>)>) -> (r: Vec<
    (String, Option<Manifest>),
>)
    ensures
        r@.len() == entries@.len(),
        forall|i: int| 0 <= i < entries@.len() ==> (#[trigger] r@[i]).0 == entries@[i].0,
        forall|i: int|
            0 <= i < entries@.len() ==> match entries@[i].1 {
                Some(t) => match spec_parse_manifest(t@) {
                    Ok(mv) => (#[trigger] r@[i]).1 matches Some(m) && m@ == mv,
                    Err(_) => r@[i].1 is None,
                },
                None => r@[i].1 is None,
            },
{
    let mut r: Vec<(String, Option<Manifest>)> = Vec::new();
    let mut i: usize = 0;
    while i < entries.len()
        invariant
            i <= entries@.len(),
            r@.len() == i,
            forall|k: int| 0 <= k < i ==> (#[trigger] r@[k]).0 == entries@[k].0,
            forall|k: int|
                0 <= k < i ==> match entries@[k].1 {
                    Some(t) => match spec_parse_manifest(t@) {
                        Ok(mv) => (#[trigger] r@[k]).1 matches Some(m) && m@ == mv,
                        Err(_) => r@[k].1 is None,
                    },
                    None => r@[k].1 is None,
                },
        decreases entries.len() - i,
    {
        let entry = &entries[i];
        let dir = entry.0.clone();
        let parsed = match &entry.1 {
            Some(text) => match parse_manifest(text.as_str()) {
                Ok(m) => Some(m),
                Err(_) => None,
            },
            None => None,
        };
        r.push((dir, parsed));
        i += 1;
    }
    r
}

/// The entries of `s` that carry a manifest, in order, each unwrapped.
pub open spec fn spec_filter_manifests(s: Seq<(String, Option<Manifest>)>) -> Seq<
    (String, Manifest),
>
    decreases s.len(),
{
    if s.len() == 0 {
        Seq::empty()
    } else {
        let rest = spec_filter_manifests(s.drop_last());
        match s.last().1 {
            Some(m) => rest.push((s.last().0, m)),
            None => rest,
        }
    }
}

/// Keeps, in order, exactly the directories that came with a manifest.
pub fn filter_some_manifests(pairs: Vec<(String, Option<Manifest>)>) -> (r: Vec<(String, Manifest)>)
    ensures
        r@ == spec_filter_manifests(pairs@),
    decreases pairs@.len(),
{
    let ghost orig = pairs@;
    let mut pairs = pairs;
    match pairs.pop() {
        None => Vec::new(),
        Some((dir, parsed)) => {
            proof {
                assert(pairs@ =~= orig.drop_last());
            }
            let mut rest = filter_some_manifests(pairs);
            match parsed {
                Some(m) => {
                    rest.push((dir, m));
                },
                None => {},
            }
            rest
        },
    }
}

/// A dropped entry — one with no manifest — leaves the filtered list as it
/// was: filtering with it and without it gives the same workspaces.
pub proof fn lemma_missing_manifest_excluded(pairs: Seq<(String, Option<Manifest>)>, i: int)
    requires
        0 <= i < pairs.len(),
        pairs[i].1 is None,
    ensures
        spec_filter_manifests(pairs.remove(i)) == spec_filter_manifests(pairs),
    decreases pairs.len(),
{
    if i == pairs.len() - 1 {
        assert(pairs.remove(i) =~= pairs.drop_last());
    } else {
        lemma_missing_manifest_excluded(pairs.drop_last(), i);
        assert(pairs.remove(i).drop_last() =~= pairs.drop_last().remove(i));
        assert(pairs.remove(i).last() == pairs.last());
    }
}

/// Whether some element of `v` has the character content `t`.
fn contains_string(v: &Vec<String>, t: &String) -> (r: bool)
    ensures
        r == v.deep_view().contains(t@),
{
    let mut i: usize = 0;
    while i < v.len()
        invariant
            i <= v@.len(),
            forall|k: int| 0 <= k < i ==> v.deep_view()[k] != t@,
        decreases v.len() - i,
    {
        if v[i] == *t {
            proof {
                assert(v.deep_view()[i as int] == t@);
            }
            return true;
        }
        i += 1;
    }
    false
}

/// The names of the workspaces that declare `pkg` as a direct or dev
/// dependency, in workspace order; a dependant workspace whose manifest
/// has no name contributes nothing.
pub open spec fn spec_dependants(ws: Seq<(String, Manifest)>, pkg: Seq<char>) -> Seq<Seq<char>>
    decreases ws.len(),
{
    if ws.len() == 0 {
        Seq::empty()
    } else {
        let rest = spec_dependants(ws.drop_last(), pkg);
        let m = ws.last().1;
        match m.name {
            Some(n) => if m.spec_declares(pkg) {
                rest.push(n@)
            } else {
                rest
            },
            None => rest,
        }
    }
}

/// Selects the dependant workspaces: those whose manifest declares
/// `package_name` under `dependencies` or `devDependencies`, each
/// represented by its manifest's `name`, in order and without
/// de-duplication.
pub fn list_dependant_workspaces(workspaces: &Vec<(String, Manifest)>, package_name: &String) -> (r:
    Vec<String>)
    ensures
        r.deep_view() == spec_dependants(workspaces@, package_name@),
{
    let mut r: Vec<String> = Vec::new();
    let mut i: usize = 0;
    while i < workspaces.len()
        invariant
            i <= workspaces@.len(),
            r.deep_view() =~= spec_dependants(workspaces@.subrange(0, i as int), package_name@),
        decreases workspaces.len() - i,
    {
        let m = &workspaces[i].1;
        let deps = m.all_dependencies();
        if contains_string(&deps, package_name) {
            match &m.name {
                Some(n) => {
                    r.push(n.clone());
                },
                None => {},
            }
        }
        proof {
            let sub = workspaces@.subrange(0, i as int + 1);
            assert(sub.drop_last() =~= workspaces@.subrange(0, i as int));
            assert(sub.last() == workspaces@[i as int]);
            assert(r.deep_view() =~= spec_dependants(sub, package_name@));
        }
        i += 1;
    }
    proof {
        assert(workspaces@.subrange(0, workspaces@.len() as int) =~= workspaces@);
    }
    r
}

} // verus!
