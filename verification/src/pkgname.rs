//! Extraction of the package name from a package identifier.
//!
//! An identifier may carry a version or tag after an `@`, as in
//! `lodash@4.0.0`.  Only the part before the first `@` at position 1 or
//! later is the name, so a scoped name such as `@scope/pkg` keeps its
//! leading `@`.

use vstd::prelude::*;

verus! {

/// Index of the first `@` in `s` at position `from` or later, or `s.len()`
/// if there is none.
pub open spec fn first_at_from(s: Seq<char>, from: int) -> int
    decreases s.len() - from,
{
    if from < 0 || from >= s.len() {
        s.len() as int
    } else if s[from] == '@' {
        from
    } else {
        first_at_from(s, from + 1)
    }
}

/// Length of the name part of a package identifier: everything before the
/// first `@` found at position 1 or later.
pub open spec fn spec_name_len(s: Seq<char>) -> int {
    first_at_from(s, 1)
}

/// The name part of a package identifier.
pub open spec fn spec_package_name(s: Seq<char>) -> Seq<char> {
    s.subrange(0, spec_name_len(s))
}

proof fn lemma_first_at_from_found(s: Seq<char>, from: int, i: int)
    requires
        0 <= from <= i <= s.len(),
        forall|j: int| from <= j < i ==> s[j] != '@',
        i == s.len() || s[i] == '@',
    ensures
        first_at_from(s, from) == i,
    decreases i - from,
{
    if from < i {
        lemma_first_at_from_found(s, from + 1, i);
    }
}

/// An identifier without an `@` at position 1 or later is its own name:
/// extraction returns it unchanged.
pub proof fn lemma_name_of_plain_identifier(s: Seq<char>)
    requires
        forall|j: int| 1 <= j < s.len() ==> s[j] != '@',
    ensures
        spec_package_name(s) =~= s,
{
    if s.len() >= 1 {
        lemma_first_at_from_found(s, 1, s.len() as int);
    }
}

/// An identifier whose first `@` at position 1 or later stands at `i` has
/// as its name exactly the part before `i`; in particular `name@tag` gives
/// `name`, and `@scope/pkg@tag` gives `@scope/pkg`.
pub proof fn lemma_name_of_tagged_identifier(s: Seq<char>, i: int)
    requires
        1 <= i < s.len(),
        s[i] == '@',
        forall|j: int| 1 <= j < i ==> s[j] != '@',
    ensures
        spec_package_name(s) =~= s.subrange(0, i),
{
    lemma_first_at_from_found(s, 1, i);
}

/// Extracts the package name from a package identifier, or `None` when the
/// identifier is empty and no name can be extracted.
pub fn extract_package_name(input: &str) -> (r: Option<String>)
    ensures
        r is Some <==> input@.len() > 0,
        r matches Some(name) ==> name@ == spec_package_name(input@),
{
    let n = input.unicode_len();
    if n == 0 {
        return None;
    }
    let mut i: usize = 1;
    while i < n && input.get_char(i) != '@'
        invariant
            1 <= i <= n,
            n == input@.len(),
            forall|j: int| 1 <= j < i ==> input@[j] != '@',
        decreases n - i,
    {
        i += 1;
    }
    proof {
        lemma_first_at_from_found(input@, 1, i as int);
    }
    let name = input.substring_char(0, i);
    Some(name.to_owned())
}

} // verus!
