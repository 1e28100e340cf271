//! The rule that tells active performance states from inactive ones, by
//! their names.

use crate::text::{
    contains, has_substring, lemma_upper_forgets_case, lemma_upper_of_part, lower, occurs_at,
    upper, upper_chars_of,
};
use vstd::prelude::*;

verus! {

/// The first of the three substrings that mark a state's name as inactive.
pub open spec fn idle_marker() -> Seq<char> {
    seq!['I', 'D', 'L', 'E']
}

/// The second of them.
pub open spec fn off_marker() -> Seq<char> {
    seq!['O', 'F', 'F']
}

/// The third of them.
pub open spec fn down_marker() -> Seq<char> {
    seq!['D', 'O', 'W', 'N']
}

/// A state is active iff its name, with ASCII letters in upper case, contains
/// none of `IDLE`, `OFF`, `DOWN`. The match is on substrings, not on words:
/// `TAKEOFF` is inactive.
pub open spec fn is_active_name(name: Seq<char>) -> bool {
    let folded = upper(name);
    &&& !contains(folded, idle_marker())
    &&& !contains(folded, off_marker())
    &&& !contains(folded, down_marker())
}

/// Whether `m` is one of the three markers.
pub open spec fn is_marker(m: Seq<char>) -> bool {
    m == idle_marker() || m == off_marker() || m == down_marker()
}

/// Decides from a state's name whether the state is active.
pub fn classify(name: &str) -> (active: bool)
    ensures
        active == is_active_name(name@),
{
    let folded = upper_chars_of(name);
    let idle: [char; 4] = ['I', 'D', 'L', 'E'];
    let off: [char; 3] = ['O', 'F', 'F'];
    let down: [char; 4] = ['D', 'O', 'W', 'N'];
    !has_substring(folded.as_slice(), idle.as_slice())
        && !has_substring(folded.as_slice(), off.as_slice())
        && !has_substring(folded.as_slice(), down.as_slice())
}

/// Two names that differ only in the case of their ASCII letters are
/// classified alike.
pub proof fn lemma_class_ignores_case(a: Seq<char>, b: Seq<char>)
    requires
        upper(a) == upper(b),
    ensures
        is_active_name(a) == is_active_name(b),
{
}

/// A name is classified like its forms in upper and in lower case.
pub proof fn lemma_class_of_folded(name: Seq<char>)
    ensures
        is_active_name(upper(name)) == is_active_name(name),
        is_active_name(lower(name)) == is_active_name(name),
{
    lemma_upper_forgets_case(name);
}

/// A name is inactive exactly where some contiguous part of it, put in
/// upper case, is one of the markers: whatever stands before and after that
/// part, and whatever the case of its letters.
pub proof fn lemma_inactive_iff_marker_inside(name: Seq<char>)
    ensures
        !is_active_name(name) <==> exists|i: int, j: int|
            0 <= i <= j <= name.len() && is_marker(upper(#[trigger] name.subrange(i, j))),
{
    let folded = upper(name);
    if !is_active_name(name) {
        let m = if contains(folded, idle_marker()) {
            idle_marker()
        } else if contains(folded, off_marker()) {
            off_marker()
        } else {
            down_marker()
        };
        let i = choose|i: int| occurs_at(folded, m, i);
        let j = i + m.len();
        lemma_upper_of_part(name, i, j);
    }
    if exists|i: int, j: int|
        0 <= i <= j <= name.len() && is_marker(upper(#[trigger] name.subrange(i, j))) {
        let (i, j) = choose|i: int, j: int|
            0 <= i <= j <= name.len() && is_marker(upper(#[trigger] name.subrange(i, j)));
        lemma_upper_of_part(name, i, j);
        let m = upper(name.subrange(i, j));
        assert(occurs_at(folded, m, i));
    }
}

} // verus!
