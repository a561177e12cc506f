//! Process queries: the advice text per platform, and the name filter
//! behind searching processes by name.

use vstd::prelude::*;

use crate::platform::Platform;
use crate::textutil::{contains_seq, lowercase_of, text_contains, to_lowercase_text};

verus! {

/// The advice reported for each platform when process information seems
/// inaccessible.
pub open spec fn spec_process_access_info(p: Platform) -> Seq<char> {
    match p {
        Platform::MacOs => "On macOS, accessing process information may require running as an administrator or adjusting privacy settings."@,
        Platform::Linux => "On Linux, some process information may require elevated privileges."@,
        Platform::Windows => "On Windows, some process information may require administrator rights."@,
        Platform::Other => "Access to process information may be restricted on this platform."@,
    }
}

/// Platform-specific advice on process access.
pub fn get_process_access_info(p: Platform) -> (r: String)
    ensures
        r@ == spec_process_access_info(p),
{
    match p {
        Platform::MacOs => String::from_str(
            "On macOS, accessing process information may require running as an administrator or adjusting privacy settings.",
        ),
        Platform::Linux => String::from_str(
            "On Linux, some process information may require elevated privileges.",
        ),
        Platform::Windows => String::from_str(
            "On Windows, some process information may require administrator rights.",
        ),
        Platform::Other => String::from_str(
            "Access to process information may be restricted on this platform.",
        ),
    }
}

/// A process name matches a query when the lower-cased query occurs in
/// the lower-cased name.
pub open spec fn spec_name_matches(name: Seq<char>, query: Seq<char>) -> bool {
    contains_seq(lowercase_of(name), lowercase_of(query))
}

/// Whether a process name matches a query, case-insensitively.
pub fn process_name_matches(name: &str, query: &str) -> (r: bool)
    ensures
        r == spec_name_matches(name@, query@),
{
    let lower_name = to_lowercase_text(name);
    let lower_query = to_lowercase_text(query);
    text_contains(lower_name.as_str(), lower_query.as_str())
}

/// Positions of the process names matching a query, in listing order:
/// exactly the matching positions, each at most once, in increasing
/// order.
#[verifier::loop_isolation(false)]
pub fn matching_name_positions(names: &Vec<String>, query: &str) -> (r: Vec<usize>)
    ensures
        forall|i: int|
            0 <= i < r@.len() ==> #[trigger] r@[i] < names@.len() && spec_name_matches(
                names@[r@[i] as int]@,
                query@,
            ),
        forall|i: int, j: int| 0 <= i < j < r@.len() ==> r@[i] < r@[j],
        forall|p: int|
            0 <= p < names@.len() && spec_name_matches(#[trigger] names@[p]@, query@)
                ==> r@.contains(p as usize),
{
    let mut r: Vec<usize> = Vec::new();
    let n = names.len();
    let mut p: usize = 0;
    while p < n
        invariant
            n == names@.len(),
            p <= n,
            forall|i: int|
                0 <= i < r@.len() ==> #[trigger] r@[i] < p && spec_name_matches(
                    names@[r@[i] as int]@,
                    query@,
                ),
            forall|i: int, j: int| 0 <= i < j < r@.len() ==> r@[i] < r@[j],
            forall|q: int|
                0 <= q < p && spec_name_matches(#[trigger] names@[q]@, query@) ==> r@.contains(
                    q as usize,
                ),
        decreases n - p,
    {
        if process_name_matches(names[p].as_str(), query) {
            let ghost before = r@;
            r.push(p);
            proof {
                assert(r@[before.len() as int] == p);
                assert(r@.contains(p));
                assert forall|q: int|
                    0 <= q < p + 1 && spec_name_matches(#[trigger] names@[q]@, query@)
                        implies r@.contains(q as usize) by {
                    if q < p {
                        let w = choose|w: int| 0 <= w < before.len() && before[w] == q as usize;
                        assert(r@[w] == q as usize);
                    }
                }
            }
        } else {
            proof {
                assert forall|q: int|
                    0 <= q < p + 1 && spec_name_matches(#[trigger] names@[q]@, query@)
                        implies r@.contains(q as usize) by {
                    if q < p {
                    } else {
                        assert(!spec_name_matches(names@[p as int]@, query@));
                    }
                }
            }
        }
        p = p + 1;
    }
    r
}

} // verus!
