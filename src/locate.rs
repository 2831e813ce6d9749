use vstd::prelude::*;

use vstd::string::StringExecFns;

verus! {

/// The path chosen from `cands`, where `present[i]` tells whether `cands[i]`
/// exists, starting the search at index `i`: the first candidate that
/// exists, or `fallback` when none does. A candidate without an entry in
/// `present` counts as absent.
pub open spec fn first_present_from(
    cands: Seq<Seq<char>>,
    present: Seq<bool>,
    fallback: Seq<char>,
    i: int,
) -> Seq<char>
    decreases cands.len() - i,
{
    if i < 0 || i >= cands.len() {
        fallback
    } else if i < present.len() && present[i] {
        cands[i]
    } else {
        first_present_from(cands, present, fallback, i + 1)
    }
}

/// The path chosen from the whole candidate list.
pub open spec fn first_present(cands: Seq<Seq<char>>, present: Seq<bool>, fallback: Seq<char>) -> Seq<char> {
    first_present_from(cands, present, fallback, 0)
}

/// Candidate `i` exists.
pub open spec fn is_present(cands: Seq<Seq<char>>, present: Seq<bool>, i: int) -> bool {
    0 <= i < cands.len() && i < present.len() && present[i]
}

/// The paths as plain character sequences.
pub open spec fn paths_view(v: Seq<String>) -> Seq<Seq<char>> {
    v.map_values(|s: String| s@)
}

/// The well-known install locations of the `caddy` binary, in the order in
/// which they are probed.
pub open spec fn caddy_candidate_paths() -> Seq<Seq<char>> {
    seq!["/opt/homebrew/bin/caddy"@, "/usr/local/bin/caddy"@, "/usr/bin/caddy"@]
}

/// The name under which `caddy` is launched when no install location holds it.
pub open spec fn caddy_fallback() -> Seq<char> {
    "caddy"@
}

/// Chooses the first candidate that exists, else the fallback name.
pub fn locate(candidates: &Vec<String>, present: &Vec<bool>, fallback: &String) -> (r: String)
    ensures
        r@ == first_present(paths_view(candidates@), present@, fallback@),
{
    let ghost cands = paths_view(candidates@);
    let mut i: usize = 0;
    while i < candidates.len()
        invariant
            i <= candidates.len(),
            cands == paths_view(candidates@),
            first_present(cands, present@, fallback@) == first_present_from(cands, present@, fallback@, i as int),
        decreases candidates.len() - i,
    {
        if i < present.len() && present[i] {
            return candidates[i].clone();
        }
        i = i + 1;
    }
    fallback.clone()
}

/// The well-known install locations of `caddy`, in probing order.
pub fn caddy_candidates() -> (r: Vec<String>)
    ensures
        paths_view(r@) == caddy_candidate_paths(),
{
    let v = vec![
        String::from_str("/opt/homebrew/bin/caddy"),
        String::from_str("/usr/local/bin/caddy"),
        String::from_str("/usr/bin/caddy"),
    ];
    proof {
        assert(paths_view(v@) =~= caddy_candidate_paths());
    }
    v
}

/// The path under which to launch `caddy`, where `present[i]` tells whether
/// the `i`-th well-known install location holds the binary: the first that
/// does, else the bare name, left to the launcher's search path.
pub fn find_caddy_binary(present: &Vec<bool>) -> (r: String)
    ensures
        r@ == first_present(caddy_candidate_paths(), present@, caddy_fallback()),
{
    locate(&caddy_candidates(), present, &String::from_str("caddy"))
}

/// Whether any of the first `count` candidates exists.
pub fn any_present(present: &Vec<bool>, count: usize) -> (r: bool)
    ensures
        r == exists|i: int| 0 <= i < count && i < present@.len() && #[trigger] present@[i],
{
    let mut i: usize = 0;
    while i < count && i < present.len()
        invariant
            i <= count,
            forall|j: int| 0 <= j < i && j < present@.len() ==> !#[trigger] present@[j],
        decreases count - i,
    {
        if present[i] {
            return true;
        }
        i = i + 1;
    }
    false
}

/// The choice is the first candidate that exists, searching from the front;
/// when none exists it is the fallback name, unchanged.
pub proof fn lemma_first_present(cands: Seq<Seq<char>>, present: Seq<bool>, fallback: Seq<char>)
    ensures
        (forall|j: int| !is_present(cands, present, j)) ==> first_present(cands, present, fallback) == fallback,
        forall|i: int|
            #[trigger] is_present(cands, present, i) && (forall|j: int| 0 <= j < i ==> !is_present(cands, present, j))
                ==> first_present(cands, present, fallback) == cands[i],
{
    lemma_first_present_from(cands, present, fallback, 0);
}

proof fn lemma_first_present_from(cands: Seq<Seq<char>>, present: Seq<bool>, fallback: Seq<char>, k: int)
    requires
        0 <= k,
    ensures
        (forall|j: int| k <= j ==> !is_present(cands, present, j)) ==> first_present_from(cands, present, fallback, k) == fallback,
        forall|i: int|
            k <= i && #[trigger] is_present(cands, present, i) && (forall|j: int| k <= j < i ==> !is_present(cands, present, j))
                ==> first_present_from(cands, present, fallback, k) == cands[i],
    decreases cands.len() - k,
{
    if k < cands.len() {
        lemma_first_present_from(cands, present, fallback, k + 1);
        if !is_present(cands, present, k) {
            assert forall|i: int|
                k <= i && #[trigger] is_present(cands, present, i) && (forall|j: int| k <= j < i ==> !is_present(cands, present, j))
                implies first_present_from(cands, present, fallback, k) == cands[i] by {
                assert(i != k);
                assert forall|j: int| k + 1 <= j < i implies !is_present(cands, present, j) by {}
            }
        }
    }
}

} // verus!
