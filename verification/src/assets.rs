//! Resolution of the bundled capture utility: which packaged candidate to
//! extract, and when a previously extracted copy can be reused.

use vstd::prelude::*;

verus! {

/// A candidate location of the bundled utility, as the host found it on
/// disk: the file's size and its leading bytes.
pub struct AssetCandidate {
    pub size: u64,
    pub head: Vec<u8>,
}

/// A plausible size for the bundled utility: comfortably more than a
/// stub, comfortably less than a media file.
pub open spec fn plausible_tool_size(size: u64) -> bool {
    10000 < size < 5000000
}

/// The two-byte header every Windows executable image starts with.
pub open spec fn has_executable_header(head: Seq<u8>) -> bool {
    head.len() >= 64 && head[0] == 0x4du8 && head[1] == 0x5au8
}

/// A candidate is worth extracting when its size is plausible and its
/// header marks it as an executable.
pub open spec fn candidate_acceptable(c: AssetCandidate) -> bool {
    plausible_tool_size(c.size) && has_executable_header(c.head@)
}

/// Whether this candidate is worth extracting.
pub fn asset_candidate_valid(c: &AssetCandidate) -> (r: bool)
    ensures
        r == candidate_acceptable(*c),
{
    10000 < c.size && c.size < 5000000 && c.head.len() >= 64 && c.head[0] == 0x4d && c.head[1]
        == 0x5a
}

/// Index of the first acceptable candidate in the fixed search order, or
/// `None` when no location holds a usable copy.
#[verifier::loop_isolation(false)]
pub fn select_asset_candidate(candidates: &Vec<AssetCandidate>) -> (r: Option<usize>)
    ensures
        r matches Some(i) ==> i < candidates@.len() && candidate_acceptable(candidates@[i as int])
            && (forall|j: int| 0 <= j < i ==> !candidate_acceptable(candidates@[j])),
        r is None ==> forall|j: int|
            0 <= j < candidates@.len() ==> !candidate_acceptable(candidates@[j]),
{
    let mut i: usize = 0;
    while i < candidates.len()
        invariant
            i <= candidates@.len(),
            forall|j: int| 0 <= j < i ==> !candidate_acceptable(candidates@[j]),
        decreases candidates@.len() - i,
    {
        if asset_candidate_valid(&candidates[i]) {
            return Some(i);
        }
        i = i + 1;
    }
    None
}

/// What to do about the per-run cache of the extracted utility.
#[derive(Clone, Copy, Debug, PartialEq, Eq, Structural)]
pub enum CacheAction {
    /// A copy of identical size is already extracted: use it as it is,
    /// touching neither its contents nor its timestamps.
    Reuse,
    /// Extract the source anew.
    Copy,
}

/// Decide whether the cached extraction can serve this run.  An extracted
/// copy whose size equals the source's is reused without re-copying; a
/// missing or differently sized copy is replaced.
pub fn plan_extraction(cached_size: Option<u64>, source_size: u64) -> (r: CacheAction)
    ensures
        r == CacheAction::Reuse <==> cached_size == Some(source_size),
{
    match cached_size {
        Some(size) => {
            if size == source_size {
                CacheAction::Reuse
            } else {
                CacheAction::Copy
            }
        },
        None => CacheAction::Copy,
    }
}

/// A fresh extraction is sound only when the copy has the source's size;
/// anything else is discarded.
pub fn extraction_verified(extracted_size: u64, source_size: u64) -> (r: bool)
    ensures
        r == (extracted_size == source_size),
{
    extracted_size == source_size
}

} // verus!
