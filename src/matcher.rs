use vstd::prelude::*;

use crate::config::{profile_matches, NetworkConfig};
use crate::wifi::WifiInfo;

verus! {

/// The index of the first profile, from `start` on, that applies to `w`.
pub open spec fn first_match_from(ps: Seq<NetworkConfig>, w: WifiInfo, start: int) -> Option<int>
    decreases ps.len() - start,
{
    if start < 0 || start >= ps.len() {
        None
    } else if profile_matches(ps[start], w) {
        Some(start)
    } else {
        first_match_from(ps, w, start + 1)
    }
}

/// The index of the first profile in declared order that applies to `w`.
pub open spec fn first_match(ps: Seq<NetworkConfig>, w: WifiInfo) -> Option<int> {
    first_match_from(ps, w, 0)
}

pub open spec fn index_view(r: Option<usize>) -> Option<int> {
    match r {
        Some(i) => Some(i as int),
        None => None,
    }
}

/// Picks the first profile, in declared order, that applies to `wifi`.
pub fn find_profile(networks: &[NetworkConfig], wifi: &WifiInfo) -> (r: Option<usize>)
    ensures
        index_view(r) == first_match(networks@, *wifi),
        match r {
            Some(i) => i < networks@.len() && profile_matches(networks@[i as int], *wifi) && forall|
                j: int,
            | 0 <= j < i ==> !profile_matches(#[trigger] networks@[j], *wifi),
            None => forall|j: int|
                0 <= j < networks@.len() ==> !profile_matches(#[trigger] networks@[j], *wifi),
        },
{
    let n = networks.len();
    let mut i: usize = 0;
    while i < n
        invariant
            n == networks@.len(),
            i <= n,
            forall|j: int| 0 <= j < i ==> !profile_matches(#[trigger] networks@[j], *wifi),
            first_match(networks@, *wifi) == first_match_from(networks@, *wifi, i as int),
        decreases n - i,
    {
        if networks[i].matches(wifi) {
            return Some(i);
        }
        i = i + 1;
    }
    None
}

proof fn lemma_first_match_from_bounded(ps: Seq<NetworkConfig>, w: WifiInfo, start: int, i: int)
    requires
        0 <= start <= i < ps.len(),
        profile_matches(ps[i], w),
    ensures
        first_match_from(ps, w, start) matches Some(k) && start <= k <= i,
    decreases i - start,
{
    if !profile_matches(ps[start], w) {
        lemma_first_match_from_bounded(ps, w, start + 1, i);
    }
}

/// When two profiles both apply, the one declared first is chosen (or one
/// declared before both), never the later one.
pub proof fn lemma_earlier_profile_wins(ps: Seq<NetworkConfig>, w: WifiInfo, i: int, j: int)
    requires
        0 <= i < j < ps.len(),
        profile_matches(ps[i], w),
        profile_matches(ps[j], w),
    ensures
        first_match(ps, w) matches Some(k) && k <= i,
        first_match(ps, w) != Some(j),
{
    lemma_first_match_from_bounded(ps, w, 0, i);
}

} // verus!
