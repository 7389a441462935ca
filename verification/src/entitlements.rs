//! Premium entitlements of guilds: which to take up and which to drop when
//! the set that is kept is compared with what the platform and the store
//! hold.

use std::collections::HashMap;
use vstd::prelude::*;

verus! {

/// A premium entitlement that a guild holds.
#[derive(Clone, Copy, Debug, PartialEq, Eq)]
pub struct ActiveGuildPremiumEntitlement {
    pub entitlement_id: i64,
    pub guild_id: i64,
}

/// The ids from position `i` on that `kept` does not hold, in their order.
pub open spec fn lapsed_from(
    kept: Map<i64, ActiveGuildPremiumEntitlement>,
    stored: Seq<i64>,
    i: int,
) -> Seq<i64>
    decreases stored.len() - i,
{
    if 0 <= i < stored.len() {
        if kept.contains_key(stored[i]) {
            lapsed_from(kept, stored, i + 1)
        } else {
            seq![stored[i]] + lapsed_from(kept, stored, i + 1)
        }
    } else {
        Seq::empty()
    }
}

/// Whether the entitlement that the platform offers under `id` is new: the
/// entitlements that are kept hold none under that id.
pub fn is_new_entitlement(kept: &HashMap<i64, ActiveGuildPremiumEntitlement>, id: u64) -> (b: bool)
    ensures
        b == !kept@.contains_key(id as i64),
{
    broadcast use vstd::std_specs::hash::group_hash_axioms;

    !kept.contains_key(&(id as i64))
}

/// The stored entitlements to drop: those whose id was not among the
/// entitlements kept when the refresh began.
pub fn lapsed_entitlements(
    kept: &HashMap<i64, ActiveGuildPremiumEntitlement>,
    stored: &Vec<i64>,
) -> (lapsed: Vec<i64>)
    ensures
        lapsed@ == lapsed_from(kept@, stored@, 0),
{
    broadcast use vstd::std_specs::hash::group_hash_axioms;

    let mut lapsed: Vec<i64> = Vec::new();
    let mut i: usize = 0;
    while i < stored.len()
        invariant
            i <= stored.len(),
            lapsed@ + lapsed_from(kept@, stored@, i as int) == lapsed_from(kept@, stored@, 0),
        decreases stored.len() - i,
    {
        let id: i64 = stored[i];
        if !kept.contains_key(&id) {
            lapsed.push(id);
        }
        i += 1;
    }
    lapsed
}

} // verus!
