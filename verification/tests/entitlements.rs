use assyst_core::entitlements::{
    is_new_entitlement, lapsed_entitlements, ActiveGuildPremiumEntitlement,
};
use std::collections::HashMap;

fn kept(ids: &[i64]) -> HashMap<i64, ActiveGuildPremiumEntitlement> {
    ids.iter()
        .map(|id| (*id, ActiveGuildPremiumEntitlement { entitlement_id: *id, guild_id: id * 10 }))
        .collect()
}

#[test]
fn offered_entitlement_is_new_unless_kept() {
    let kept = kept(&[1, 2, -1]);
    assert!(!is_new_entitlement(&kept, 1));
    assert!(!is_new_entitlement(&kept, 2));
    assert!(is_new_entitlement(&kept, 3));
    assert!(!is_new_entitlement(&kept, u64::MAX));
    assert!(is_new_entitlement(&HashMap::new(), 1));
}

#[test]
fn stored_entitlements_that_are_not_kept_have_lapsed() {
    let kept = kept(&[1, 2, 3]);
    assert_eq!(lapsed_entitlements(&kept, &vec![]), Vec::<i64>::new());
    assert_eq!(lapsed_entitlements(&kept, &vec![1, 2, 3]), Vec::<i64>::new());
    assert_eq!(lapsed_entitlements(&kept, &vec![5, 1, 4, 3, 5]), vec![5, 4, 5]);
    assert_eq!(lapsed_entitlements(&HashMap::new(), &vec![2, 1]), vec![2, 1]);
}
