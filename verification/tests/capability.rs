use arcadia::capability::{capabilities, has_capability, Capability, RoleFlags, Tier, UserPerms};

fn flags(owner: bool, head: bool, admin: bool, staff: bool) -> RoleFlags {
    RoleFlags { owner, head, admin, staff }
}

#[test]
fn staff_only_sees_the_queue() {
    let caps = capabilities(flags(false, false, false, true));
    assert_eq!(caps, vec![Capability::ViewBotQueue]);
    assert!(has_capability(&caps, Capability::ViewBotQueue));
    assert!(!has_capability(&caps, Capability::Rpc));
    assert!(!has_capability(&caps, Capability::CdnManagement));
}

#[test]
fn admin_gets_rpc_and_cdn() {
    let caps = capabilities(flags(false, false, true, false));
    assert!(has_capability(&caps, Capability::ViewBotQueue));
    assert!(has_capability(&caps, Capability::Rpc));
    assert!(has_capability(&caps, Capability::BotManagement));
    assert!(has_capability(&caps, Capability::CdnManagement));
    assert!(!has_capability(&caps, Capability::PartnerManagement));
    assert_eq!(caps.len(), 4);
}

#[test]
fn head_and_owner_get_everything() {
    for f in [flags(false, true, false, false), flags(true, false, false, false)] {
        let caps = capabilities(f);
        assert_eq!(caps.len(), 5);
        assert!(has_capability(&caps, Capability::PartnerManagement));
    }
}

#[test]
fn no_flags_no_capabilities() {
    let caps = capabilities(flags(false, false, false, false));
    assert!(caps.is_empty());
    assert_eq!(flags(false, false, false, false).tier(), None);
}

#[test]
fn capabilities_hold_no_duplicates() {
    let caps = capabilities(flags(true, true, true, true));
    for (i, a) in caps.iter().enumerate() {
        for b in caps.iter().skip(i + 1) {
            assert_ne!(a, b);
        }
    }
}

#[test]
fn tier_is_the_highest_flag() {
    assert_eq!(flags(false, false, false, true).tier(), Some(Tier::Staff));
    assert_eq!(flags(false, false, true, true).tier(), Some(Tier::Admin));
    assert_eq!(flags(false, true, false, true).tier(), Some(Tier::Head));
    assert_eq!(flags(true, false, false, false).tier(), Some(Tier::Owner));
}

#[test]
fn tiers_are_ordered() {
    assert!(Tier::Owner.at_least(Tier::Head));
    assert!(Tier::Head.at_least(Tier::Admin));
    assert!(Tier::Admin.at_least(Tier::Staff));
    assert!(Tier::Staff.at_least(Tier::Staff));
    assert!(!Tier::Staff.at_least(Tier::Admin));
    assert!(!Tier::Admin.at_least(Tier::Head));
    assert!(!Tier::Head.at_least(Tier::Owner));
}

#[test]
fn reaches_follows_the_order() {
    let staff = flags(false, false, false, true);
    assert!(staff.reaches(Tier::Staff));
    assert!(!staff.reaches(Tier::Admin));
    let head = flags(false, true, false, false);
    assert!(head.reaches(Tier::Admin));
    assert!(!head.reaches(Tier::Owner));
}

#[test]
fn head_flag_folds_two_columns() {
    let perms = UserPerms { owner: false, hadmin: false, iblhdev: true, admin: false, staff: true };
    assert_eq!(perms.role_flags(), flags(false, true, false, true));
    let perms = UserPerms { owner: false, hadmin: true, iblhdev: false, admin: false, staff: true };
    assert!(perms.role_flags().head);
    let perms = UserPerms { owner: false, hadmin: false, iblhdev: false, admin: true, staff: true };
    assert!(!perms.role_flags().head);
}

#[test]
fn capability_tiers() {
    assert_eq!(Capability::ViewBotQueue.tier(), Tier::Staff);
    assert_eq!(Capability::Rpc.tier(), Tier::Admin);
    assert_eq!(Capability::CdnManagement.tier(), Tier::Admin);
    assert_eq!(Capability::PartnerManagement.tier(), Tier::Head);
}
