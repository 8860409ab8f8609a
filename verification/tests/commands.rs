use arcadia::onboarding::{
    approve_onboarding, confirmation, deny_onboarding, reset_onboarding, unlock_decision,
    Confirmation, OnboardError, OnboardState, UnlockDecision,
};
use arcadia::staff::{
    check_staff_add, check_staff_del, has_role, recalc_flags, staff_list_message, FlagUpdate,
    Removal, StaffEntry, StaffError, StaffRoles,
};

const ROLES: StaffRoles = StaffRoles { dev: 1, head_dev: 2, staff_man: 3, web_mod: 4, owner: 5 };

#[test]
fn approval_needs_review_or_denial() {
    assert_eq!(approve_onboarding("pending-manager-review"), Ok(OnboardState::Completed));
    assert_eq!(approve_onboarding("denied"), Ok(OnboardState::Completed));
    assert_eq!(approve_onboarding("pending"), Err(OnboardError::NotPendingReview));
    assert_eq!(approve_onboarding("completed"), Err(OnboardError::NotPendingReview));
    assert_eq!(approve_onboarding(""), Err(OnboardError::NotPendingReview));
}

#[test]
fn denial_needs_review() {
    assert_eq!(deny_onboarding("pending-manager-review"), Ok(OnboardState::Denied));
    assert_eq!(deny_onboarding("denied"), Err(OnboardError::NotPendingReview));
    assert_eq!(deny_onboarding("pending"), Err(OnboardError::NotPendingReview));
}

#[test]
fn state_texts() {
    assert_eq!(OnboardState::Pending.as_str(), "pending");
    assert_eq!(OnboardState::PendingManagerReview.as_str(), "pending-manager-review");
    assert_eq!(OnboardState::Denied.as_str(), "denied");
    assert_eq!(OnboardState::Completed.as_str(), "completed");
}

#[test]
fn confirmations() {
    assert_eq!(confirmation(None), Confirmation::TimedOut);
    assert_eq!(confirmation(Some("cancel")), Confirmation::Cancelled);
    assert_eq!(confirmation(Some("continue")), Confirmation::Proceed);
    assert_eq!(reset_onboarding(None), None);
    assert_eq!(reset_onboarding(Some("cancel")), None);
    assert_eq!(reset_onboarding(Some("continue")), Some(OnboardState::Pending));
}

#[test]
fn unlock_decisions() {
    assert_eq!(unlock_decision(None), UnlockDecision::Ignore);
    assert_eq!(unlock_decision(Some("a:cancel")), UnlockDecision::Cancel);
    assert_eq!(unlock_decision(Some("a:unlock")), UnlockDecision::Unlock);
    assert_eq!(unlock_decision(Some("cancel")), UnlockDecision::Ignore);
}

#[test]
fn first_staff_role_decides_the_flags() {
    let dev = FlagUpdate { staff: true, ibldev: true, iblhdev: false, admin: false };
    let head = FlagUpdate { staff: true, ibldev: true, iblhdev: true, admin: false };
    let manager = FlagUpdate { staff: true, ibldev: false, iblhdev: false, admin: true };
    let moderator = FlagUpdate { staff: true, ibldev: false, iblhdev: false, admin: false };
    assert_eq!(recalc_flags(&vec![9, 1], &ROLES), Some(dev));
    assert_eq!(recalc_flags(&vec![2], &ROLES), Some(head));
    assert_eq!(recalc_flags(&vec![2, 1], &ROLES), Some(dev));
    assert_eq!(recalc_flags(&vec![4, 3], &ROLES), Some(manager));
    assert_eq!(recalc_flags(&vec![4], &ROLES), Some(moderator));
    assert_eq!(recalc_flags(&vec![5, 9], &ROLES), None);
    assert_eq!(recalc_flags(&Vec::new(), &ROLES), None);
    assert!(has_role(&vec![7, 8], 8));
    assert!(!has_role(&vec![7, 8], 9));
}

#[test]
fn only_web_moderators_are_added() {
    assert_eq!(check_staff_add(&vec![4], &ROLES), Ok(()));
    assert_eq!(check_staff_add(&vec![1, 2, 3], &ROLES), Err(StaffError::NotWebModerator));
}

#[test]
fn managers_and_owners_are_protected_from_others() {
    assert_eq!(check_staff_del(true, &vec![3, 5], &ROLES), Ok(Removal::OwnRequest));
    assert_eq!(check_staff_del(false, &vec![3, 5], &ROLES), Err(StaffError::ProtectedManager));
    assert_eq!(check_staff_del(false, &vec![5], &ROLES), Err(StaffError::ProtectedOwner));
    assert_eq!(check_staff_del(false, &vec![4, 1], &ROLES), Ok(Removal::OfOther));
}

#[test]
fn staff_list_text() {
    let entries = vec![
        StaffEntry {
            user_id: "1".to_string(),
            name: "ann".to_string(),
            admin: true,
            ibldev: false,
            in_server: true,
        },
        StaffEntry {
            user_id: "2".to_string(),
            name: "bob".to_string(),
            admin: false,
            ibldev: true,
            in_server: false,
        },
    ];
    assert_eq!(
        staff_list_message(&entries),
        "**Staff List**\n1 (ann) [admin=true, ibldev=false]\n2 (bob) [admin=false, ibldev=true]\n\n**Not in staff server (based on cache, may be inaccurate)**\n2 (bob)"
    );
    assert_eq!(
        staff_list_message(&Vec::new()),
        "**Staff List**\n\n**Not in staff server (based on cache, may be inaccurate)**\n"
    );
}
