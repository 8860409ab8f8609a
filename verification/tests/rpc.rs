use arcadia::capability::{RoleFlags, Tier};
use arcadia::error::ErrorKind;
use arcadia::rpc::{
    authorize_rpc, get_rpc_methods, rpc_response, FieldType, RpcError, RpcMethod, RpcMethodKind,
    RpcOutcome, TargetType,
};

fn flags(owner: bool, head: bool, admin: bool, staff: bool) -> RoleFlags {
    RoleFlags { owner, head, admin, staff }
}

#[test]
fn unfiltered_listing_shows_every_method() {
    let actions = get_rpc_methods(flags(false, false, false, true), false);
    let ids: Vec<&str> = actions.iter().map(|a| a.id.as_str()).collect();
    assert_eq!(
        ids,
        vec!["BotApprove", "BotDeny", "BotVoteReset", "BotVoteResetAll", "BotUnverify"]
    );
}

#[test]
fn filtered_listing_hides_methods_above_the_tier() {
    let staff = flags(false, false, false, true);
    let actions = get_rpc_methods(staff, true);
    let ids: Vec<&str> = actions.iter().map(|a| a.id.as_str()).collect();
    assert_eq!(ids, vec!["BotApprove", "BotDeny"]);
    for action in &actions {
        assert!(staff.reaches(action.needs_perms));
    }
    let admin = flags(false, false, true, false);
    assert_eq!(get_rpc_methods(admin, true).len(), 2);
    let head = flags(false, true, false, false);
    assert_eq!(get_rpc_methods(head, true).len(), 5);
    let nobody = flags(false, false, false, false);
    assert_eq!(get_rpc_methods(nobody, true).len(), 0);
}

#[test]
fn listing_describes_each_method() {
    let actions = get_rpc_methods(flags(true, false, false, false), true);
    let reset = &actions[2];
    assert_eq!(reset.id, "BotVoteReset");
    assert_eq!(reset.label, "Reset Bot Votes");
    assert_eq!(reset.description, "Resets the votes of one bot");
    assert_eq!(reset.needs_perms, Tier::Head);
    assert_eq!(reset.supported_target_types, vec![TargetType::Bot]);
    assert_eq!(reset.fields.len(), 1);
    assert_eq!(reset.fields[0].id, "bot_id");
    assert_eq!(reset.fields[0].label, "Bot ID");
    assert_eq!(reset.fields[0].field_type, FieldType::Text);
    let all = &actions[3];
    assert_eq!(all.id, "BotVoteResetAll");
    assert!(all.fields.is_empty());
}

#[test]
fn staff_user_is_rejected_for_a_head_method() {
    let staff = flags(false, false, false, true);
    let method = RpcMethod::BotVoteReset { bot_id: "1".to_string() };
    let result = authorize_rpc(staff, TargetType::Bot, &method);
    assert!(result.is_err());
    assert_eq!(result.unwrap_err().kind(), ErrorKind::Authorization);
}

#[test]
fn admin_is_rejected_for_a_head_method_by_tier() {
    let admin = flags(false, false, true, true);
    let method = RpcMethod::BotUnverify { bot_id: "1".to_string() };
    assert_eq!(authorize_rpc(admin, TargetType::Bot, &method), Err(RpcError::TierTooLow));
    assert_eq!(RpcError::TierTooLow.kind(), ErrorKind::Authorization);
    assert_eq!(RpcError::TierTooLow.status(), 403);
}

#[test]
fn admin_may_approve_a_bot() {
    let admin = flags(false, false, true, true);
    let method = RpcMethod::BotApprove { bot_id: "1".to_string() };
    assert_eq!(authorize_rpc(admin, TargetType::Bot, &method), Ok(()));
}

#[test]
fn missing_rpc_capability_comes_first() {
    let staff = flags(false, false, false, true);
    let method = RpcMethod::BotApprove { bot_id: "1".to_string() };
    assert_eq!(
        authorize_rpc(staff, TargetType::Server, &method),
        Err(RpcError::MissingCapability)
    );
    assert_eq!(
        RpcError::MissingCapability.message(),
        "You do not have permission to use RPC right now"
    );
}

#[test]
fn unsupported_target_is_refused() {
    let head = flags(false, true, false, true);
    let method = RpcMethod::BotVoteResetAll {};
    assert_eq!(authorize_rpc(head, TargetType::Team, &method), Err(RpcError::UnsupportedTarget));
    assert_eq!(authorize_rpc(head, TargetType::Bot, &method), Ok(()));
    assert_eq!(RpcError::UnsupportedTarget.kind(), ErrorKind::Validation);
}

#[test]
fn method_kinds_and_tiers() {
    assert_eq!(RpcMethodKind::all().len(), 5);
    assert_eq!(RpcMethod::BotDeny { bot_id: String::new() }.kind(), RpcMethodKind::BotDeny);
    assert_eq!(RpcMethod::BotDeny { bot_id: String::new() }.needs_perms(), Tier::Staff);
    assert_eq!(RpcMethodKind::BotVoteResetAll.needs_perms(), Tier::Head);
    assert!(RpcMethodKind::BotApprove.supports(TargetType::Bot));
    assert!(!RpcMethodKind::BotApprove.supports(TargetType::Pack));
}

#[test]
fn outcomes_map_to_responses() {
    let none = rpc_response(RpcOutcome::NoContent);
    assert_eq!((none.status, none.body.as_str()), (204, ""));
    let content = rpc_response(RpcOutcome::Content("invite".to_string()));
    assert_eq!((content.status, content.body.as_str()), (200, "invite"));
    let failure = rpc_response(RpcOutcome::Failure("no such bot".to_string()));
    assert_eq!((failure.status, failure.body.as_str()), (400, "no such bot"));
}
