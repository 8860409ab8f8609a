use arcadia::auth::login;
use arcadia::capability::{Capability, UserPerms};
use arcadia::disk::MemoryDisk;
use arcadia::addfile::{FsReply, FsRequest};
use arcadia::assets::{CdnAssetAction, PathStat};
use arcadia::error::ErrorKind;
use arcadia::panel_query::{check_access, require_capability, search_gate, Access, GateError, PanelQuery};
use arcadia::ratelimit::{check_caller, check_method, next_count, web_rpc_check, RateLimiter, UserRecord, WebRpcError};
use arcadia::rpc::{RpcMethod, TargetType};
use arcadia::session::{AuthError, OtpCheck};
use arcadia::store::SessionStore;
use arcadia::webcore::{hello, CoreConstants, PanelConfig, PanelServers};

fn perms(hadmin: bool, admin: bool, staff: bool) -> UserPerms {
    UserPerms { owner: false, hadmin, iblhdev: false, admin, staff }
}

fn record(hadmin: bool, staff: bool) -> Option<UserRecord> {
    Some(UserRecord {
        user_id: "42".to_string(),
        api_token: "api-token".to_string(),
        perms: perms(hadmin, false, staff),
    })
}

#[test]
fn hello_needs_the_supported_version() {
    let config = hello(2).ok().unwrap();
    assert_eq!(config.description, "Arcadia Production Panel Instance");
    assert_eq!(config.warnings.len(), 1);
    assert!(config.warnings[0].starts_with("The panel is currently undergoing"));
    assert_eq!(hello(1).err(), Some(AuthError::InvalidVersion));
    assert_eq!(hello(3).err(), Some(AuthError::InvalidVersion));
    assert_eq!(AuthError::InvalidVersion.message(), "Invalid version");
    assert_eq!(AuthError::InvalidVersion.status(), 400);
}

#[test]
fn request_counting() {
    assert_eq!(next_count(None), Ok(1));
    assert_eq!(next_count(Some(0)), Ok(1));
    assert_eq!(next_count(Some(2)), Ok(3));
    assert_eq!(next_count(Some(3)), Err(WebRpcError::RateLimited));
    assert_eq!(next_count(Some(u64::MAX)), Err(WebRpcError::RateLimited));
}

#[test]
fn fourth_request_is_over_the_limit() {
    let mut limiter = RateLimiter::new();
    assert_eq!(limiter.hit("42"), Ok(1));
    assert_eq!(limiter.hit("42"), Ok(2));
    assert_eq!(limiter.hit("7"), Ok(1));
    assert_eq!(limiter.hit("42"), Ok(3));
    assert_eq!(limiter.hit("42"), Err(WebRpcError::RateLimited));
    assert_eq!(limiter.hit("42"), Err(WebRpcError::RateLimited));
    assert_eq!(limiter.hit("7"), Ok(2));
    assert_eq!(WebRpcError::RateLimited.status(), 429);
}

#[test]
fn caller_checks_come_in_order() {
    assert_eq!(check_caller(&None, "api-token"), Err(WebRpcError::UserNotFound));
    assert_eq!(check_caller(&record(true, false), "wrong"), Err(WebRpcError::InvalidToken));
    assert_eq!(check_caller(&record(true, false), "api-token"), Err(WebRpcError::NotStaff));
    assert_eq!(check_caller(&record(false, true), "api-token"), Ok(()));
    assert_eq!(WebRpcError::InvalidToken.kind(), ErrorKind::Authentication);
    assert_eq!(WebRpcError::UserNotFound.status(), 401);
    assert_eq!(WebRpcError::UserNotFound.message(), WebRpcError::InvalidToken.message());
    assert_eq!(WebRpcError::NotStaff.message(), "Staff-only endpoint");
}

#[test]
fn head_methods_need_a_head() {
    let reset = RpcMethod::BotVoteReset { bot_id: "1".to_string() };
    let approve = RpcMethod::BotApprove { bot_id: "1".to_string() };
    assert_eq!(check_method(&perms(false, true, true), &reset), Err(WebRpcError::PermissionDenied));
    assert_eq!(check_method(&perms(true, false, true), &reset), Ok(()));
    assert_eq!(check_method(&perms(false, false, true), &approve), Ok(()));
    assert_eq!(check_method(&perms(false, true, true), &RpcMethod::BotVoteResetAll {}), Err(WebRpcError::PermissionDenied));
}

#[test]
fn endpoint_counts_before_it_checks_the_tier() {
    let mut limiter = RateLimiter::new();
    let reset = RpcMethod::BotUnverify { bot_id: "1".to_string() };
    let approve = RpcMethod::BotApprove { bot_id: "1".to_string() };
    assert_eq!(web_rpc_check(&None, "api-token", &approve, &mut limiter), Err(WebRpcError::UserNotFound));
    assert_eq!(
        web_rpc_check(&record(false, true), "bad", &approve, &mut limiter),
        Err(WebRpcError::InvalidToken)
    );
    assert_eq!(
        web_rpc_check(&record(false, true), "api-token", &reset, &mut limiter),
        Err(WebRpcError::PermissionDenied)
    );
    assert_eq!(web_rpc_check(&record(false, true), "api-token", &approve, &mut limiter), Ok(()));
    assert_eq!(web_rpc_check(&record(true, true), "api-token", &reset, &mut limiter), Ok(()));
    assert_eq!(
        web_rpc_check(&record(true, true), "api-token", &reset, &mut limiter),
        Err(WebRpcError::RateLimited)
    );
}

#[test]
fn each_command_names_its_access() {
    let token = "t".to_string();
    assert_eq!(PanelQuery::Hello { version: 2 }.access(), Access::Open);
    assert_eq!(PanelQuery::Logout { login_token: token.clone() }.access(), Access::Open);
    assert_eq!(
        PanelQuery::LoginMfaCheckStatus { login_token: token.clone() }.access(),
        Access::AnySession
    );
    assert_eq!(
        PanelQuery::LoginResetMfa { login_token: token.clone(), otp: String::new() }.access(),
        Access::ActiveSession
    );
    assert_eq!(
        PanelQuery::BotQueue { login_token: token.clone() }.access(),
        Access::Needs(Capability::ViewBotQueue)
    );
    assert_eq!(
        PanelQuery::GetRpcMethods { login_token: token.clone(), filtered: true }.access(),
        Access::Needs(Capability::Rpc)
    );
    assert_eq!(
        PanelQuery::UploadCdnFileChunk { login_token: token.clone(), chunk: vec![1] }.access(),
        Access::Needs(Capability::CdnManagement)
    );
    let update = PanelQuery::UpdateCdnAsset {
        login_token: token.clone(),
        cdn_scope: "main".to_string(),
        name: "a".to_string(),
        path: String::new(),
        action: CdnAssetAction::Delete,
    };
    assert_eq!(update.access(), Access::Needs(Capability::CdnManagement));
    assert_eq!(update.login_token(), Some(&token));
    assert_eq!(
        PanelQuery::DeletePartner { login_token: token.clone(), partner_id: "p".to_string() }.access(),
        Access::Needs(Capability::PartnerManagement)
    );
    let search = |target_type| PanelQuery::SearchEntitys {
        login_token: "t".to_string(),
        target_type,
        query: "q".to_string(),
    };
    assert_eq!(search(TargetType::Bot).access(), Access::Needs(Capability::BotManagement));
    assert_eq!(search(TargetType::Server).access(), Access::ActiveSession);
    assert_eq!(PanelQuery::GetUserPerms { user_id: "1".to_string() }.login_token(), None);
    assert_eq!(search_gate(TargetType::Bot), Ok(()));
    assert_eq!(search_gate(TargetType::Pack), Err(GateError::NotImplemented));
}

#[test]
fn access_is_checked_against_session_and_flags() {
    let mut store = SessionStore::new();
    let pending = login(&mut store, "42", true, 100).unwrap();
    let admin = perms(false, true, true);
    let staff = perms(false, false, true);
    let needs_cdn = Access::Needs(Capability::CdnManagement);
    let expired = Err(GateError::Session(AuthError::InvalidOrExpiredToken));
    assert_eq!(check_access(&store, Access::Open, "", "", &staff), Ok(()));
    assert_eq!(check_access(&store, Access::AnySession, &pending, "42", &staff), Ok(()));
    assert_eq!(check_access(&store, Access::AnySession, "nope", "42", &staff), expired);
    assert_eq!(check_access(&store, Access::ActiveSession, &pending, "42", &staff), expired);
    assert_eq!(check_access(&store, needs_cdn, &pending, "42", &admin), expired);
    store.complete_activation(&pending, OtpCheck::Match).unwrap();
    assert_eq!(check_access(&store, Access::ActiveSession, &pending, "42", &staff), Ok(()));
    assert_eq!(check_access(&store, needs_cdn, &pending, "42", &admin), Ok(()));
    assert_eq!(
        check_access(&store, needs_cdn, &pending, "42", &staff),
        Err(GateError::Forbidden(Capability::CdnManagement))
    );
    assert_eq!(
        check_access(&store, needs_cdn, &pending, "7", &admin),
        Err(GateError::Session(AuthError::UserMismatch))
    );
    assert_eq!(
        require_capability(&vec![Capability::Rpc], Capability::CdnManagement),
        Err(GateError::Forbidden(Capability::CdnManagement))
    );
    assert_eq!(require_capability(&vec![Capability::Rpc], Capability::Rpc), Ok(()));
}

#[test]
fn core_constants_are_copied_from_the_configuration() {
    let constants = CoreConstants {
        frontend_url: "https://f".to_string(),
        infernoplex_url: "https://i".to_string(),
        cdn_url: "https://c".to_string(),
        popplio_url: "https://p".to_string(),
        htmlsanitize_url: "https://h".to_string(),
        servers: PanelServers { main: "1".to_string(), staff: "2".to_string(), testing: "3".to_string() },
    };
    let config = PanelConfig {
        oauth: arcadia::auth::OauthConfig {
            client_id: "id".to_string(),
            client_secret: "SECRET-REDACTED".to_string(),
            redirect_urls: Vec::new(),
        },
        constants,
        cdn_scopes: arcadia::paths::CdnScopes::new(),
        main_scope: "ibl@main".to_string(),
    };
    let copy = config.core_constants();
    assert_eq!(copy.frontend_url, "https://f");
    assert_eq!(copy.infernoplex_url, "https://i");
    assert_eq!(copy.cdn_url, "https://c");
    assert_eq!(copy.popplio_url, "https://p");
    assert_eq!(copy.htmlsanitize_url, "https://h");
    assert_eq!((copy.servers.main.as_str(), copy.servers.staff.as_str(), copy.servers.testing.as_str()), ("1", "2", "3"));
    assert_eq!(config.main_cdn_scope(), "ibl@main");
}

#[test]
fn memory_disk_behaves_like_a_disk() {
    let mut disk = MemoryDisk::new();
    let path = || "/a/f".to_string();
    assert_eq!(disk.stat("/a/f"), PathStat::Missing);
    assert!(matches!(disk.perform(FsRequest::Append { path: path(), bytes: vec![1] }), FsReply::Failed));
    assert!(matches!(disk.perform(FsRequest::ReadAll { path: path() }), FsReply::Failed));
    assert!(matches!(disk.perform(FsRequest::CreateFile { path: path() }), FsReply::Done));
    assert!(matches!(disk.perform(FsRequest::Stat { path: path() }), FsReply::Stat(PathStat::File)));
    assert!(matches!(disk.perform(FsRequest::Append { path: path(), bytes: vec![1, 2] }), FsReply::Done));
    assert!(matches!(disk.perform(FsRequest::Append { path: path(), bytes: vec![3] }), FsReply::Done));
    assert!(matches!(disk.perform(FsRequest::Sync { path: path() }), FsReply::Done));
    assert!(matches!(disk.perform(FsRequest::ReadAll { path: path() }), FsReply::Content(c) if c == vec![1, 2, 3]));
    assert!(matches!(disk.perform(FsRequest::CreateDirAll { path: path() }), FsReply::Failed));
    assert!(matches!(disk.perform(FsRequest::CreateDirAll { path: "/a".to_string() }), FsReply::Done));
    assert_eq!(disk.stat("/a"), PathStat::Dir);
    assert!(matches!(disk.perform(FsRequest::Copy { from: path(), to: "/a".to_string() }), FsReply::Failed));
    assert!(matches!(disk.perform(FsRequest::Copy { from: path(), to: "/a/g".to_string() }), FsReply::Done));
    assert_eq!(disk.read("/a/g"), Some(vec![1, 2, 3]));
    assert!(matches!(disk.perform(FsRequest::Remove { path: path() }), FsReply::Done));
    assert!(matches!(disk.perform(FsRequest::Remove { path: path() }), FsReply::Failed));
    assert_eq!(disk.stat("/a/f"), PathStat::Missing);
    assert_eq!(disk.read("/a/f"), None);
    assert!(matches!(disk.perform(FsRequest::CreateFile { path: path() }), FsReply::Done));
    assert_eq!(disk.read("/a/f"), Some(Vec::new()));
}
