//! The commands of the panel and what each asks of its caller.
//!
//! Every command arrives as one variant of [`PanelQuery`]. Before a command
//! is carried out its caller is checked: some commands are open, some need a
//! session, and most need a capability, which in turn needs an active
//! session.

use crate::assets::CdnAssetAction;
use crate::auth::get_capabilities;
use crate::capability::{capability_set, has_capability, Capability, UserPerms};
use crate::partners::CreatePartner;
use crate::rpc::{RpcMethod, TargetType};
use crate::session::{authorized_session, AuthError};
use crate::store::SessionStore;
use vstd::prelude::*;

verus! {

/// A command to the panel.
pub enum PanelQuery {
    /// Returns instance configuration and other important information.
    Hello {
        /// Panel protocol version.
        version: u16,
    },
    /// Returns the login URL.
    GetLoginUrl {
        /// Panel protocol version.
        version: u16,
        /// Redirect URL.
        redirect_url: String,
    },
    /// Logs in, returning a login token.
    Login {
        /// OAuth2 code.
        code: String,
        /// Redirect URL.
        redirect_url: String,
    },
    /// Checks the second-factor status for a login token.
    LoginMfaCheckStatus { login_token: String },
    /// Activates the session of a login token.
    LoginActivateSession {
        login_token: String,
        /// One-time code.
        otp: String,
    },
    /// Resets the second factor of the user behind a login token.
    LoginResetMfa {
        login_token: String,
        /// One-time code.
        otp: String,
    },
    /// Logs a session out.
    Logout { login_token: String },
    /// Returns the user and the creation time behind a login token.
    GetIdentity { login_token: String },
    /// Returns information on a user.
    GetUserDetails { user_id: String },
    /// Returns the permissions of a user.
    GetUserPerms { user_id: String },
    /// Returns the capabilities of the user behind a login token.
    GetCapabilities { login_token: String },
    /// Returns the core constants of the panel.
    GetCoreConstants { login_token: String },
    /// Returns the bot queue.
    BotQueue { login_token: String },
    /// Executes an RPC method on a target.
    ExecuteRpc { login_token: String, target_type: TargetType, method: RpcMethod },
    /// Returns the RPC methods, all of them or those that the caller's tier
    /// reaches.
    GetRpcMethods { login_token: String, filtered: bool },
    /// Returns the kinds of entity that RPC methods act on.
    GetRpcTargetTypes { login_token: String },
    /// Searches for entities of a kind.
    SearchEntitys { login_token: String, target_type: TargetType, query: String },
    /// Uploads a chunk of a file and returns the chunk's id.
    UploadCdnFileChunk { login_token: String, chunk: Vec<u8> },
    /// Lists the scopes under which assets are kept.
    ListCdnScopes { login_token: String },
    /// Returns the main scope.
    GetMainCdnScope { login_token: String },
    /// Does something to an asset.
    UpdateCdnAsset {
        login_token: String,
        cdn_scope: String,
        name: String,
        path: String,
        action: CdnAssetAction,
    },
    /// Returns the partners of the list.
    GetPartnerList { login_token: String },
    /// Adds a partner.
    AddPartner { login_token: String, partner: CreatePartner },
    /// Deletes a partner.
    DeletePartner { login_token: String, partner_id: String },
}

/// What a command asks of its caller.
#[derive(Clone, Copy, Debug, PartialEq, Eq, Structural)]
pub enum Access {
    /// Nothing.
    Open,
    /// A session, pending or active.
    AnySession,
    /// An active session.
    ActiveSession,
    /// A capability, and with it an active session.
    Needs(Capability),
}

/// Why a caller is turned away.
#[derive(Clone, Copy, Debug, PartialEq, Eq, Structural)]
pub enum GateError {
    /// The session does not count.
    Session(AuthError),
    /// The caller lacks the capability.
    Forbidden(Capability),
    /// The command is not carried out for this kind of entity.
    NotImplemented,
}

/// What each command asks of its caller.
pub open spec fn access_of(query: PanelQuery) -> Access {
    match query {
        PanelQuery::Hello { .. } => Access::Open,
        PanelQuery::GetLoginUrl { .. } => Access::Open,
        PanelQuery::Login { .. } => Access::Open,
        PanelQuery::LoginMfaCheckStatus { .. } => Access::AnySession,
        PanelQuery::LoginActivateSession { .. } => Access::AnySession,
        PanelQuery::LoginResetMfa { .. } => Access::ActiveSession,
        PanelQuery::Logout { .. } => Access::Open,
        PanelQuery::GetIdentity { .. } => Access::ActiveSession,
        PanelQuery::GetUserDetails { .. } => Access::Open,
        PanelQuery::GetUserPerms { .. } => Access::Open,
        PanelQuery::GetCapabilities { .. } => Access::ActiveSession,
        PanelQuery::GetCoreConstants { .. } => Access::ActiveSession,
        PanelQuery::BotQueue { .. } => Access::Needs(Capability::ViewBotQueue),
        PanelQuery::ExecuteRpc { .. } => Access::Needs(Capability::Rpc),
        PanelQuery::GetRpcMethods { .. } => Access::Needs(Capability::Rpc),
        PanelQuery::GetRpcTargetTypes { .. } => Access::Needs(Capability::Rpc),
        PanelQuery::SearchEntitys { target_type, .. } => if target_type == TargetType::Bot {
            Access::Needs(Capability::BotManagement)
        } else {
            Access::ActiveSession
        },
        PanelQuery::UploadCdnFileChunk { .. } => Access::Needs(Capability::CdnManagement),
        PanelQuery::ListCdnScopes { .. } => Access::Needs(Capability::CdnManagement),
        PanelQuery::GetMainCdnScope { .. } => Access::Needs(Capability::CdnManagement),
        PanelQuery::UpdateCdnAsset { .. } => Access::Needs(Capability::CdnManagement),
        PanelQuery::GetPartnerList { .. } => Access::Needs(Capability::PartnerManagement),
        PanelQuery::AddPartner { .. } => Access::Needs(Capability::PartnerManagement),
        PanelQuery::DeletePartner { .. } => Access::Needs(Capability::PartnerManagement),
    }
}

/// The login token that a command carries, if it carries one.
pub open spec fn token_of(query: PanelQuery) -> Option<Seq<char>> {
    match query {
        PanelQuery::Hello { .. } => None,
        PanelQuery::GetLoginUrl { .. } => None,
        PanelQuery::Login { .. } => None,
        PanelQuery::GetUserDetails { .. } => None,
        PanelQuery::GetUserPerms { .. } => None,
        PanelQuery::LoginMfaCheckStatus { login_token } => Some(login_token@),
        PanelQuery::LoginActivateSession { login_token, .. } => Some(login_token@),
        PanelQuery::LoginResetMfa { login_token, .. } => Some(login_token@),
        PanelQuery::Logout { login_token } => Some(login_token@),
        PanelQuery::GetIdentity { login_token } => Some(login_token@),
        PanelQuery::GetCapabilities { login_token } => Some(login_token@),
        PanelQuery::GetCoreConstants { login_token } => Some(login_token@),
        PanelQuery::BotQueue { login_token } => Some(login_token@),
        PanelQuery::ExecuteRpc { login_token, .. } => Some(login_token@),
        PanelQuery::GetRpcMethods { login_token, .. } => Some(login_token@),
        PanelQuery::GetRpcTargetTypes { login_token } => Some(login_token@),
        PanelQuery::SearchEntitys { login_token, .. } => Some(login_token@),
        PanelQuery::UploadCdnFileChunk { login_token, .. } => Some(login_token@),
        PanelQuery::ListCdnScopes { login_token } => Some(login_token@),
        PanelQuery::GetMainCdnScope { login_token } => Some(login_token@),
        PanelQuery::UpdateCdnAsset { login_token, .. } => Some(login_token@),
        PanelQuery::GetPartnerList { login_token } => Some(login_token@),
        PanelQuery::AddPartner { login_token, .. } => Some(login_token@),
        PanelQuery::DeletePartner { login_token, .. } => Some(login_token@),
    }
}

impl PanelQuery {
    /// What this command asks of its caller.
    pub fn access(&self) -> (access: Access)
        ensures
            access == access_of(*self),
    {
        match self {
            PanelQuery::Hello { .. } => Access::Open,
            PanelQuery::GetLoginUrl { .. } => Access::Open,
            PanelQuery::Login { .. } => Access::Open,
            PanelQuery::LoginMfaCheckStatus { .. } => Access::AnySession,
            PanelQuery::LoginActivateSession { .. } => Access::AnySession,
            PanelQuery::LoginResetMfa { .. } => Access::ActiveSession,
            PanelQuery::Logout { .. } => Access::Open,
            PanelQuery::GetIdentity { .. } => Access::ActiveSession,
            PanelQuery::GetUserDetails { .. } => Access::Open,
            PanelQuery::GetUserPerms { .. } => Access::Open,
            PanelQuery::GetCapabilities { .. } => Access::ActiveSession,
            PanelQuery::GetCoreConstants { .. } => Access::ActiveSession,
            PanelQuery::BotQueue { .. } => Access::Needs(Capability::ViewBotQueue),
            PanelQuery::ExecuteRpc { .. } => Access::Needs(Capability::Rpc),
            PanelQuery::GetRpcMethods { .. } => Access::Needs(Capability::Rpc),
            PanelQuery::GetRpcTargetTypes { .. } => Access::Needs(Capability::Rpc),
            PanelQuery::SearchEntitys { target_type, .. } => match target_type {
                TargetType::Bot => Access::Needs(Capability::BotManagement),
                _ => Access::ActiveSession,
            },
            PanelQuery::UploadCdnFileChunk { .. } => Access::Needs(Capability::CdnManagement),
            PanelQuery::ListCdnScopes { .. } => Access::Needs(Capability::CdnManagement),
            PanelQuery::GetMainCdnScope { .. } => Access::Needs(Capability::CdnManagement),
            PanelQuery::UpdateCdnAsset { .. } => Access::Needs(Capability::CdnManagement),
            PanelQuery::GetPartnerList { .. } => Access::Needs(Capability::PartnerManagement),
            PanelQuery::AddPartner { .. } => Access::Needs(Capability::PartnerManagement),
            PanelQuery::DeletePartner { .. } => Access::Needs(Capability::PartnerManagement),
        }
    }

    /// The login token that this command carries.
    pub fn login_token(&self) -> (token: Option<&String>)
        ensures
            match token {
                Some(text) => token_of(*self) == Some(text@),
                None => token_of(*self) is None,
            },
    {
        match self {
            PanelQuery::Hello { .. } => None,
            PanelQuery::GetLoginUrl { .. } => None,
            PanelQuery::Login { .. } => None,
            PanelQuery::GetUserDetails { .. } => None,
            PanelQuery::GetUserPerms { .. } => None,
            PanelQuery::LoginMfaCheckStatus { login_token } => Some(login_token),
            PanelQuery::LoginActivateSession { login_token, .. } => Some(login_token),
            PanelQuery::LoginResetMfa { login_token, .. } => Some(login_token),
            PanelQuery::Logout { login_token } => Some(login_token),
            PanelQuery::GetIdentity { login_token } => Some(login_token),
            PanelQuery::GetCapabilities { login_token } => Some(login_token),
            PanelQuery::GetCoreConstants { login_token } => Some(login_token),
            PanelQuery::BotQueue { login_token } => Some(login_token),
            PanelQuery::ExecuteRpc { login_token, .. } => Some(login_token),
            PanelQuery::GetRpcMethods { login_token, .. } => Some(login_token),
            PanelQuery::GetRpcTargetTypes { login_token } => Some(login_token),
            PanelQuery::SearchEntitys { login_token, .. } => Some(login_token),
            PanelQuery::UploadCdnFileChunk { login_token, .. } => Some(login_token),
            PanelQuery::ListCdnScopes { login_token } => Some(login_token),
            PanelQuery::GetMainCdnScope { login_token } => Some(login_token),
            PanelQuery::UpdateCdnAsset { login_token, .. } => Some(login_token),
            PanelQuery::GetPartnerList { login_token } => Some(login_token),
            PanelQuery::AddPartner { login_token, .. } => Some(login_token),
            PanelQuery::DeletePartner { login_token, .. } => Some(login_token),
        }
    }
}

/// What a caller is told who lacks a capability.
pub open spec fn forbidden_message(cap: Capability) -> Seq<char> {
    match cap {
        Capability::ViewBotQueue => "You do not have permission to access the bot queue right now"@,
        Capability::Rpc => "You do not have permission to use RPC right now"@,
        Capability::BotManagement => "You do not have permission to manage bots right now?"@,
        Capability::CdnManagement => "You do not have permission to manage the CDN right now?"@,
        Capability::PartnerManagement => "You do not have permission to manage partners right now?"@,
    }
}

/// The status that goes with turning a caller away.
pub open spec fn gate_status(error: GateError) -> u16 {
    match error {
        GateError::Session(e) => crate::error::auth_status(e),
        GateError::Forbidden(_) => 403,
        GateError::NotImplemented => 501,
    }
}

/// The message that goes with turning a caller away.
pub open spec fn gate_message(error: GateError) -> Seq<char> {
    match error {
        GateError::Session(e) => crate::error::auth_message(e),
        GateError::Forbidden(cap) => forbidden_message(cap),
        GateError::NotImplemented => "Searching this target type is not implemented"@,
    }
}

impl GateError {
    /// The status that goes with this refusal.
    pub fn status(&self) -> (status: u16)
        ensures
            status == gate_status(*self),
    {
        match self {
            GateError::Session(e) => e.status(),
            GateError::Forbidden(_) => 403,
            GateError::NotImplemented => 501,
        }
    }

    /// The message that goes with this refusal.
    pub fn message(&self) -> (message: String)
        ensures
            message@ == gate_message(*self),
    {
        match self {
            GateError::Session(e) => e.message(),
            GateError::Forbidden(cap) => match cap {
                Capability::ViewBotQueue => "You do not have permission to access the bot queue right now".to_owned(),
                Capability::Rpc => "You do not have permission to use RPC right now".to_owned(),
                Capability::BotManagement => "You do not have permission to manage bots right now?".to_owned(),
                Capability::CdnManagement => "You do not have permission to manage the CDN right now?".to_owned(),
                Capability::PartnerManagement => "You do not have permission to manage partners right now?".to_owned(),
            },
            GateError::NotImplemented => "Searching this target type is not implemented".to_owned(),
        }
    }
}

/// Checks that a derived capability list holds `cap`.
pub fn require_capability(caps: &Vec<Capability>, cap: Capability) -> (result: Result<
    (),
    GateError,
>)
    ensures
        result is Ok <==> caps@.contains(cap),
        result matches Err(e) ==> e == GateError::Forbidden(cap),
{
    if has_capability(caps, cap) {
        Ok(())
    } else {
        Err(GateError::Forbidden(cap))
    }
}

/// Why a caller with the given token and role flags is turned away from a
/// command with the given access, if it is.
pub open spec fn gate_refusal(
    store: SessionStore,
    access: Access,
    token: Seq<char>,
    user: Seq<char>,
    perms: UserPerms,
) -> Option<GateError> {
    match access {
        Access::Open => None,
        Access::AnySession => if authorized_session(store@, token, false) is None {
            Some(GateError::Session(AuthError::InvalidOrExpiredToken))
        } else {
            None
        },
        Access::ActiveSession => if authorized_session(store@, token, true) is None {
            Some(GateError::Session(AuthError::InvalidOrExpiredToken))
        } else {
            None
        },
        Access::Needs(cap) => match authorized_session(store@, token, true) {
            None => Some(GateError::Session(AuthError::InvalidOrExpiredToken)),
            Some(row) => if row.user != user {
                Some(GateError::Session(AuthError::UserMismatch))
            } else if !capability_set(perms.flags()).contains(cap) {
                Some(GateError::Forbidden(cap))
            } else {
                None
            },
        },
    }
}

/// Checks the caller of a command: the session behind the token, and for a
/// command that needs a capability the role flags of the session's user,
/// which `user` and `perms` hand in.
pub fn check_access(
    store: &SessionStore,
    access: Access,
    token: &str,
    user: &str,
    perms: &UserPerms,
) -> (result: Result<(), GateError>)
    ensures
        match result {
            Ok(()) => gate_refusal(*store, access, token@, user@, *perms) is None,
            Err(e) => gate_refusal(*store, access, token@, user@, *perms) == Some(e),
        },
{
    match access {
        Access::Open => Ok(()),
        Access::AnySession => match store.check_auth_insecure(token) {
            Ok(_) => Ok(()),
            Err(e) => Err(GateError::Session(e)),
        },
        Access::ActiveSession => match store.check_auth(token) {
            Ok(_) => Ok(()),
            Err(e) => Err(GateError::Session(e)),
        },
        Access::Needs(cap) => match get_capabilities(store, token, user, perms) {
            Err(e) => Err(GateError::Session(e)),
            Ok(caps) => {
                assert(caps@.contains(cap) <==> caps@.to_set().contains(cap));
                require_capability(&caps, cap)
            },
        },
    }
}

/// What a search comes to for a kind of entity: only bots can be searched.
pub fn search_gate(target: TargetType) -> (result: Result<(), GateError>)
    ensures
        result is Ok <==> target == TargetType::Bot,
        result matches Err(e) ==> e == GateError::NotImplemented,
{
    match target {
        TargetType::Bot => Ok(()),
        _ => Err(GateError::NotImplemented),
    }
}

} // verus!
