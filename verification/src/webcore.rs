//! What the panel tells a client about itself.

use crate::auth::{OauthConfig, PROTOCOL_VERSION};
use crate::paths::CdnScopes;
use crate::session::AuthError;
use vstd::prelude::*;

verus! {

/// What a client learns when it says hello.
#[derive(Clone)]
pub struct InstanceConfig {
    /// Description of the instance.
    pub description: String,
    /// Any warnings for the instance.
    pub warnings: Vec<String>,
}

/// The ids of the servers that the list runs, as text.
#[derive(Clone)]
pub struct PanelServers {
    pub main: String,
    pub staff: String,
    pub testing: String,
}

/// The addresses that the panel works with.
#[derive(Clone)]
pub struct CoreConstants {
    /// URL of the main site.
    pub frontend_url: String,
    /// URL of the server listing.
    pub infernoplex_url: String,
    /// URL under which assets are served.
    pub cdn_url: String,
    /// URL of the API.
    pub popplio_url: String,
    /// URL of the HTML sanitizer.
    pub htmlsanitize_url: String,
    /// The servers.
    pub servers: PanelServers,
}

/// The configuration of the panel.
pub struct PanelConfig {
    pub oauth: OauthConfig,
    pub constants: CoreConstants,
    /// The scopes under which assets are kept.
    pub cdn_scopes: CdnScopes,
    /// The name of the scope that the list itself uses.
    pub main_scope: String,
}

/// The description that the panel gives of itself.
pub open spec fn instance_description() -> Seq<char> {
    "Arcadia Production Panel Instance"@
}

/// The warning that the panel hands out.
pub open spec fn instance_warning() -> Seq<char> {
    "The panel is currently undergoing large-scale changes while it is being rewritten. Please report any bugs you find to the staff team."@
}

/// Whether two sets of servers hold the same text.
pub open spec fn same_servers(a: PanelServers, b: PanelServers) -> bool {
    a.main@ == b.main@ && a.staff@ == b.staff@ && a.testing@ == b.testing@
}

/// Whether two sets of constants hold the same text.
pub open spec fn same_constants(a: CoreConstants, b: CoreConstants) -> bool {
    &&& a.frontend_url@ == b.frontend_url@
    &&& a.infernoplex_url@ == b.infernoplex_url@
    &&& a.cdn_url@ == b.cdn_url@
    &&& a.popplio_url@ == b.popplio_url@
    &&& a.htmlsanitize_url@ == b.htmlsanitize_url@
    &&& same_servers(a.servers, b.servers)
}

/// Answers a hello: the instance configuration, for a client that speaks
/// the supported version of the protocol.
pub fn hello(version: u16) -> (result: Result<InstanceConfig, AuthError>)
    ensures
        result is Ok <==> version == PROTOCOL_VERSION,
        result matches Err(e) ==> e == AuthError::InvalidVersion,
        result matches Ok(config) ==> config.description@ == instance_description()
            && config.warnings@.len() == 1 && config.warnings@[0]@ == instance_warning(),
{
    if version != PROTOCOL_VERSION {
        return Err(AuthError::InvalidVersion);
    }
    let mut warnings: Vec<String> = Vec::new();
    warnings.push(
        "The panel is currently undergoing large-scale changes while it is being rewritten. Please report any bugs you find to the staff team.".to_owned(),
    );
    Ok(InstanceConfig { description: "Arcadia Production Panel Instance".to_owned(), warnings })
}

impl PanelServers {
    /// A copy with the same text.
    pub fn duplicate(&self) -> (copy: PanelServers)
        ensures
            same_servers(copy, *self),
    {
        PanelServers {
            main: self.main.clone(),
            staff: self.staff.clone(),
            testing: self.testing.clone(),
        }
    }
}

impl PanelConfig {
    /// The constants that a client with an active session is given.
    pub fn core_constants(&self) -> (constants: CoreConstants)
        ensures
            same_constants(constants, self.constants),
    {
        CoreConstants {
            frontend_url: self.constants.frontend_url.clone(),
            infernoplex_url: self.constants.infernoplex_url.clone(),
            cdn_url: self.constants.cdn_url.clone(),
            popplio_url: self.constants.popplio_url.clone(),
            htmlsanitize_url: self.constants.htmlsanitize_url.clone(),
            servers: self.constants.servers.duplicate(),
        }
    }

    /// The name of the main scope.
    pub fn main_cdn_scope(&self) -> (name: String)
        ensures
            name@ == self.main_scope@,
    {
        self.main_scope.clone()
    }
}

} // verus!
