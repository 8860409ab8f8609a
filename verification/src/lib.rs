//! Authorization and command core of a staff administration panel.
//!
//! The crate holds the rules of the panel as verified functions: the
//! capability model, the RPC method registry, the login and session
//! protocol, and the chunked asset pipeline with its path rules.

pub mod addfile;
pub mod assets;
pub mod auth;
pub mod capability;
pub mod chunks;
pub mod crypto;
pub mod disk;
pub mod error;
pub mod onboarding;
pub mod panel_query;
pub mod partners;
pub mod paths;
pub mod publish;
pub mod ratelimit;
pub mod rpc;
pub mod session;
pub mod staff;
pub mod store;
pub mod text;
pub mod webcore;
