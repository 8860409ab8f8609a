//! The kinds of error, and the status and the message that go with each
//! error towards a client.
//!
//! Failures of authentication and of authorization say nothing about
//! whether a user exists. Errors of validation, integrity and conflict name
//! their reason.

use crate::assets::AssetError;
use crate::chunks::ChunkError;
use crate::partners::PartnerError;
use crate::paths::PathError;
use crate::ratelimit::WebRpcError;
use crate::rpc::RpcError;
use crate::session::AuthError;
use vstd::prelude::*;

verus! {

/// The kinds of error that the panel tells apart.
#[derive(Clone, Copy, Debug, PartialEq, Eq, Structural)]
pub enum ErrorKind {
    /// A token is bad, expired or in the wrong state.
    Authentication,
    /// A capability or a tier does not suffice.
    Authorization,
    /// An input is malformed.
    Validation,
    /// A digest does not match, or a chunk is missing.
    Integrity,
    /// Something exists already, or a session is active already.
    Conflict,
    /// Something does not exist.
    NotFound,
    /// The store or the disk failed.
    Infrastructure,
}

/// The kind of each `AuthError`.
pub open spec fn auth_kind(error: AuthError) -> ErrorKind {
    match error {
        AuthError::InvalidVersion => ErrorKind::Validation,
        AuthError::InvalidRedirect => ErrorKind::Validation,
        AuthError::NotStaff => ErrorKind::Authorization,
        AuthError::InvalidOrExpiredToken => ErrorKind::Authentication,
        AuthError::SessionAlreadyActive => ErrorKind::Conflict,
        AuthError::InvalidPanelData => ErrorKind::NotFound,
        AuthError::MfaNotSetup => ErrorKind::NotFound,
        AuthError::MfaInvalidCode => ErrorKind::Authentication,
        AuthError::MfaSecretCorrupt => ErrorKind::Infrastructure,
        AuthError::OtpUnavailable => ErrorKind::Infrastructure,
        AuthError::UserMismatch => ErrorKind::Authentication,
        AuthError::TokenInUse => ErrorKind::Infrastructure,
        AuthError::EnrollmentFailed => ErrorKind::Infrastructure,
    }
}

/// The status that goes with each `AuthError`.
pub open spec fn auth_status(error: AuthError) -> u16 {
    match error {
        AuthError::InvalidVersion => 400,
        AuthError::InvalidRedirect => 400,
        AuthError::NotStaff => 403,
        AuthError::InvalidOrExpiredToken => 500,
        AuthError::SessionAlreadyActive => 400,
        AuthError::InvalidPanelData => 400,
        AuthError::MfaNotSetup => 400,
        AuthError::MfaInvalidCode => 400,
        AuthError::MfaSecretCorrupt => 500,
        AuthError::OtpUnavailable => 500,
        AuthError::UserMismatch => 500,
        AuthError::TokenInUse => 500,
        AuthError::EnrollmentFailed => 500,
    }
}

/// The message that goes with each `AuthError`.
pub open spec fn auth_message(error: AuthError) -> Seq<char> {
    match error {
        AuthError::InvalidVersion => "Invalid version"@,
        AuthError::InvalidRedirect => "Invalid redirect url"@,
        AuthError::NotStaff => "You are not staff"@,
        AuthError::InvalidOrExpiredToken => "identityExpired"@,
        AuthError::SessionAlreadyActive => "sessionAlreadyActive"@,
        AuthError::InvalidPanelData => "invalidPanelData"@,
        AuthError::MfaNotSetup => "mfaNotSetup"@,
        AuthError::MfaInvalidCode => "mfaInvalidCode"@,
        AuthError::MfaSecretCorrupt => "mfaSecretCorrupt"@,
        AuthError::OtpUnavailable => "otpUnavailable"@,
        AuthError::UserMismatch => "identityMismatch"@,
        AuthError::TokenInUse => "tokenInUse"@,
        AuthError::EnrollmentFailed => "enrollmentFailed"@,
    }
}

impl AuthError {
    /// The kind of this error.
    pub fn kind(&self) -> (kind: ErrorKind)
        ensures
            kind == auth_kind(*self),
    {
        match self {
            AuthError::InvalidVersion => ErrorKind::Validation,
            AuthError::InvalidRedirect => ErrorKind::Validation,
            AuthError::NotStaff => ErrorKind::Authorization,
            AuthError::InvalidOrExpiredToken => ErrorKind::Authentication,
            AuthError::SessionAlreadyActive => ErrorKind::Conflict,
            AuthError::InvalidPanelData => ErrorKind::NotFound,
            AuthError::MfaNotSetup => ErrorKind::NotFound,
            AuthError::MfaInvalidCode => ErrorKind::Authentication,
            AuthError::MfaSecretCorrupt => ErrorKind::Infrastructure,
            AuthError::OtpUnavailable => ErrorKind::Infrastructure,
            AuthError::UserMismatch => ErrorKind::Authentication,
            AuthError::TokenInUse => ErrorKind::Infrastructure,
            AuthError::EnrollmentFailed => ErrorKind::Infrastructure,
        }
    }

    /// The status that goes with this error.
    pub fn status(&self) -> (status: u16)
        ensures
            status == auth_status(*self),
    {
        match self {
            AuthError::InvalidVersion => 400,
            AuthError::InvalidRedirect => 400,
            AuthError::NotStaff => 403,
            AuthError::InvalidOrExpiredToken => 500,
            AuthError::SessionAlreadyActive => 400,
            AuthError::InvalidPanelData => 400,
            AuthError::MfaNotSetup => 400,
            AuthError::MfaInvalidCode => 400,
            AuthError::MfaSecretCorrupt => 500,
            AuthError::OtpUnavailable => 500,
            AuthError::UserMismatch => 500,
            AuthError::TokenInUse => 500,
            AuthError::EnrollmentFailed => 500,
        }
    }

    /// The message that goes with this error.
    pub fn message(&self) -> (message: String)
        ensures
            message@ == auth_message(*self),
    {
        match self {
            AuthError::InvalidVersion => "Invalid version".to_owned(),
            AuthError::InvalidRedirect => "Invalid redirect url".to_owned(),
            AuthError::NotStaff => "You are not staff".to_owned(),
            AuthError::InvalidOrExpiredToken => "identityExpired".to_owned(),
            AuthError::SessionAlreadyActive => "sessionAlreadyActive".to_owned(),
            AuthError::InvalidPanelData => "invalidPanelData".to_owned(),
            AuthError::MfaNotSetup => "mfaNotSetup".to_owned(),
            AuthError::MfaInvalidCode => "mfaInvalidCode".to_owned(),
            AuthError::MfaSecretCorrupt => "mfaSecretCorrupt".to_owned(),
            AuthError::OtpUnavailable => "otpUnavailable".to_owned(),
            AuthError::UserMismatch => "identityMismatch".to_owned(),
            AuthError::TokenInUse => "tokenInUse".to_owned(),
            AuthError::EnrollmentFailed => "enrollmentFailed".to_owned(),
        }
    }
}

/// The kind of each `PathError`.
pub open spec fn path_kind(error: PathError) -> ErrorKind {
    match error {
        PathError::InvalidScope => ErrorKind::Validation,
        PathError::InvalidName => ErrorKind::Validation,
        PathError::InvalidPath => ErrorKind::Validation,
    }
}

/// The status that goes with each `PathError`.
pub open spec fn path_status(error: PathError) -> u16 {
    match error {
        PathError::InvalidScope => 400,
        PathError::InvalidName => 500,
        PathError::InvalidPath => 500,
    }
}

/// The message that goes with each `PathError`.
pub open spec fn path_message(error: PathError) -> Seq<char> {
    match error {
        PathError::InvalidScope => "Invalid CDN scope"@,
        PathError::InvalidName => "Asset name cannot contain disallowed characters, slashes or backslashes or start with a dot"@,
        PathError::InvalidPath => "Asset path cannot contain non-ASCII characters, dot-dots, doubleslashes, backslashes or start with a slash"@,
    }
}

impl PathError {
    /// The kind of this error.
    pub fn kind(&self) -> (kind: ErrorKind)
        ensures
            kind == path_kind(*self),
    {
        match self {
            PathError::InvalidScope => ErrorKind::Validation,
            PathError::InvalidName => ErrorKind::Validation,
            PathError::InvalidPath => ErrorKind::Validation,
        }
    }

    /// The status that goes with this error.
    pub fn status(&self) -> (status: u16)
        ensures
            status == path_status(*self),
    {
        match self {
            PathError::InvalidScope => 400,
            PathError::InvalidName => 500,
            PathError::InvalidPath => 500,
        }
    }

    /// The message that goes with this error.
    pub fn message(&self) -> (message: String)
        ensures
            message@ == path_message(*self),
    {
        match self {
            PathError::InvalidScope => "Invalid CDN scope".to_owned(),
            PathError::InvalidName => "Asset name cannot contain disallowed characters, slashes or backslashes or start with a dot".to_owned(),
            PathError::InvalidPath => "Asset path cannot contain non-ASCII characters, dot-dots, doubleslashes, backslashes or start with a slash".to_owned(),
        }
    }
}

/// The kind of each `ChunkError`.
pub open spec fn chunk_kind(error: ChunkError) -> ErrorKind {
    match error {
        ChunkError::Empty => ErrorKind::Validation,
        ChunkError::TooLarge => ErrorKind::Validation,
        ChunkError::IdExhausted => ErrorKind::Infrastructure,
        ChunkError::NoChunks => ErrorKind::Validation,
        ChunkError::TooManyChunks => ErrorKind::Validation,
        ChunkError::Missing => ErrorKind::Integrity,
    }
}

/// The status that goes with each `ChunkError`.
pub open spec fn chunk_status(error: ChunkError) -> u16 {
    match error {
        ChunkError::Empty => 400,
        ChunkError::TooLarge => 400,
        ChunkError::IdExhausted => 500,
        ChunkError::NoChunks => 400,
        ChunkError::TooManyChunks => 400,
        ChunkError::Missing => 400,
    }
}

/// The message that goes with each `ChunkError`.
pub open spec fn chunk_message(error: ChunkError) -> Seq<char> {
    match error {
        ChunkError::Empty => "Chunk is empty"@,
        ChunkError::TooLarge => "Chunk size is too large"@,
        ChunkError::IdExhausted => "Failed to generate a chunk ID"@,
        ChunkError::NoChunks => "No chunks were provided"@,
        ChunkError::TooManyChunks => "Too many chunks were provided"@,
        ChunkError::Missing => "Chunk does not exist"@,
    }
}

impl ChunkError {
    /// The kind of this error.
    pub fn kind(&self) -> (kind: ErrorKind)
        ensures
            kind == chunk_kind(*self),
    {
        match self {
            ChunkError::Empty => ErrorKind::Validation,
            ChunkError::TooLarge => ErrorKind::Validation,
            ChunkError::IdExhausted => ErrorKind::Infrastructure,
            ChunkError::NoChunks => ErrorKind::Validation,
            ChunkError::TooManyChunks => ErrorKind::Validation,
            ChunkError::Missing => ErrorKind::Integrity,
        }
    }

    /// The status that goes with this error.
    pub fn status(&self) -> (status: u16)
        ensures
            status == chunk_status(*self),
    {
        match self {
            ChunkError::Empty => 400,
            ChunkError::TooLarge => 400,
            ChunkError::IdExhausted => 500,
            ChunkError::NoChunks => 400,
            ChunkError::TooManyChunks => 400,
            ChunkError::Missing => 400,
        }
    }

    /// The message that goes with this error.
    pub fn message(&self) -> (message: String)
        ensures
            message@ == chunk_message(*self),
    {
        match self {
            ChunkError::Empty => "Chunk is empty".to_owned(),
            ChunkError::TooLarge => "Chunk size is too large".to_owned(),
            ChunkError::IdExhausted => "Failed to generate a chunk ID".to_owned(),
            ChunkError::NoChunks => "No chunks were provided".to_owned(),
            ChunkError::TooManyChunks => "Too many chunks were provided".to_owned(),
            ChunkError::Missing => "Chunk does not exist".to_owned(),
        }
    }
}

/// The kind of each `AssetError`.
pub open spec fn asset_kind(error: AssetError) -> ErrorKind {
    match error {
        AssetError::NotADirectory => ErrorKind::Conflict,
        AssetError::NotAFile => ErrorKind::Validation,
        AssetError::AlreadyExists => ErrorKind::Conflict,
        AssetError::ReplacesDirectory => ErrorKind::Conflict,
        AssetError::MetadataFailed => ErrorKind::Infrastructure,
        AssetError::NotFound => ErrorKind::NotFound,
        AssetError::NoChunks => ErrorKind::Validation,
        AssetError::TooManyChunks => ErrorKind::Validation,
        AssetError::ChunkMissing => ErrorKind::Integrity,
        AssetError::HashMismatch => ErrorKind::Integrity,
        AssetError::EmptyCopyTarget => ErrorKind::Validation,
        AssetError::InvalidCopyTarget => ErrorKind::Validation,
        AssetError::CopyTargetExists => ErrorKind::Conflict,
        AssetError::Io => ErrorKind::Infrastructure,
        AssetError::UnexpectedReply => ErrorKind::Infrastructure,
    }
}

/// The status that goes with each `AssetError`.
pub open spec fn asset_status(error: AssetError) -> u16 {
    match error {
        AssetError::NotADirectory => 400,
        AssetError::NotAFile => 400,
        AssetError::AlreadyExists => 400,
        AssetError::ReplacesDirectory => 400,
        AssetError::MetadataFailed => 400,
        AssetError::NotFound => 400,
        AssetError::NoChunks => 400,
        AssetError::TooManyChunks => 400,
        AssetError::ChunkMissing => 400,
        AssetError::HashMismatch => 400,
        AssetError::EmptyCopyTarget => 400,
        AssetError::InvalidCopyTarget => 500,
        AssetError::CopyTargetExists => 400,
        AssetError::Io => 500,
        AssetError::UnexpectedReply => 500,
    }
}

/// The message that goes with each `AssetError`.
pub open spec fn asset_message(error: AssetError) -> Seq<char> {
    match error {
        AssetError::NotADirectory => "Asset path already exists and is not a directory"@,
        AssetError::NotAFile => "Asset path is not a file"@,
        AssetError::AlreadyExists => "Asset already exists"@,
        AssetError::ReplacesDirectory => "Asset to be replaced is a directory"@,
        AssetError::MetadataFailed => "Fetching asset metadata failed"@,
        AssetError::NotFound => "Could not find asset"@,
        AssetError::NoChunks => "No chunks were provided"@,
        AssetError::TooManyChunks => "Too many chunks were provided"@,
        AssetError::ChunkMissing => "Chunk does not exist"@,
        AssetError::HashMismatch => "SHA512 hash does not match"@,
        AssetError::EmptyCopyTarget => "copy_to location cannot be empty"@,
        AssetError::InvalidCopyTarget => "Asset path cannot contain non-ASCII characters, dot-dots, doubleslashes, backslashes or start with a slash"@,
        AssetError::CopyTargetExists => "copy_to location already exists"@,
        AssetError::Io => "Operation on the disk failed"@,
        AssetError::UnexpectedReply => "Unexpected reply"@,
    }
}

impl AssetError {
    /// The kind of this error.
    pub fn kind(&self) -> (kind: ErrorKind)
        ensures
            kind == asset_kind(*self),
    {
        match self {
            AssetError::NotADirectory => ErrorKind::Conflict,
            AssetError::NotAFile => ErrorKind::Validation,
            AssetError::AlreadyExists => ErrorKind::Conflict,
            AssetError::ReplacesDirectory => ErrorKind::Conflict,
            AssetError::MetadataFailed => ErrorKind::Infrastructure,
            AssetError::NotFound => ErrorKind::NotFound,
            AssetError::NoChunks => ErrorKind::Validation,
            AssetError::TooManyChunks => ErrorKind::Validation,
            AssetError::ChunkMissing => ErrorKind::Integrity,
            AssetError::HashMismatch => ErrorKind::Integrity,
            AssetError::EmptyCopyTarget => ErrorKind::Validation,
            AssetError::InvalidCopyTarget => ErrorKind::Validation,
            AssetError::CopyTargetExists => ErrorKind::Conflict,
            AssetError::Io => ErrorKind::Infrastructure,
            AssetError::UnexpectedReply => ErrorKind::Infrastructure,
        }
    }

    /// The status that goes with this error.
    pub fn status(&self) -> (status: u16)
        ensures
            status == asset_status(*self),
    {
        match self {
            AssetError::NotADirectory => 400,
            AssetError::NotAFile => 400,
            AssetError::AlreadyExists => 400,
            AssetError::ReplacesDirectory => 400,
            AssetError::MetadataFailed => 400,
            AssetError::NotFound => 400,
            AssetError::NoChunks => 400,
            AssetError::TooManyChunks => 400,
            AssetError::ChunkMissing => 400,
            AssetError::HashMismatch => 400,
            AssetError::EmptyCopyTarget => 400,
            AssetError::InvalidCopyTarget => 500,
            AssetError::CopyTargetExists => 400,
            AssetError::Io => 500,
            AssetError::UnexpectedReply => 500,
        }
    }

    /// The message that goes with this error.
    pub fn message(&self) -> (message: String)
        ensures
            message@ == asset_message(*self),
    {
        match self {
            AssetError::NotADirectory => "Asset path already exists and is not a directory".to_owned(),
            AssetError::NotAFile => "Asset path is not a file".to_owned(),
            AssetError::AlreadyExists => "Asset already exists".to_owned(),
            AssetError::ReplacesDirectory => "Asset to be replaced is a directory".to_owned(),
            AssetError::MetadataFailed => "Fetching asset metadata failed".to_owned(),
            AssetError::NotFound => "Could not find asset".to_owned(),
            AssetError::NoChunks => "No chunks were provided".to_owned(),
            AssetError::TooManyChunks => "Too many chunks were provided".to_owned(),
            AssetError::ChunkMissing => "Chunk does not exist".to_owned(),
            AssetError::HashMismatch => "SHA512 hash does not match".to_owned(),
            AssetError::EmptyCopyTarget => "copy_to location cannot be empty".to_owned(),
            AssetError::InvalidCopyTarget => "Asset path cannot contain non-ASCII characters, dot-dots, doubleslashes, backslashes or start with a slash".to_owned(),
            AssetError::CopyTargetExists => "copy_to location already exists".to_owned(),
            AssetError::Io => "Operation on the disk failed".to_owned(),
            AssetError::UnexpectedReply => "Unexpected reply".to_owned(),
        }
    }
}

/// The kind of each `PartnerError`.
pub open spec fn partner_kind(error: PartnerError) -> ErrorKind {
    match error {
        PartnerError::InvalidId => ErrorKind::Validation,
        PartnerError::UnknownType => ErrorKind::Validation,
        PartnerError::NoMainScope => ErrorKind::Infrastructure,
        PartnerError::ImageUnavailable => ErrorKind::Infrastructure,
        PartnerError::ImageMissing => ErrorKind::Validation,
        PartnerError::ImageTooLarge => ErrorKind::Validation,
        PartnerError::ImageEmpty => ErrorKind::Validation,
        PartnerError::NoLinks => ErrorKind::Validation,
        PartnerError::LinkNameEmpty => ErrorKind::Validation,
        PartnerError::LinkUrlEmpty => ErrorKind::Validation,
        PartnerError::LinkNotHttps => ErrorKind::Validation,
        PartnerError::UnknownUser => ErrorKind::Validation,
        PartnerError::AlreadyExists => ErrorKind::Conflict,
        PartnerError::NotFound => ErrorKind::NotFound,
        PartnerError::MetadataFailed => ErrorKind::Infrastructure,
    }
}

/// The status that goes with each `PartnerError`.
pub open spec fn partner_status(error: PartnerError) -> u16 {
    match error {
        PartnerError::InvalidId => 400,
        PartnerError::UnknownType => 400,
        PartnerError::NoMainScope => 400,
        PartnerError::ImageUnavailable => 400,
        PartnerError::ImageMissing => 400,
        PartnerError::ImageTooLarge => 400,
        PartnerError::ImageEmpty => 400,
        PartnerError::NoLinks => 400,
        PartnerError::LinkNameEmpty => 400,
        PartnerError::LinkUrlEmpty => 400,
        PartnerError::LinkNotHttps => 400,
        PartnerError::UnknownUser => 400,
        PartnerError::AlreadyExists => 400,
        PartnerError::NotFound => 400,
        PartnerError::MetadataFailed => 400,
    }
}

/// The message that goes with each `PartnerError`.
pub open spec fn partner_message(error: PartnerError) -> Seq<char> {
    match error {
        PartnerError::InvalidId => "Partner ID and image type cannot contain disallowed characters"@,
        PartnerError::UnknownType => "Partner type does not exist"@,
        PartnerError::NoMainScope => "Main scope not found"@,
        PartnerError::ImageUnavailable => "Fetching image metadata failed"@,
        PartnerError::ImageMissing => "Image does not exist"@,
        PartnerError::ImageTooLarge => "Image is too large"@,
        PartnerError::ImageEmpty => "Image is empty"@,
        PartnerError::NoLinks => "Links cannot be empty"@,
        PartnerError::LinkNameEmpty => "Link name cannot be empty"@,
        PartnerError::LinkUrlEmpty => "Link URL cannot be empty"@,
        PartnerError::LinkNotHttps => "Link URL must start with https://"@,
        PartnerError::UnknownUser => "User does not exist"@,
        PartnerError::AlreadyExists => "Partner already exists"@,
        PartnerError::NotFound => "Partner does not exist"@,
        PartnerError::MetadataFailed => "Fetching asset metadata failed due to unknown error"@,
    }
}

impl PartnerError {
    /// The kind of this error.
    pub fn kind(&self) -> (kind: ErrorKind)
        ensures
            kind == partner_kind(*self),
    {
        match self {
            PartnerError::InvalidId => ErrorKind::Validation,
            PartnerError::UnknownType => ErrorKind::Validation,
            PartnerError::NoMainScope => ErrorKind::Infrastructure,
            PartnerError::ImageUnavailable => ErrorKind::Infrastructure,
            PartnerError::ImageMissing => ErrorKind::Validation,
            PartnerError::ImageTooLarge => ErrorKind::Validation,
            PartnerError::ImageEmpty => ErrorKind::Validation,
            PartnerError::NoLinks => ErrorKind::Validation,
            PartnerError::LinkNameEmpty => ErrorKind::Validation,
            PartnerError::LinkUrlEmpty => ErrorKind::Validation,
            PartnerError::LinkNotHttps => ErrorKind::Validation,
            PartnerError::UnknownUser => ErrorKind::Validation,
            PartnerError::AlreadyExists => ErrorKind::Conflict,
            PartnerError::NotFound => ErrorKind::NotFound,
            PartnerError::MetadataFailed => ErrorKind::Infrastructure,
        }
    }

    /// The status that goes with this error.
    pub fn status(&self) -> (status: u16)
        ensures
            status == partner_status(*self),
    {
        match self {
            PartnerError::InvalidId => 400,
            PartnerError::UnknownType => 400,
            PartnerError::NoMainScope => 400,
            PartnerError::ImageUnavailable => 400,
            PartnerError::ImageMissing => 400,
            PartnerError::ImageTooLarge => 400,
            PartnerError::ImageEmpty => 400,
            PartnerError::NoLinks => 400,
            PartnerError::LinkNameEmpty => 400,
            PartnerError::LinkUrlEmpty => 400,
            PartnerError::LinkNotHttps => 400,
            PartnerError::UnknownUser => 400,
            PartnerError::AlreadyExists => 400,
            PartnerError::NotFound => 400,
            PartnerError::MetadataFailed => 400,
        }
    }

    /// The message that goes with this error.
    pub fn message(&self) -> (message: String)
        ensures
            message@ == partner_message(*self),
    {
        match self {
            PartnerError::InvalidId => "Partner ID and image type cannot contain disallowed characters".to_owned(),
            PartnerError::UnknownType => "Partner type does not exist".to_owned(),
            PartnerError::NoMainScope => "Main scope not found".to_owned(),
            PartnerError::ImageUnavailable => "Fetching image metadata failed".to_owned(),
            PartnerError::ImageMissing => "Image does not exist".to_owned(),
            PartnerError::ImageTooLarge => "Image is too large".to_owned(),
            PartnerError::ImageEmpty => "Image is empty".to_owned(),
            PartnerError::NoLinks => "Links cannot be empty".to_owned(),
            PartnerError::LinkNameEmpty => "Link name cannot be empty".to_owned(),
            PartnerError::LinkUrlEmpty => "Link URL cannot be empty".to_owned(),
            PartnerError::LinkNotHttps => "Link URL must start with https://".to_owned(),
            PartnerError::UnknownUser => "User does not exist".to_owned(),
            PartnerError::AlreadyExists => "Partner already exists".to_owned(),
            PartnerError::NotFound => "Partner does not exist".to_owned(),
            PartnerError::MetadataFailed => "Fetching asset metadata failed due to unknown error".to_owned(),
        }
    }
}

/// The kind of each `RpcError`.
pub open spec fn rpc_kind(error: RpcError) -> ErrorKind {
    match error {
        RpcError::MissingCapability => ErrorKind::Authorization,
        RpcError::TierTooLow => ErrorKind::Authorization,
        RpcError::UnsupportedTarget => ErrorKind::Validation,
    }
}

/// The status that goes with each `RpcError`.
pub open spec fn rpc_status(error: RpcError) -> u16 {
    match error {
        RpcError::MissingCapability => 403,
        RpcError::TierTooLow => 403,
        RpcError::UnsupportedTarget => 400,
    }
}

/// The message that goes with each `RpcError`.
pub open spec fn rpc_message(error: RpcError) -> Seq<char> {
    match error {
        RpcError::MissingCapability => "You do not have permission to use RPC right now"@,
        RpcError::TierTooLow => "Permission denied"@,
        RpcError::UnsupportedTarget => "This RPC method does not support this target type"@,
    }
}

impl RpcError {
    /// The kind of this error.
    pub fn kind(&self) -> (kind: ErrorKind)
        ensures
            kind == rpc_kind(*self),
    {
        match self {
            RpcError::MissingCapability => ErrorKind::Authorization,
            RpcError::TierTooLow => ErrorKind::Authorization,
            RpcError::UnsupportedTarget => ErrorKind::Validation,
        }
    }

    /// The status that goes with this error.
    pub fn status(&self) -> (status: u16)
        ensures
            status == rpc_status(*self),
    {
        match self {
            RpcError::MissingCapability => 403,
            RpcError::TierTooLow => 403,
            RpcError::UnsupportedTarget => 400,
        }
    }

    /// The message that goes with this error.
    pub fn message(&self) -> (message: String)
        ensures
            message@ == rpc_message(*self),
    {
        match self {
            RpcError::MissingCapability => "You do not have permission to use RPC right now".to_owned(),
            RpcError::TierTooLow => "Permission denied".to_owned(),
            RpcError::UnsupportedTarget => "This RPC method does not support this target type".to_owned(),
        }
    }
}

/// The kind of each `WebRpcError`.
pub open spec fn web_rpc_kind(error: WebRpcError) -> ErrorKind {
    match error {
        WebRpcError::UserNotFound => ErrorKind::Authentication,
        WebRpcError::InvalidToken => ErrorKind::Authentication,
        WebRpcError::NotStaff => ErrorKind::Authorization,
        WebRpcError::RateLimited => ErrorKind::Authorization,
        WebRpcError::PermissionDenied => ErrorKind::Authorization,
    }
}

/// The status that goes with each `WebRpcError`.
pub open spec fn web_rpc_status(error: WebRpcError) -> u16 {
    match error {
        WebRpcError::UserNotFound => 401,
        WebRpcError::InvalidToken => 401,
        WebRpcError::NotStaff => 401,
        WebRpcError::RateLimited => 429,
        WebRpcError::PermissionDenied => 401,
    }
}

/// The message that goes with each `WebRpcError`.
pub open spec fn web_rpc_message(error: WebRpcError) -> Seq<char> {
    match error {
        WebRpcError::UserNotFound => "Invalid token"@,
        WebRpcError::InvalidToken => "Invalid token"@,
        WebRpcError::NotStaff => "Staff-only endpoint"@,
        WebRpcError::RateLimited => "Rate limit exceeded"@,
        WebRpcError::PermissionDenied => "Permission denied"@,
    }
}

impl WebRpcError {
    /// The kind of this error.
    pub fn kind(&self) -> (kind: ErrorKind)
        ensures
            kind == web_rpc_kind(*self),
    {
        match self {
            WebRpcError::UserNotFound => ErrorKind::Authentication,
            WebRpcError::InvalidToken => ErrorKind::Authentication,
            WebRpcError::NotStaff => ErrorKind::Authorization,
            WebRpcError::RateLimited => ErrorKind::Authorization,
            WebRpcError::PermissionDenied => ErrorKind::Authorization,
        }
    }

    /// The status that goes with this error.
    pub fn status(&self) -> (status: u16)
        ensures
            status == web_rpc_status(*self),
    {
        match self {
            WebRpcError::UserNotFound => 401,
            WebRpcError::InvalidToken => 401,
            WebRpcError::NotStaff => 401,
            WebRpcError::RateLimited => 429,
            WebRpcError::PermissionDenied => 401,
        }
    }

    /// The message that goes with this error.
    pub fn message(&self) -> (message: String)
        ensures
            message@ == web_rpc_message(*self),
    {
        match self {
            WebRpcError::UserNotFound => "Invalid token".to_owned(),
            WebRpcError::InvalidToken => "Invalid token".to_owned(),
            WebRpcError::NotStaff => "Staff-only endpoint".to_owned(),
            WebRpcError::RateLimited => "Rate limit exceeded".to_owned(),
            WebRpcError::PermissionDenied => "Permission denied".to_owned(),
        }
    }
}

/// Failures of authentication do not tell whether a user exists: an unknown
/// user and a wrong token are answered alike, and so are a token without a
/// session and a session in the wrong state, which are one error.
pub proof fn lemma_authentication_reveals_nothing()
    ensures
        web_rpc_status(WebRpcError::UserNotFound) == web_rpc_status(WebRpcError::InvalidToken),
        web_rpc_message(WebRpcError::UserNotFound) == web_rpc_message(WebRpcError::InvalidToken),
        web_rpc_kind(WebRpcError::UserNotFound) == web_rpc_kind(WebRpcError::InvalidToken),
{
}

/// A token that does not count is an error of authentication, and so is a
/// wrong one-time code; a missing capability and a tier that is too low are
/// errors of authorization; a digest that does not match and a chunk that
/// is gone are errors of integrity.
pub proof fn lemma_error_kinds()
    ensures
        auth_kind(AuthError::InvalidOrExpiredToken) == ErrorKind::Authentication,
        auth_kind(AuthError::MfaInvalidCode) == ErrorKind::Authentication,
        auth_kind(AuthError::NotStaff) == ErrorKind::Authorization,
        rpc_kind(RpcError::MissingCapability) == ErrorKind::Authorization,
        rpc_kind(RpcError::TierTooLow) == ErrorKind::Authorization,
        asset_kind(AssetError::HashMismatch) == ErrorKind::Integrity,
        asset_kind(AssetError::ChunkMissing) == ErrorKind::Integrity,
        path_kind(PathError::InvalidPath) == ErrorKind::Validation,
        path_kind(PathError::InvalidName) == ErrorKind::Validation,
{
}

} // verus!
