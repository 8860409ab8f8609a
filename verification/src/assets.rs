//! What may be done to an asset, given what is found on disk.
//!
//! The library never touches the disk. Its caller looks a path up and hands
//! in what it found as a [`PathStat`]; the functions here decide what
//! follows: an error, or the operation to perform.

use crate::paths::{join, path_ok, ResolvedPath};
use crate::text::{remove_all, text_without};
use vstd::prelude::*;

verus! {

/// What was found at a path.
#[derive(Clone, Copy, Debug, PartialEq, Eq, Structural)]
pub enum PathStat {
    /// Nothing is there.
    Missing,
    /// A regular file, or a link that leads to one.
    File,
    /// A directory.
    Dir,
    /// Something that is neither a file nor a directory.
    Other,
    /// The lookup failed for another reason than absence.
    Failed,
}

/// Why an operation on an asset is refused.
#[derive(Clone, Copy, Debug, PartialEq, Eq, Structural)]
pub enum AssetError {
    /// The place for the asset exists and is not a directory.
    NotADirectory,
    /// The asset is not a file.
    NotAFile,
    /// The asset exists already.
    AlreadyExists,
    /// The asset to be replaced is a directory.
    ReplacesDirectory,
    /// The asset could not be looked up.
    MetadataFailed,
    /// The asset does not exist.
    NotFound,
    /// No chunk was named.
    NoChunks,
    /// Too many chunks were named.
    TooManyChunks,
    /// A chunk is not, or no longer, in the cache.
    ChunkMissing,
    /// The content does not have the digest that was announced.
    HashMismatch,
    /// The target of a copy is empty.
    EmptyCopyTarget,
    /// The target of a copy breaks the rules for paths.
    InvalidCopyTarget,
    /// The target of a copy exists and may not be overwritten.
    CopyTargetExists,
    /// An operation on the disk failed.
    Io,
    /// A reply does not answer the request that was made.
    UnexpectedReply,
}

/// What is done to an asset.
pub enum CdnAssetAction {
    /// Lists the directory of the asset.
    ListPath,
    /// Reads the asset.
    ReadFile,
    /// Creates the asset as a directory.
    CreateFolder,
    /// Creates the asset as a file from uploaded chunks.
    AddFile {
        /// Whether an existing file may be replaced.
        overwrite: bool,
        /// The ids of the chunks, in the order of the content.
        chunks: Vec<String>,
        /// The SHA-512 digest of the content, in lower-case hexadecimal.
        sha512: String,
    },
    /// Copies or moves the asset.
    CopyFile {
        /// Whether an existing file at the target may be replaced.
        overwrite: bool,
        /// Whether the asset is moved rather than copied.
        delete_original: bool,
        /// The target, a path below the scope's root.
        copy_to: String,
    },
    /// Deletes the asset.
    Delete,
}

/// One entry of a directory listing.
pub struct CdnAssetItem {
    pub name: String,
    pub path: String,
    pub size: u64,
    pub last_modified: u64,
    pub is_dir: bool,
    pub permissions: u32,
}

/// Builds one entry of a listing from what the disk says about it. The
/// path is shown without the root of the scope.
pub fn asset_item(
    name: String,
    entry_path: &str,
    root: &str,
    size: u64,
    last_modified: u64,
    is_dir: bool,
    permissions: u32,
) -> (item: CdnAssetItem)
    ensures
        item.name == name,
        item.path@ == text_without(entry_path@, root@),
        item.size == size,
        item.last_modified == last_modified,
        item.is_dir == is_dir,
        item.permissions == permissions,
{
    CdnAssetItem {
        name,
        path: remove_all(entry_path, root),
        size,
        last_modified,
        is_dir,
        permissions,
    }
}

/// How an asset is deleted.
#[derive(Clone, Copy, Debug, PartialEq, Eq, Structural)]
pub enum DeletePlan {
    /// Remove the file.
    RemoveFile,
    /// Remove the directory and all below it.
    RemoveTree,
    /// Leave it: it is neither a file nor a directory.
    Nothing,
}

/// How an asset is copied or moved.
#[derive(Clone, Copy, Debug, PartialEq, Eq, Structural)]
pub enum CopyPlan {
    /// Rename the file.
    RenameFile,
    /// Copy the file.
    CopyFile,
    /// Move the directory, entry by entry, then remove what is left of it.
    MoveTree,
    /// Copy the directory, entry by entry.
    CopyTree,
    /// Leave it: it is neither a file nor a directory.
    Nothing,
}

/// What is done with one entry while a directory is copied or moved.
#[derive(Clone, Copy, Debug, PartialEq, Eq, Structural)]
pub enum EntryPlan {
    /// The entry is a directory: walk it in turn.
    Descend,
    /// Rename the entry to its place in the target.
    Rename,
    /// Copy the entry to its place in the target.
    Copy,
}

/// Why a directory cannot be listed, if it cannot.
pub open spec fn list_refusal(dir: PathStat) -> Option<AssetError> {
    match dir {
        PathStat::Dir => None,
        PathStat::File | PathStat::Other => Some(AssetError::NotADirectory),
        PathStat::Missing | PathStat::Failed => Some(AssetError::MetadataFailed),
    }
}

/// Why an asset cannot be read, if it cannot.
pub open spec fn read_refusal(file: PathStat) -> Option<AssetError> {
    match file {
        PathStat::File => None,
        PathStat::Dir | PathStat::Other => Some(AssetError::NotAFile),
        PathStat::Missing | PathStat::Failed => Some(AssetError::MetadataFailed),
    }
}

/// Why a folder cannot be created, if it cannot.
pub open spec fn create_folder_refusal(file: PathStat) -> Option<AssetError> {
    match file {
        PathStat::Missing => None,
        PathStat::Failed => Some(AssetError::MetadataFailed),
        PathStat::File | PathStat::Dir | PathStat::Other => Some(AssetError::AlreadyExists),
    }
}

/// How an asset is deleted, or why it cannot be.
pub open spec fn delete_decision(file: PathStat) -> Result<DeletePlan, AssetError> {
    match file {
        PathStat::File => Ok(DeletePlan::RemoveFile),
        PathStat::Dir => Ok(DeletePlan::RemoveTree),
        PathStat::Other => Ok(DeletePlan::Nothing),
        PathStat::Missing | PathStat::Failed => Err(AssetError::NotFound),
    }
}

/// How an asset is copied or moved, or why it cannot be. A file at the
/// target stands in the way unless it may be overwritten; a directory at the
/// target never does.
pub open spec fn copy_decision(
    target: PathStat,
    source: PathStat,
    overwrite: bool,
    delete_original: bool,
) -> Result<CopyPlan, AssetError> {
    if target == PathStat::Failed {
        Err(AssetError::MetadataFailed)
    } else if (target == PathStat::File || target == PathStat::Other) && !overwrite {
        Err(AssetError::CopyTargetExists)
    } else {
        match source {
            PathStat::File => Ok(
                if delete_original {
                    CopyPlan::RenameFile
                } else {
                    CopyPlan::CopyFile
                },
            ),
            PathStat::Dir => Ok(
                if delete_original {
                    CopyPlan::MoveTree
                } else {
                    CopyPlan::CopyTree
                },
            ),
            PathStat::Other => Ok(CopyPlan::Nothing),
            PathStat::Missing | PathStat::Failed => Err(AssetError::NotFound),
        }
    }
}

/// Decides whether the directory of an asset can be listed.
pub fn list_path_check(dir: PathStat) -> (result: Result<(), AssetError>)
    ensures
        match result {
            Ok(()) => list_refusal(dir) is None,
            Err(e) => list_refusal(dir) == Some(e),
        },
{
    match dir {
        PathStat::Dir => Ok(()),
        PathStat::File | PathStat::Other => Err(AssetError::NotADirectory),
        PathStat::Missing | PathStat::Failed => Err(AssetError::MetadataFailed),
    }
}

/// Decides whether an asset can be read.
pub fn read_file_check(file: PathStat) -> (result: Result<(), AssetError>)
    ensures
        match result {
            Ok(()) => read_refusal(file) is None,
            Err(e) => read_refusal(file) == Some(e),
        },
{
    match file {
        PathStat::File => Ok(()),
        PathStat::Dir | PathStat::Other => Err(AssetError::NotAFile),
        PathStat::Missing | PathStat::Failed => Err(AssetError::MetadataFailed),
    }
}

/// Decides whether an asset can be created as a folder.
pub fn create_folder_check(file: PathStat) -> (result: Result<(), AssetError>)
    ensures
        match result {
            Ok(()) => create_folder_refusal(file) is None,
            Err(e) => create_folder_refusal(file) == Some(e),
        },
{
    match file {
        PathStat::Missing => Ok(()),
        PathStat::Failed => Err(AssetError::MetadataFailed),
        PathStat::File | PathStat::Dir | PathStat::Other => Err(AssetError::AlreadyExists),
    }
}

/// Decides how an asset is deleted.
pub fn delete_plan(file: PathStat) -> (result: Result<DeletePlan, AssetError>)
    ensures
        result == delete_decision(file),
{
    match file {
        PathStat::File => Ok(DeletePlan::RemoveFile),
        PathStat::Dir => Ok(DeletePlan::RemoveTree),
        PathStat::Other => Ok(DeletePlan::Nothing),
        PathStat::Missing | PathStat::Failed => Err(AssetError::NotFound),
    }
}

/// Decides how an asset is copied or moved to a target.
pub fn copy_plan(target: PathStat, source: PathStat, overwrite: bool, delete_original: bool) -> (result:
    Result<CopyPlan, AssetError>)
    ensures
        result == copy_decision(target, source, overwrite, delete_original),
{
    match target {
        PathStat::Failed => {
            return Err(AssetError::MetadataFailed);
        },
        PathStat::File | PathStat::Other => {
            if !overwrite {
                return Err(AssetError::CopyTargetExists);
            }
        },
        PathStat::Dir | PathStat::Missing => {},
    }
    match source {
        PathStat::File => Ok(
            if delete_original {
                CopyPlan::RenameFile
            } else {
                CopyPlan::CopyFile
            },
        ),
        PathStat::Dir => Ok(
            if delete_original {
                CopyPlan::MoveTree
            } else {
                CopyPlan::CopyTree
            },
        ),
        PathStat::Other => Ok(CopyPlan::Nothing),
        PathStat::Missing | PathStat::Failed => Err(AssetError::NotFound),
    }
}

/// Decides what is done with one entry of a directory that is copied or
/// moved: a directory is walked in turn, anything else is renamed where the
/// original goes away, and copied where it stays.
pub fn entry_plan(entry_is_dir: bool, delete_original: bool) -> (plan: EntryPlan)
    ensures
        plan == if entry_is_dir {
            EntryPlan::Descend
        } else if delete_original {
            EntryPlan::Rename
        } else {
            EntryPlan::Copy
        },
{
    if entry_is_dir {
        EntryPlan::Descend
    } else if delete_original {
        EntryPlan::Rename
    } else {
        EntryPlan::Copy
    }
}

/// Resolves the target of a copy below the root of the asset's scope. It
/// must pass the rules for paths and must not be empty.
pub fn copy_target(resolved: &ResolvedPath, copy_to: &str) -> (result: Result<String, AssetError>)
    ensures
        match result {
            Ok(target) => path_ok(copy_to@) && copy_to@.len() > 0 && target@ == join(
                resolved.root(),
                copy_to@,
            ),
            Err(e) => if !path_ok(copy_to@) {
                e == AssetError::InvalidCopyTarget
            } else {
                e == AssetError::EmptyCopyTarget && copy_to@.len() == 0
            },
        },
{
    match crate::paths::validate_path(copy_to) {
        Err(_) => {
            return Err(AssetError::InvalidCopyTarget);
        },
        Ok(()) => {},
    }
    if copy_to.is_empty() {
        return Err(AssetError::EmptyCopyTarget);
    }
    Ok(crate::paths::join_path(resolved.root_dir().as_str(), copy_to))
}

} // verus!
