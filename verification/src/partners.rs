//! Partners of the list: the checks before one is added or deleted.
//!
//! The records themselves live in the database and the images on disk. The
//! caller reads what is needed and hands it in as plain facts; the functions
//! here decide.

use crate::assets::{DeletePlan, PathStat};
use crate::paths::{name_ok, validate_name};
use crate::text::{joined, has_prefix, starts_with};
use vstd::prelude::*;

verus! {

/// Largest partner image that is accepted, in bytes.
pub const MAX_IMAGE_SIZE: u64 = 100_000_000;

/// A link of a partner: what it is called and where it leads.
pub struct PartnerLink {
    pub name: String,
    pub value: String,
}

/// A partner that is to be added.
pub struct CreatePartner {
    pub id: String,
    pub name: String,
    pub image_type: String,
    pub short: String,
    pub links: Vec<PartnerLink>,
    pub partner_type: String,
    pub user_id: String,
}

/// What was found where the image of a partner should be.
#[derive(Clone, Copy, Debug, PartialEq, Eq, Structural)]
pub enum ImageStat {
    /// The lookup failed, or nothing is there.
    Unavailable,
    /// Something is there that is not a file.
    NotAFile,
    /// A file of the given size.
    File(u64),
}

/// What the database says about a partner that is to be added.
#[derive(Clone, Copy, Debug, PartialEq, Eq, Structural)]
pub struct PartnerFacts {
    /// Whether the partner's type exists.
    pub type_exists: bool,
    /// Whether the partner's user exists.
    pub user_exists: bool,
    /// Whether a partner with this id exists already.
    pub partner_exists: bool,
}

/// Why a partner is not added or deleted.
#[derive(Clone, Copy, Debug, PartialEq, Eq, Structural)]
pub enum PartnerError {
    /// The id or the image type could lead out of the partners' directory.
    InvalidId,
    /// The partner's type does not exist.
    UnknownType,
    /// The main scope is not configured.
    NoMainScope,
    /// The image could not be looked up.
    ImageUnavailable,
    /// The image is not a file.
    ImageMissing,
    /// The image is larger than [`MAX_IMAGE_SIZE`].
    ImageTooLarge,
    /// The image holds no bytes.
    ImageEmpty,
    /// The partner has no links.
    NoLinks,
    /// A link has no name.
    LinkNameEmpty,
    /// A link leads nowhere.
    LinkUrlEmpty,
    /// A link does not start with `https://`.
    LinkNotHttps,
    /// The partner's user does not exist.
    UnknownUser,
    /// A partner with this id exists already.
    AlreadyExists,
    /// No partner with this id exists.
    NotFound,
    /// The image could not be looked up for deletion.
    MetadataFailed,
}

/// Where the image of a partner lies below the root of the main scope.
pub open spec fn image_path_text(root: Seq<char>, id: Seq<char>, image_type: Seq<char>) -> Seq<char> {
    root + "/partners/"@ + id + "."@ + image_type
}

/// Whether an id or an image type can stand in the name of an image: it
/// passes the rules for asset names and is not empty.
pub open spec fn id_ok(text: Seq<char>) -> bool {
    name_ok(text) && text.len() > 0
}

/// Why an image is refused, if it is.
pub open spec fn image_refusal(image: ImageStat) -> Option<PartnerError> {
    match image {
        ImageStat::Unavailable => Some(PartnerError::ImageUnavailable),
        ImageStat::NotAFile => Some(PartnerError::ImageMissing),
        ImageStat::File(size) => if size > MAX_IMAGE_SIZE {
            Some(PartnerError::ImageTooLarge)
        } else if size == 0 {
            Some(PartnerError::ImageEmpty)
        } else {
            None
        },
    }
}

/// Why one link is refused, if it is.
pub open spec fn link_refusal(link: PartnerLink) -> Option<PartnerError> {
    if link.name@.len() == 0 {
        Some(PartnerError::LinkNameEmpty)
    } else if link.value@.len() == 0 {
        Some(PartnerError::LinkUrlEmpty)
    } else if !has_prefix(link.value@, "https://"@) {
        Some(PartnerError::LinkNotHttps)
    } else {
        None
    }
}

/// Why the links are refused, if they are: there is none, or the first
/// refused link says why.
pub open spec fn links_refusal(links: Seq<PartnerLink>) -> Option<PartnerError> {
    if links.len() == 0 {
        Some(PartnerError::NoLinks)
    } else {
        first_link_refusal(links)
    }
}

/// The reason that the first refused link gives.
pub open spec fn first_link_refusal(links: Seq<PartnerLink>) -> Option<PartnerError>
    decreases links.len(),
{
    if links.len() == 0 {
        None
    } else if link_refusal(links[0]) is Some {
        link_refusal(links[0])
    } else {
        first_link_refusal(links.drop_first())
    }
}

/// Why a partner is not added, if it is not: the first check that fails,
/// in the order id, type, scope, image, links, user, existing partner.
pub open spec fn partner_refusal(
    partner: CreatePartner,
    has_main_scope: bool,
    image: ImageStat,
    facts: PartnerFacts,
) -> Option<PartnerError> {
    if !id_ok(partner.id@) || !id_ok(partner.image_type@) {
        Some(PartnerError::InvalidId)
    } else if !facts.type_exists {
        Some(PartnerError::UnknownType)
    } else if !has_main_scope {
        Some(PartnerError::NoMainScope)
    } else if image_refusal(image) is Some {
        image_refusal(image)
    } else if links_refusal(partner.links@) is Some {
        links_refusal(partner.links@)
    } else if !facts.user_exists {
        Some(PartnerError::UnknownUser)
    } else if facts.partner_exists {
        Some(PartnerError::AlreadyExists)
    } else {
        None
    }
}

/// Checks an id or an image type before it goes into the name of a file.
pub fn check_id(text: &str) -> (ok: bool)
    ensures
        ok == id_ok(text@),
{
    validate_name(text).is_ok() && !text.is_empty()
}

/// Builds the place of a partner's image below the root of the main scope.
pub fn image_path(root: &str, id: &str, image_type: &str) -> (path: String)
    ensures
        path@ == image_path_text(root@, id@, image_type@),
{
    let dir = joined(root, "/partners/");
    let with_id = joined(dir.as_str(), id);
    let with_dot = joined(with_id.as_str(), ".");
    joined(with_dot.as_str(), image_type)
}

/// Checks the image of a partner.
pub fn check_image(image: ImageStat) -> (result: Result<(), PartnerError>)
    ensures
        match result {
            Ok(()) => image_refusal(image) is None,
            Err(e) => image_refusal(image) == Some(e),
        },
{
    match image {
        ImageStat::Unavailable => Err(PartnerError::ImageUnavailable),
        ImageStat::NotAFile => Err(PartnerError::ImageMissing),
        ImageStat::File(size) => if size > MAX_IMAGE_SIZE {
            Err(PartnerError::ImageTooLarge)
        } else if size == 0 {
            Err(PartnerError::ImageEmpty)
        } else {
            Ok(())
        },
    }
}

/// Checks one link of a partner.
pub fn check_link(link: &PartnerLink) -> (result: Result<(), PartnerError>)
    ensures
        match result {
            Ok(()) => link_refusal(*link) is None,
            Err(e) => link_refusal(*link) == Some(e),
        },
{
    if link.name.as_str().is_empty() {
        Err(PartnerError::LinkNameEmpty)
    } else if link.value.as_str().is_empty() {
        Err(PartnerError::LinkUrlEmpty)
    } else if !starts_with(link.value.as_str(), "https://") {
        Err(PartnerError::LinkNotHttps)
    } else {
        Ok(())
    }
}

/// Checks the links of a partner: there must be one at least, and each
/// needs a name and a URL that starts with `https://`.
pub fn check_links(links: &Vec<PartnerLink>) -> (result: Result<(), PartnerError>)
    ensures
        match result {
            Ok(()) => links_refusal(links@) is None,
            Err(e) => links_refusal(links@) == Some(e),
        },
{
    if links.len() == 0 {
        return Err(PartnerError::NoLinks);
    }
    let mut i: usize = 0;
    assert(links@.skip(0) =~= links@);
    while i < links.len()
        invariant
            i <= links.len(),
            first_link_refusal(links@) == first_link_refusal(links@.skip(i as int)),
        decreases links.len() - i,
    {
        assert(links@.skip(i as int)[0] == links@[i as int]);
        assert(links@.skip(i as int).drop_first() =~= links@.skip(i + 1));
        match check_link(&links[i]) {
            Err(e) => {
                return Err(e);
            },
            Ok(()) => {},
        }
        i += 1;
    }
    Ok(())
}

/// Decides whether a partner is added.
pub fn check_new_partner(
    partner: &CreatePartner,
    has_main_scope: bool,
    image: ImageStat,
    facts: PartnerFacts,
) -> (result: Result<(), PartnerError>)
    ensures
        match result {
            Ok(()) => partner_refusal(*partner, has_main_scope, image, facts) is None,
            Err(e) => partner_refusal(*partner, has_main_scope, image, facts) == Some(e),
        },
{
    if !check_id(partner.id.as_str()) || !check_id(partner.image_type.as_str()) {
        return Err(PartnerError::InvalidId);
    }
    if !facts.type_exists {
        return Err(PartnerError::UnknownType);
    }
    if !has_main_scope {
        return Err(PartnerError::NoMainScope);
    }
    match check_image(image) {
        Err(e) => {
            return Err(e);
        },
        Ok(()) => {},
    }
    match check_links(&partner.links) {
        Err(e) => {
            return Err(e);
        },
        Ok(()) => {},
    }
    if !facts.user_exists {
        return Err(PartnerError::UnknownUser);
    }
    if facts.partner_exists {
        return Err(PartnerError::AlreadyExists);
    }
    Ok(())
}

/// What deleting a partner does to its image, or why the partner is not
/// deleted. An image that is not there is no obstacle.
pub open spec fn delete_partner_decision(partner_exists: bool, has_main_scope: bool, image: PathStat) -> Result<
    DeletePlan,
    PartnerError,
> {
    if !partner_exists {
        Err(PartnerError::NotFound)
    } else if !has_main_scope {
        Err(PartnerError::NoMainScope)
    } else {
        match image {
            PathStat::File => Ok(DeletePlan::RemoveFile),
            PathStat::Dir => Ok(DeletePlan::RemoveTree),
            PathStat::Other | PathStat::Missing => Ok(DeletePlan::Nothing),
            PathStat::Failed => Err(PartnerError::MetadataFailed),
        }
    }
}

/// Decides how a partner is deleted.
pub fn delete_partner_plan(partner_exists: bool, has_main_scope: bool, image: PathStat) -> (result:
    Result<DeletePlan, PartnerError>)
    ensures
        result == delete_partner_decision(partner_exists, has_main_scope, image),
{
    if !partner_exists {
        return Err(PartnerError::NotFound);
    }
    if !has_main_scope {
        return Err(PartnerError::NoMainScope);
    }
    match image {
        PathStat::File => Ok(DeletePlan::RemoveFile),
        PathStat::Dir => Ok(DeletePlan::RemoveTree),
        PathStat::Other | PathStat::Missing => Ok(DeletePlan::Nothing),
        PathStat::Failed => Err(PartnerError::MetadataFailed),
    }
}

} // verus!
