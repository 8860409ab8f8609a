use arcadia::assets::{DeletePlan, PathStat};
use arcadia::error::ErrorKind;
use arcadia::partners::{
    check_id, check_image, check_link, check_links, check_new_partner, delete_partner_plan,
    image_path, CreatePartner, ImageStat, PartnerError, PartnerFacts, PartnerLink,
};

fn link(name: &str, value: &str) -> PartnerLink {
    PartnerLink { name: name.to_string(), value: value.to_string() }
}

fn partner() -> CreatePartner {
    CreatePartner {
        id: "botlist".to_string(),
        name: "Bot List".to_string(),
        image_type: "webp".to_string(),
        short: "A list of bots".to_string(),
        links: vec![link("Website", "https://example.com")],
        partner_type: "botlist".to_string(),
        user_id: "42".to_string(),
    }
}

fn facts() -> PartnerFacts {
    PartnerFacts { type_exists: true, user_exists: true, partner_exists: false }
}

#[test]
fn a_complete_partner_is_accepted() {
    assert_eq!(check_new_partner(&partner(), true, ImageStat::File(1024), facts()), Ok(()));
}

#[test]
fn checks_fail_in_order() {
    let image = ImageStat::File(1024);
    let mut p = partner();
    p.id = "../x".to_string();
    p.links.clear();
    assert_eq!(check_new_partner(&p, true, image, facts()), Err(PartnerError::InvalidId));
    let mut p = partner();
    p.image_type = String::new();
    assert_eq!(check_new_partner(&p, true, image, facts()), Err(PartnerError::InvalidId));
    let no_type = PartnerFacts { type_exists: false, user_exists: false, partner_exists: true };
    assert_eq!(check_new_partner(&partner(), false, image, no_type), Err(PartnerError::UnknownType));
    assert_eq!(check_new_partner(&partner(), false, image, facts()), Err(PartnerError::NoMainScope));
    assert_eq!(
        check_new_partner(&partner(), true, ImageStat::NotAFile, facts()),
        Err(PartnerError::ImageMissing)
    );
    let mut p = partner();
    p.links.clear();
    let no_user = PartnerFacts { type_exists: true, user_exists: false, partner_exists: true };
    assert_eq!(check_new_partner(&p, true, image, no_user), Err(PartnerError::NoLinks));
    assert_eq!(check_new_partner(&partner(), true, image, no_user), Err(PartnerError::UnknownUser));
    let exists = PartnerFacts { type_exists: true, user_exists: true, partner_exists: true };
    assert_eq!(check_new_partner(&partner(), true, image, exists), Err(PartnerError::AlreadyExists));
}

#[test]
fn image_rules() {
    assert_eq!(check_image(ImageStat::File(1)), Ok(()));
    assert_eq!(check_image(ImageStat::File(100_000_000)), Ok(()));
    assert_eq!(check_image(ImageStat::File(100_000_001)), Err(PartnerError::ImageTooLarge));
    assert_eq!(check_image(ImageStat::File(0)), Err(PartnerError::ImageEmpty));
    assert_eq!(check_image(ImageStat::NotAFile), Err(PartnerError::ImageMissing));
    assert_eq!(check_image(ImageStat::Unavailable), Err(PartnerError::ImageUnavailable));
}

#[test]
fn link_rules() {
    assert_eq!(check_link(&link("a", "https://x")), Ok(()));
    assert_eq!(check_link(&link("", "https://x")), Err(PartnerError::LinkNameEmpty));
    assert_eq!(check_link(&link("a", "")), Err(PartnerError::LinkUrlEmpty));
    assert_eq!(check_link(&link("", "")), Err(PartnerError::LinkNameEmpty));
    assert_eq!(check_link(&link("a", "http://x")), Err(PartnerError::LinkNotHttps));
    assert_eq!(check_link(&link("a", "https:/")), Err(PartnerError::LinkNotHttps));
    assert_eq!(check_links(&Vec::new()), Err(PartnerError::NoLinks));
    assert_eq!(
        check_links(&vec![link("a", "https://x"), link("b", "ftp://y"), link("", "")]),
        Err(PartnerError::LinkNotHttps)
    );
    assert_eq!(check_links(&vec![link("a", "https://x"), link("b", "https://y")]), Ok(()));
}

#[test]
fn image_path_lies_in_the_partners_directory() {
    assert_eq!(image_path("/cdn", "botlist", "webp"), "/cdn/partners/botlist.webp");
    assert!(check_id("botlist"));
    assert!(!check_id(""));
    assert!(!check_id("a/b"));
    assert!(!check_id(".."));
    assert!(!check_id("a\\b"));
}

#[test]
fn deleting_a_partner() {
    assert_eq!(delete_partner_plan(false, true, PathStat::File), Err(PartnerError::NotFound));
    assert_eq!(delete_partner_plan(true, false, PathStat::File), Err(PartnerError::NoMainScope));
    assert_eq!(delete_partner_plan(true, true, PathStat::File), Ok(DeletePlan::RemoveFile));
    assert_eq!(delete_partner_plan(true, true, PathStat::Dir), Ok(DeletePlan::RemoveTree));
    assert_eq!(delete_partner_plan(true, true, PathStat::Missing), Ok(DeletePlan::Nothing));
    assert_eq!(delete_partner_plan(true, true, PathStat::Failed), Err(PartnerError::MetadataFailed));
}

#[test]
fn partner_errors() {
    assert_eq!(PartnerError::AlreadyExists.kind(), ErrorKind::Conflict);
    assert_eq!(PartnerError::NotFound.kind(), ErrorKind::NotFound);
    assert_eq!(PartnerError::LinkNotHttps.message(), "Link URL must start with https://");
    assert_eq!(PartnerError::LinkNotHttps.status(), 400);
}
