use arcadia::error::ErrorKind;
use arcadia::paths::{join_path, resolve, validate_name, validate_path, CdnScopes, PathError};
use arcadia::text::{chars_of, joined, contains_text, replace_char, starts_with, str_eq};

fn scopes() -> CdnScopes {
    let mut scopes = CdnScopes::new();
    assert!(scopes.add("ibl@main".to_string(), "/silverpelt/cdn/ibl".to_string()));
    assert!(scopes.add("ibl@dev".to_string(), "/silverpelt/cdn/dev".to_string()));
    scopes
}

#[test]
fn plain_names_pass() {
    for name in ["avatar.png", "a b", "x_y-z", "file:1", "100%$", "[a](b){c}@!", "a..b", ""] {
        assert_eq!(validate_name(name), Ok(()), "{}", name);
    }
}

#[test]
fn names_with_separators_or_leading_dot_are_refused() {
    for name in ["a/b", "a\\b", ".hidden", "..", "/", "caf\u{e9}", "a\tb", "a#b", "a*b"] {
        assert_eq!(validate_name(name), Err(PathError::InvalidName), "{}", name);
    }
}

#[test]
fn plain_paths_pass() {
    for path in ["", "a", "a/b", "a/b/c.d", "partners", "a b/c_d", "a/", "x/.y"] {
        assert_eq!(validate_path(path), Ok(()), "{}", path);
    }
}

#[test]
fn traversal_is_refused() {
    for path in ["..", "../x", "a/../b", "a/..", "/etc", "/", "a//b", "a\\b", "\\", "a..b", "a/[b]"] {
        assert_eq!(validate_path(path), Err(PathError::InvalidPath), "{}", path);
    }
}

#[test]
fn resolve_joins_root_path_and_name() {
    let scopes = scopes();
    let resolved = resolve(&scopes, "ibl@main", "logo.png", "partners/img").unwrap();
    assert_eq!(resolved.root_dir(), "/silverpelt/cdn/ibl");
    assert_eq!(resolved.asset_dir(), "/silverpelt/cdn/ibl/partners/img");
    assert_eq!(resolved.asset_file(), "/silverpelt/cdn/ibl/partners/img/logo.png");
    assert!(resolved.has_name());
}

#[test]
fn resolve_with_empty_parts() {
    let scopes = scopes();
    let resolved = resolve(&scopes, "ibl@dev", "", "").unwrap();
    assert_eq!(resolved.asset_dir(), "/silverpelt/cdn/dev");
    assert_eq!(resolved.asset_file(), "/silverpelt/cdn/dev");
    assert!(!resolved.has_name());
    let resolved = resolve(&scopes, "ibl@dev", "a.txt", "").unwrap();
    assert_eq!(resolved.asset_file(), "/silverpelt/cdn/dev/a.txt");
    let resolved = resolve(&scopes, "ibl@dev", "", "x/y").unwrap();
    assert_eq!(resolved.asset_file(), "/silverpelt/cdn/dev/x/y");
}

#[test]
fn resolve_reports_the_first_refusal() {
    let scopes = scopes();
    assert_eq!(resolve(&scopes, "nope", "../x", "..").err(), Some(PathError::InvalidScope));
    assert_eq!(resolve(&scopes, "ibl@main", ".x", "..").err(), Some(PathError::InvalidName));
    assert_eq!(resolve(&scopes, "ibl@main", "x", "..").err(), Some(PathError::InvalidPath));
    assert_eq!(resolve(&scopes, "ibl@main", "x", "/abs").err(), Some(PathError::InvalidPath));
    assert_eq!(resolve(&scopes, "ibl@main", "x", "a\\b").err(), Some(PathError::InvalidPath));
}

#[test]
fn scopes_keep_the_first_of_a_name() {
    let mut scopes = scopes();
    assert!(!scopes.add("ibl@main".to_string(), "/elsewhere".to_string()));
    assert_eq!(scopes.lookup("ibl@main").map(|s| s.as_str()), Some("/silverpelt/cdn/ibl"));
    assert_eq!(scopes.lookup("ibl@dev").map(|s| s.as_str()), Some("/silverpelt/cdn/dev"));
    assert!(scopes.lookup("other").is_none());
}

#[test]
fn path_errors_are_validation_errors() {
    assert_eq!(PathError::InvalidPath.kind(), ErrorKind::Validation);
    assert_eq!(PathError::InvalidName.kind(), ErrorKind::Validation);
    assert_eq!(PathError::InvalidScope.status(), 400);
    assert_eq!(PathError::InvalidScope.message(), "Invalid CDN scope");
}

#[test]
fn join_path_adds_one_separator() {
    assert_eq!(join_path("/a", "b"), "/a/b");
    assert_eq!(join_path("/a", ""), "/a");
    assert_eq!(join_path("", "b"), "/b");
}

#[test]
fn text_helpers() {
    assert!(str_eq("abc", "abc"));
    assert!(!str_eq("abc", "abd"));
    assert!(!str_eq("abc", "ab"));
    assert_eq!(chars_of("a\u{e9}b"), vec!['a', '\u{e9}', 'b']);
    assert!(starts_with("https://x", "https://"));
    assert!(!starts_with("http://x", "https://"));
    assert!(!starts_with("http", "https://"));
    assert!(starts_with("x", ""));
    assert_eq!(replace_char("/a/b", '/', '>'), ">a>b");
    assert_eq!(joined("ab", "cd"), "abcd");
    let list = vec!["a".to_string(), "b".to_string()];
    assert!(contains_text(&list, "b"));
    assert!(!contains_text(&list, "c"));
}
