use arcadia::assets::asset_item;
use arcadia::auth::fresh_token;
use arcadia::capability::Capability;
use arcadia::panel_query::GateError;
use arcadia::paths::CdnScopes;
use arcadia::ratelimit::origin_allowed;
use arcadia::session::{AuthError, SessionState};
use arcadia::store::{LoginSession, MfaRecord, SessionStore};
use arcadia::text::{ends_with, remove_all};

fn session(token: &str, user: &str, state: SessionState) -> LoginSession {
    LoginSession { token: token.to_string(), user_id: user.to_string(), state, created_at: 7 }
}

fn record(user: &str, verified: bool) -> MfaRecord {
    MfaRecord { user_id: user.to_string(), secret: "S".to_string(), verified, created_at: 7 }
}

#[test]
fn token_lengths_vary() {
    let lengths: Vec<usize> = (0..8).map(|_| fresh_token().len()).collect();
    assert!(lengths.iter().any(|len| *len != lengths[0]));
}

#[test]
fn listing_item_shows_the_path_without_the_root() {
    let item = asset_item("a.png".to_string(), "/cdn/ibl/x/a.png", "/cdn/ibl", 12, 34, false, 0o644);
    assert_eq!(item.name, "a.png");
    assert_eq!(item.path, "/x/a.png");
    assert_eq!((item.size, item.last_modified, item.is_dir, item.permissions), (12, 34, false, 0o644));
    let nested = asset_item("d".to_string(), "/r/a/r/d", "/r", 0, 0, true, 0o755);
    assert_eq!(nested.path, "/a/d");
}

#[test]
fn origins() {
    assert!(origin_allowed("https://infinitybots.gg", "infinitybots.gg"));
    assert!(origin_allowed("https://panel.infinitybots.gg", "infinitybots.gg"));
    assert!(origin_allowed("http://localhost:3000", "infinitybots.gg"));
    assert!(!origin_allowed("https://infinitybots.gg.evil.example", "infinitybots.gg"));
    assert!(!origin_allowed("http://localhost:3001", "infinitybots.gg"));
    assert!(ends_with("abc", "bc"));
    assert!(ends_with("abc", ""));
    assert!(ends_with("abc", "abc"));
    assert!(!ends_with("abc", "ab"));
    assert!(!ends_with("bc", "abc"));
}

#[test]
fn store_is_built_from_rows_without_duplicates() {
    let store = SessionStore::from_rows(
        vec![session("a", "1", SessionState::Active), session("b", "2", SessionState::Pending)],
        vec![record("1", true), record("2", false)],
    )
    .unwrap();
    assert_eq!(store.session_count(), 2);
    assert_eq!(store.check_auth("a").unwrap().user_id, "1");
    assert_eq!(store.check_auth("b").err(), Some(AuthError::InvalidOrExpiredToken));
    assert_eq!(store.check_auth_insecure("b").unwrap().created_at, 7);
    let sessions = store.sessions();
    assert_eq!(sessions.len(), 2);
    assert_eq!((sessions[0].token.as_str(), sessions[1].token.as_str()), ("a", "b"));
    let records = store.records();
    assert_eq!(records.len(), 2);
    assert!(records[0].verified && !records[1].verified);
}

#[test]
fn rows_with_duplicates_are_refused() {
    assert!(SessionStore::from_rows(
        vec![session("a", "1", SessionState::Active), session("a", "2", SessionState::Pending)],
        Vec::new(),
    )
    .is_none());
    assert!(SessionStore::from_rows(Vec::new(), vec![record("1", true), record("1", false)])
        .is_none());
    assert!(SessionStore::from_rows(
        vec![session("a", "1", SessionState::Active), session("b", "1", SessionState::Pending)],
        vec![record("1", true)],
    )
    .is_some());
}

#[test]
fn scopes_are_listed_in_order() {
    let mut scopes = CdnScopes::new();
    scopes.add("b".to_string(), "/b".to_string());
    scopes.add("a".to_string(), "/a".to_string());
    let listed: Vec<(String, String)> =
        scopes.list().into_iter().map(|scope| (scope.name, scope.path)).collect();
    assert_eq!(
        listed,
        vec![("b".to_string(), "/b".to_string()), ("a".to_string(), "/a".to_string())]
    );
}

#[test]
fn turning_a_caller_away() {
    let forbidden = GateError::Forbidden(Capability::CdnManagement);
    assert_eq!(forbidden.status(), 403);
    assert_eq!(forbidden.message(), "You do not have permission to manage the CDN right now?");
    let session = GateError::Session(AuthError::InvalidOrExpiredToken);
    assert_eq!(session.status(), AuthError::InvalidOrExpiredToken.status());
    assert_eq!(session.message(), "identityExpired");
    assert_eq!(GateError::NotImplemented.status(), 501);
}

#[test]
fn removing_a_pattern_takes_every_occurrence_from_the_left() {
    let cases = [
        ("/r/a/r/d", "/r"),
        ("aaa", "aa"),
        ("aaaa", "aa"),
        ("abcabc", "bc"),
        ("abc", ""),
        ("", "a"),
        ("ab", "abc"),
        ("abab", "ab"),
        ("xaby", "ab"),
        ("caf\u{e9}caf\u{e9}", "\u{e9}"),
    ];
    for (text, pattern) in cases {
        assert_eq!(remove_all(text, pattern), text.replace(pattern, ""), "{text} without {pattern}");
    }
    assert_eq!(remove_all("/cdn/ibl/x/a.png", "/cdn/ibl"), "/x/a.png");
}
