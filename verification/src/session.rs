//! The mathematical model of the session store and of the login protocol.
//!
//! A login session is a token that belongs to a user and is `Pending` until
//! the second factor has been shown, then `Active`. Each user has at most
//! one second-factor record. The functions of this file say, over plain
//! sequences of rows, what each step of the protocol does to the store; the
//! executable store is verified against them, and the laws at the end are
//! proved from them.

use vstd::prelude::*;

verus! {

/// The lifecycle state of a login session.
#[derive(Clone, Copy, Debug, PartialEq, Eq, Structural)]
pub enum SessionState {
    /// Created by a login; the second factor has not been shown yet.
    Pending,
    /// The second factor has been verified.
    Active,
}

/// Why a step of the login protocol was refused.
#[derive(Clone, Copy, Debug, PartialEq, Eq, Structural)]
pub enum AuthError {
    /// The protocol version of the request is not the supported one.
    InvalidVersion,
    /// The redirect URL is not on the allow-list.
    InvalidRedirect,
    /// The identity does not carry the staff flag.
    NotStaff,
    /// No session has the token, or it is not in the state that is needed.
    InvalidOrExpiredToken,
    /// The session has left the pending state.
    SessionAlreadyActive,
    /// The user of a pending session has no second-factor record.
    InvalidPanelData,
    /// The user has no second-factor record to verify a code against.
    MfaNotSetup,
    /// The one-time code is not the one of the current time step.
    MfaInvalidCode,
    /// The stored secret is not well-formed base32.
    MfaSecretCorrupt,
    /// No one-time code could be computed from the secret.
    OtpUnavailable,
    /// The user record that was handed in is not the one of the session.
    UserMismatch,
    /// The fresh token is already the token of another user's session.
    TokenInUse,
    /// The enrollment payload could not be rendered.
    EnrollmentFailed,
}

/// One row of the session table.
pub struct SessionRow {
    pub token: Seq<char>,
    pub user: Seq<char>,
    pub state: SessionState,
    pub created_at: u64,
}

/// One row of the second-factor table.
pub struct MfaRow {
    pub user: Seq<char>,
    pub secret: Seq<char>,
    pub verified: bool,
    pub created_at: u64,
}

/// The content of the store: sessions and second-factor records.
pub struct StoreModel {
    pub sessions: Seq<SessionRow>,
    pub mfa: Seq<MfaRow>,
}

/// What came of comparing a one-time code with the stored secret.
#[derive(Clone, Copy, Debug, PartialEq, Eq, Structural)]
pub enum OtpCheck {
    /// The code is the one of the current time step.
    Match,
    /// The code is another one.
    Mismatch,
    /// The stored secret could not be decoded.
    SecretCorrupt,
    /// No code could be computed.
    Unavailable,
}

/// Whether no two rows share a token.
pub open spec fn unique_tokens(sessions: Seq<SessionRow>) -> bool {
    forall|i: int, j: int|
        0 <= i < j < sessions.len() ==> (#[trigger] sessions[i]).token != (
        #[trigger] sessions[j]).token
}

/// Whether no two records share a user.
pub open spec fn unique_users(mfa: Seq<MfaRow>) -> bool {
    forall|i: int, j: int|
        0 <= i < j < mfa.len() ==> (#[trigger] mfa[i]).user != (#[trigger] mfa[j]).user
}

/// No two sessions share a token, and no two records share a user.
pub open spec fn store_wf(store: StoreModel) -> bool {
    unique_tokens(store.sessions) && unique_users(store.mfa)
}

/// The session with the given token.
pub open spec fn find_session(sessions: Seq<SessionRow>, token: Seq<char>) -> Option<SessionRow>
    decreases sessions.len(),
{
    if sessions.len() == 0 {
        None
    } else if sessions[0].token == token {
        Some(sessions[0])
    } else {
        find_session(sessions.drop_first(), token)
    }
}

/// The second-factor record of the given user.
pub open spec fn find_mfa(mfa: Seq<MfaRow>, user: Seq<char>) -> Option<MfaRow>
    decreases mfa.len(),
{
    if mfa.len() == 0 {
        None
    } else if mfa[0].user == user {
        Some(mfa[0])
    } else {
        find_mfa(mfa.drop_first(), user)
    }
}

/// The rows that belong to `user`.
pub open spec fn of_user(user: Seq<char>) -> spec_fn(SessionRow) -> bool {
    |row: SessionRow| row.user == user
}

/// The rows that belong to somebody else than `user`.
pub open spec fn of_others(user: Seq<char>) -> spec_fn(SessionRow) -> bool {
    |row: SessionRow| row.user != user
}

/// The rows with another token than `token`.
pub open spec fn of_other_tokens(token: Seq<char>) -> spec_fn(SessionRow) -> bool {
    |row: SessionRow| row.token != token
}

/// The sessions of one user.
pub open spec fn sessions_of(sessions: Seq<SessionRow>, user: Seq<char>) -> Seq<SessionRow> {
    sessions.filter(of_user(user))
}

/// The sessions of everybody but one user.
pub open spec fn without_user(sessions: Seq<SessionRow>, user: Seq<char>) -> Seq<SessionRow> {
    sessions.filter(of_others(user))
}

/// The sessions with another token than the given one.
pub open spec fn without_token(sessions: Seq<SessionRow>, token: Seq<char>) -> Seq<SessionRow> {
    sessions.filter(of_other_tokens(token))
}

/// The sessions, the one with the given token now in `state`.
pub open spec fn with_state(sessions: Seq<SessionRow>, token: Seq<char>, state: SessionState) -> Seq<
    SessionRow,
> {
    sessions.map_values(
        |row: SessionRow|
            if row.token == token {
                SessionRow { state, ..row }
            } else {
                row
            },
    )
}

/// The records, the one of the given user now with `verified`.
pub open spec fn with_verified(mfa: Seq<MfaRow>, user: Seq<char>, verified: bool) -> Seq<MfaRow> {
    mfa.map_values(
        |row: MfaRow|
            if row.user == user {
                MfaRow { verified, ..row }
            } else {
                row
            },
    )
}

/// The records, the one of the given user now with `secret`.
pub open spec fn with_secret(mfa: Seq<MfaRow>, user: Seq<char>, secret: Seq<char>) -> Seq<MfaRow> {
    mfa.map_values(
        |row: MfaRow|
            if row.user == user {
                MfaRow { secret, ..row }
            } else {
                row
            },
    )
}

/// Why a login is refused, if it is: the identity is not staff, or the
/// fresh token is the token of a session of somebody else.
pub open spec fn login_refusal(store: StoreModel, user: Seq<char>, staff: bool, token: Seq<char>) -> Option<
    AuthError,
> {
    if !staff {
        Some(AuthError::NotStaff)
    } else if find_session(without_user(store.sessions, user), token) is Some {
        Some(AuthError::TokenInUse)
    } else {
        None
    }
}

/// The session that a login creates.
pub open spec fn pending_row(token: Seq<char>, user: Seq<char>, now: u64) -> SessionRow {
    SessionRow { token, user, state: SessionState::Pending, created_at: now }
}

/// The store after a login that was not refused: the user's earlier
/// sessions are gone, a record with the fresh secret exists if none did,
/// and one pending session with the fresh token has been added.
pub open spec fn after_login(
    store: StoreModel,
    user: Seq<char>,
    token: Seq<char>,
    secret: Seq<char>,
    now: u64,
) -> StoreModel {
    StoreModel {
        sessions: without_user(store.sessions, user).push(
            SessionRow { token, user, state: SessionState::Pending, created_at: now },
        ),
        mfa: if find_mfa(store.mfa, user) is Some {
            store.mfa
        } else {
            store.mfa.push(MfaRow { user, secret, verified: false, created_at: now })
        },
    }
}

/// The session that a token stands for, if it counts. With `need_active` a
/// pending session does not count.
pub open spec fn authorized_session(store: StoreModel, token: Seq<char>, need_active: bool) -> Option<
    SessionRow,
> {
    match find_session(store.sessions, token) {
        None => None,
        Some(row) => if need_active && row.state != SessionState::Active {
            None
        } else {
            Some(row)
        },
    }
}

/// Why the enrollment status cannot be given, if it cannot.
pub open spec fn status_refusal(store: StoreModel, token: Seq<char>) -> Option<AuthError> {
    match find_session(store.sessions, token) {
        None => Some(AuthError::InvalidOrExpiredToken),
        Some(row) => if row.state != SessionState::Pending {
            Some(AuthError::SessionAlreadyActive)
        } else if find_mfa(store.mfa, row.user) is None {
            Some(AuthError::InvalidPanelData)
        } else {
            None
        },
    }
}

/// Why a session cannot be activated whatever the code is, if it cannot.
pub open spec fn activation_refusal(store: StoreModel, token: Seq<char>) -> Option<AuthError> {
    match find_session(store.sessions, token) {
        None => Some(AuthError::InvalidOrExpiredToken),
        Some(row) => if row.state != SessionState::Pending {
            Some(AuthError::SessionAlreadyActive)
        } else if find_mfa(store.mfa, row.user) is None {
            Some(AuthError::MfaNotSetup)
        } else {
            None
        },
    }
}

/// Why the second factor cannot be reset whatever the code is, if it
/// cannot: a reset needs an active session.
pub open spec fn reset_refusal(store: StoreModel, token: Seq<char>) -> Option<AuthError> {
    match find_session(store.sessions, token) {
        None => Some(AuthError::InvalidOrExpiredToken),
        Some(row) => if row.state != SessionState::Active {
            Some(AuthError::InvalidOrExpiredToken)
        } else if find_mfa(store.mfa, row.user) is None {
            Some(AuthError::MfaNotSetup)
        } else {
            None
        },
    }
}

/// The error that a failed code check stands for.
pub open spec fn otp_refusal(check: OtpCheck) -> Option<AuthError> {
    match check {
        OtpCheck::Match => None,
        OtpCheck::Mismatch => Some(AuthError::MfaInvalidCode),
        OtpCheck::SecretCorrupt => Some(AuthError::MfaSecretCorrupt),
        OtpCheck::Unavailable => Some(AuthError::OtpUnavailable),
    }
}

/// The store after the session with `token`, which belongs to `user`, has
/// been activated.
pub open spec fn after_activation(store: StoreModel, token: Seq<char>, user: Seq<char>) -> StoreModel {
    StoreModel {
        sessions: with_state(store.sessions, token, SessionState::Active),
        mfa: with_verified(store.mfa, user, true),
    }
}

/// The store after the second factor of `user` has been reset.
pub open spec fn after_reset(store: StoreModel, user: Seq<char>) -> StoreModel {
    StoreModel {
        sessions: without_user(store.sessions, user),
        mfa: with_verified(store.mfa, user, false),
    }
}

/// The store after a logout with `token`.
pub open spec fn after_logout(store: StoreModel, token: Seq<char>) -> StoreModel {
    StoreModel { sessions: without_token(store.sessions, token), mfa: store.mfa }
}

/// A selection of rows holds only rows of the source, and keeps tokens
/// apart if they were.
pub proof fn lemma_filter_rows(sessions: Seq<SessionRow>, pred: spec_fn(SessionRow) -> bool)
    ensures
        forall|k: int|
            0 <= k < sessions.filter(pred).len() ==> sessions.contains(
                #[trigger] sessions.filter(pred)[k],
            ) && pred(sessions.filter(pred)[k]),
        forall|i: int| 0 <= i < sessions.len() && pred(sessions[i]) ==> sessions.filter(pred).contains(#[trigger] sessions[i]),
        unique_tokens(sessions) ==> unique_tokens(sessions.filter(pred)),
    decreases sessions.len(),
{
    reveal(Seq::filter);
    let kept = sessions.filter(pred);
    if sessions.len() > 0 {
        let front = sessions.drop_last();
        let last = sessions.last();
        lemma_filter_rows(front, pred);
        let kept_front = front.filter(pred);
        assert forall|k: int| 0 <= k < kept.len() implies sessions.contains(#[trigger] kept[k])
            && pred(kept[k]) by {
            if k < kept_front.len() {
                assert(kept[k] == kept_front[k]);
                assert(front.contains(kept_front[k]));
                let j = choose|j: int| 0 <= j < front.len() && front[j] == kept_front[k];
                assert(sessions[j] == kept[k]);
            } else {
                assert(kept[k] == last);
                assert(sessions[sessions.len() - 1] == last);
            }
        }
        assert forall|i: int| 0 <= i < sessions.len() && pred(sessions[i]) implies kept.contains(
            #[trigger] sessions[i],
        ) by {
            if i < front.len() {
                assert(front[i] == sessions[i]);
                assert(kept_front.contains(front[i]));
                let k = choose|k: int| 0 <= k < kept_front.len() && kept_front[k] == front[i];
                assert(kept[k] == sessions[i]);
            } else {
                assert(kept[kept.len() - 1] == sessions[i]);
            }
        }
        if unique_tokens(sessions) {
            assert(unique_tokens(front)) by {
                assert forall|i: int, j: int| 0 <= i < j < front.len() implies (
                #[trigger] front[i]).token != (#[trigger] front[j]).token by {
                    assert(front[i] == sessions[i] && front[j] == sessions[j]);
                }
            }
            assert forall|i: int, j: int| 0 <= i < j < kept.len() implies (#[trigger] kept[i]).token
                != (#[trigger] kept[j]).token by {
                if j < kept_front.len() {
                    assert(kept[i] == kept_front[i] && kept[j] == kept_front[j]);
                } else {
                    assert(kept[j] == last);
                    assert(kept[i] == kept_front[i]);
                    assert(front.contains(kept_front[i]));
                    let a = choose|a: int| 0 <= a < front.len() && front[a] == kept_front[i];
                    assert(sessions[a] == kept[i]);
                    assert(sessions[sessions.len() - 1] == last);
                }
            }
        }
    }
}

/// Among rows with distinct tokens, the row with a token is the one found
/// under it.
pub proof fn lemma_find_session(sessions: Seq<SessionRow>, token: Seq<char>)
    ensures
        match find_session(sessions, token) {
            Some(row) => sessions.contains(row) && row.token == token,
            None => forall|i: int| 0 <= i < sessions.len() ==> (#[trigger] sessions[i]).token != token,
        },
        unique_tokens(sessions) ==> forall|i: int|
            0 <= i < sessions.len() && (#[trigger] sessions[i]).token == token ==> find_session(
                sessions,
                token,
            ) == Some(sessions[i]),
    decreases sessions.len(),
{
    if sessions.len() > 0 {
        let rest = sessions.drop_first();
        lemma_find_session(rest, token);
        if sessions[0].token == token {
            assert(sessions.contains(sessions[0]));
        } else {
            match find_session(rest, token) {
                Some(row) => {
                    let j = choose|j: int| 0 <= j < rest.len() && rest[j] == row;
                    assert(sessions[j + 1] == row);
                },
                None => {
                    assert forall|i: int| 0 <= i < sessions.len() implies (
                    #[trigger] sessions[i]).token != token by {
                        if i > 0 {
                            assert(rest[i - 1] == sessions[i]);
                        }
                    }
                },
            }
        }
        if unique_tokens(sessions) {
            assert(unique_tokens(rest)) by {
                assert forall|i: int, j: int| 0 <= i < j < rest.len() implies (
                #[trigger] rest[i]).token != (#[trigger] rest[j]).token by {
                    assert(rest[i] == sessions[i + 1] && rest[j] == sessions[j + 1]);
                }
            }
            assert forall|i: int| 0 <= i < sessions.len() && (#[trigger] sessions[i]).token
                == token implies find_session(sessions, token) == Some(sessions[i]) by {
                if i > 0 {
                    assert(rest[i - 1] == sessions[i]);
                    assert(sessions[0].token != sessions[i].token);
                }
            }
        }
    }
}

/// The record of a user is a record of the list and carries that user.
pub proof fn lemma_find_mfa(mfa: Seq<MfaRow>, user: Seq<char>)
    ensures
        match find_mfa(mfa, user) {
            Some(row) => mfa.contains(row) && row.user == user,
            None => forall|i: int| 0 <= i < mfa.len() ==> (#[trigger] mfa[i]).user != user,
        },
    decreases mfa.len(),
{
    if mfa.len() > 0 {
        let rest = mfa.drop_first();
        lemma_find_mfa(rest, user);
        if mfa[0].user == user {
            assert(mfa.contains(mfa[0]));
        } else {
            match find_mfa(rest, user) {
                Some(row) => {
                    let j = choose|j: int| 0 <= j < rest.len() && rest[j] == row;
                    assert(mfa[j + 1] == row);
                },
                None => {
                    assert forall|i: int| 0 <= i < mfa.len() implies (#[trigger] mfa[i]).user
                        != user by {
                        if i > 0 {
                            assert(rest[i - 1] == mfa[i]);
                        }
                    }
                },
            }
        }
    }
}

/// Where no row passes a selection, the selection is empty.
pub proof fn lemma_filter_none(sessions: Seq<SessionRow>, pred: spec_fn(SessionRow) -> bool)
    requires
        forall|i: int| 0 <= i < sessions.len() ==> !pred(#[trigger] sessions[i]),
    ensures
        sessions.filter(pred) == Seq::<SessionRow>::empty(),
{
    lemma_filter_rows(sessions, pred);
    let kept = sessions.filter(pred);
    if kept.len() > 0 {
        assert(sessions.contains(kept[0]));
        let j = choose|j: int| 0 <= j < sessions.len() && sessions[j] == kept[0];
        assert(!pred(sessions[j]));
    }
    assert(kept =~= Seq::<SessionRow>::empty());
}

/// Selecting twice, the second time more narrowly, is selecting once.
pub proof fn lemma_filter_twice(
    sessions: Seq<SessionRow>,
    wide: spec_fn(SessionRow) -> bool,
    narrow: spec_fn(SessionRow) -> bool,
)
    requires
        forall|row: SessionRow| #[trigger] narrow(row) ==> wide(row),
    ensures
        sessions.filter(wide).filter(narrow) == sessions.filter(narrow),
    decreases sessions.len(),
{
    reveal(Seq::filter);
    if sessions.len() > 0 {
        let front = sessions.drop_last();
        let last = sessions.last();
        lemma_filter_twice(front, wide, narrow);
        assert(sessions =~= front.push(last));
        front.lemma_filter_push(last, wide);
        front.lemma_filter_push(last, narrow);
        if wide(last) {
            front.filter(wide).lemma_filter_push(last, narrow);
        }
    }
}

/// A login that is not refused leaves the user with exactly one session,
/// which is pending and carries the fresh token. Earlier sessions of the
/// user are gone, the sessions of everybody else are as they were, the user
/// has a second-factor record, and the store is well formed.
pub proof fn lemma_login_leaves_one_pending_session(
    store: StoreModel,
    user: Seq<char>,
    token: Seq<char>,
    secret: Seq<char>,
    now: u64,
)
    requires
        store_wf(store),
        login_refusal(store, user, true, token) is None,
    ensures
        store_wf(after_login(store, user, token, secret, now)),
        sessions_of(after_login(store, user, token, secret, now).sessions, user) == seq![
            SessionRow { token, user, state: SessionState::Pending, created_at: now },
        ],
        find_session(after_login(store, user, token, secret, now).sessions, token) == Some(
            SessionRow { token, user, state: SessionState::Pending, created_at: now },
        ),
        find_mfa(after_login(store, user, token, secret, now).mfa, user) is Some,
        forall|other: Seq<char>|
            other != user ==> #[trigger] sessions_of(
                after_login(store, user, token, secret, now).sessions,
                other,
            ) == sessions_of(store.sessions, other),
{
    let after = after_login(store, user, token, secret, now);
    let fresh = SessionRow { token, user, state: SessionState::Pending, created_at: now };
    let others = without_user(store.sessions, user);
    lemma_filter_rows(store.sessions, of_others(user));
    lemma_find_session(others, token);
    assert(unique_tokens(after.sessions)) by {
        assert forall|i: int, j: int| 0 <= i < j < after.sessions.len() implies (
        #[trigger] after.sessions[i]).token != (#[trigger] after.sessions[j]).token by {
            assert(after.sessions[i] == others[i]);
            if j < others.len() {
                assert(after.sessions[j] == others[j]);
            }
        }
    }
    lemma_find_mfa(store.mfa, user);
    assert(unique_users(after.mfa));
    assert(sessions_of(after.sessions, user) == seq![fresh]) by {
        others.lemma_filter_push(fresh, of_user(user));
        assert forall|i: int| 0 <= i < others.len() implies !of_user(user)(
            #[trigger] others[i],
        ) by {}
        lemma_filter_none(others, of_user(user));
        assert(Seq::<SessionRow>::empty().push(fresh) =~= seq![fresh]);
    }
    lemma_find_session(after.sessions, token);
    assert(after.sessions[others.len() as int] == fresh);
    assert(find_mfa(after.mfa, user) is Some) by {
        if find_mfa(store.mfa, user) is None {
            lemma_find_mfa(after.mfa, user);
            assert(after.mfa[store.mfa.len() as int].user == user);
        }
    }
    assert forall|other: Seq<char>| other != user implies #[trigger] sessions_of(
        after.sessions,
        other,
    ) == sessions_of(store.sessions, other) by {
        others.lemma_filter_push(fresh, of_user(other));
        assert forall|row: SessionRow| #[trigger] of_user(other)(row) implies of_others(user)(row) by {}
        lemma_filter_twice(store.sessions, of_others(user), of_user(other));
    }
}

/// A login by somebody who is not staff is refused as such, whatever the
/// token is, so no session is created for it.
pub proof fn lemma_login_needs_staff(store: StoreModel, user: Seq<char>, token: Seq<char>)
    ensures
        login_refusal(store, user, false, token) == Some(AuthError::NotStaff),
{
}

/// Activating a pending session makes it active and leaves every other
/// session as it was; the store stays well formed.
pub proof fn lemma_activation_makes_active(store: StoreModel, token: Seq<char>)
    requires
        store_wf(store),
        activation_refusal(store, token) is None,
    ensures
        find_session(store.sessions, token) matches Some(row) && {
            let after = after_activation(store, token, row.user);
            &&& store_wf(after)
            &&& find_session(after.sessions, token) == Some(
                SessionRow { state: SessionState::Active, ..row },
            )
            &&& authorized_session(after, token, true) is Some
            &&& find_mfa(after.mfa, row.user) matches Some(record) && record.verified
            &&& forall|other: Seq<char>|
                other != token ==> find_session(after.sessions, other) == find_session(
                    store.sessions,
                    other,
                )
        },
{
    let row = find_session(store.sessions, token)->0;
    let after = after_activation(store, token, row.user);
    lemma_with_state(store.sessions, token, SessionState::Active);
    lemma_with_verified(store.mfa, row.user, true);
    assert(unique_users(after.mfa));
    assert forall|other: Seq<char>| other != token implies find_session(after.sessions, other)
        == find_session(store.sessions, other) by {
        lemma_with_state_others(store.sessions, token, SessionState::Active, other);
    }
}

/// Changing the state of the session with a token keeps the tokens, and
/// the session found under the token is the old one in the new state.
pub proof fn lemma_with_state(sessions: Seq<SessionRow>, token: Seq<char>, state: SessionState)
    ensures
        unique_tokens(sessions) ==> unique_tokens(with_state(sessions, token, state)),
        find_session(with_state(sessions, token, state), token) == match find_session(
            sessions,
            token,
        ) {
            Some(row) => Some(SessionRow { state, ..row }),
            None => None,
        },
    decreases sessions.len(),
{
    let changed = with_state(sessions, token, state);
    if unique_tokens(sessions) {
        assert forall|i: int, j: int| 0 <= i < j < changed.len() implies (
        #[trigger] changed[i]).token != (#[trigger] changed[j]).token by {
            assert(changed[i].token == sessions[i].token);
            assert(changed[j].token == sessions[j].token);
        }
    }
    if sessions.len() > 0 {
        lemma_with_state(sessions.drop_first(), token, state);
        assert(changed.drop_first() =~= with_state(sessions.drop_first(), token, state));
    }
}

/// Changing the state of the session with a token changes nothing for
/// other tokens.
pub proof fn lemma_with_state_others(
    sessions: Seq<SessionRow>,
    token: Seq<char>,
    state: SessionState,
    other: Seq<char>,
)
    requires
        other != token,
    ensures
        find_session(with_state(sessions, token, state), other) == find_session(sessions, other),
    decreases sessions.len(),
{
    let changed = with_state(sessions, token, state);
    if sessions.len() > 0 {
        lemma_with_state_others(sessions.drop_first(), token, state, other);
        assert(changed.drop_first() =~= with_state(sessions.drop_first(), token, state));
    }
}

/// Marking the record of a user keeps the users, and the record found for
/// the user is the old one with the new mark.
pub proof fn lemma_with_verified(mfa: Seq<MfaRow>, user: Seq<char>, verified: bool)
    ensures
        unique_users(mfa) ==> unique_users(with_verified(mfa, user, verified)),
        find_mfa(with_verified(mfa, user, verified), user) == match find_mfa(mfa, user) {
            Some(row) => Some(MfaRow { verified, ..row }),
            None => None,
        },
    decreases mfa.len(),
{
    let changed = with_verified(mfa, user, verified);
    if unique_users(mfa) {
        assert forall|i: int, j: int| 0 <= i < j < changed.len() implies (
        #[trigger] changed[i]).user != (#[trigger] changed[j]).user by {
            assert(changed[i].user == mfa[i].user);
            assert(changed[j].user == mfa[j].user);
        }
    }
    if mfa.len() > 0 {
        lemma_with_verified(mfa.drop_first(), user, verified);
        assert(changed.drop_first() =~= with_verified(mfa.drop_first(), user, verified));
    }
}

/// Once a session has been activated, it cannot be activated again: the
/// second attempt is refused whatever the code is.
pub proof fn lemma_activation_happens_once(store: StoreModel, token: Seq<char>)
    requires
        store_wf(store),
        activation_refusal(store, token) is None,
    ensures
        find_session(store.sessions, token) matches Some(row) && activation_refusal(
            after_activation(store, token, row.user),
            token,
        ) == Some(AuthError::SessionAlreadyActive),
{
    lemma_activation_makes_active(store, token);
}

/// A reset deletes every session of the user, so none of the user's
/// tokens counts afterwards, neither as active nor as pending. The sessions
/// of everybody else are as they were.
pub proof fn lemma_reset_revokes_sessions(store: StoreModel, user: Seq<char>)
    requires
        store_wf(store),
    ensures
        store_wf(after_reset(store, user)),
        sessions_of(after_reset(store, user).sessions, user) == Seq::<SessionRow>::empty(),
        forall|token: Seq<char>|
            (#[trigger] find_session(store.sessions, token) matches Some(row) && row.user == user)
                ==> authorized_session(after_reset(store, user), token, false) is None
                && authorized_session(after_reset(store, user), token, true) is None,
        forall|other: Seq<char>|
            other != user ==> #[trigger] sessions_of(after_reset(store, user).sessions, other)
                == sessions_of(store.sessions, other),
        find_mfa(after_reset(store, user).mfa, user) matches Some(record) ==> !record.verified,
{
    let after = after_reset(store, user);
    let others = without_user(store.sessions, user);
    lemma_filter_rows(store.sessions, of_others(user));
    lemma_with_verified(store.mfa, user, false);
    assert forall|i: int| 0 <= i < others.len() implies !of_user(user)(#[trigger] others[i]) by {}
    lemma_filter_none(others, of_user(user));
    assert forall|token: Seq<char>|
        (#[trigger] find_session(store.sessions, token) matches Some(row) && row.user
            == user) implies authorized_session(after, token, false) is None && authorized_session(
        after,
        token,
        true,
    ) is None by {
        lemma_find_session(store.sessions, token);
        lemma_find_session(others, token);
        if find_session(others, token) is Some {
            let found = find_session(others, token)->0;
            assert(store.sessions.contains(found));
            let row = find_session(store.sessions, token)->0;
            let a = choose|a: int| 0 <= a < store.sessions.len() && store.sessions[a] == found;
            let b = choose|b: int| 0 <= b < store.sessions.len() && store.sessions[b] == row;
            assert(of_others(user)(found));
            if a < b {
                assert(store.sessions[a].token != store.sessions[b].token);
            } else if b < a {
                assert(store.sessions[b].token != store.sessions[a].token);
            }
        }
    }
    assert forall|other: Seq<char>| other != user implies #[trigger] sessions_of(
        after.sessions,
        other,
    ) == sessions_of(store.sessions, other) by {
        assert forall|row: SessionRow| #[trigger] of_user(other)(row) implies of_others(user)(row) by {}
        lemma_filter_twice(store.sessions, of_others(user), of_user(other));
    }
}

/// After a logout no session has the token, and every other session is
/// found as before. A second logout with the same token changes nothing.
pub proof fn lemma_logout(store: StoreModel, token: Seq<char>)
    requires
        store_wf(store),
    ensures
        store_wf(after_logout(store, token)),
        find_session(after_logout(store, token).sessions, token) is None,
        after_logout(after_logout(store, token), token) == after_logout(store, token),
{
    let after = after_logout(store, token);
    lemma_filter_rows(store.sessions, of_other_tokens(token));
    lemma_find_session(after.sessions, token);
    if find_session(after.sessions, token) is Some {
        let found = find_session(after.sessions, token)->0;
        let k = choose|k: int| 0 <= k < after.sessions.len() && after.sessions[k] == found;
        assert(of_other_tokens(token)(after.sessions[k]));
    }
    lemma_filter_twice(store.sessions, of_other_tokens(token), of_other_tokens(token));
}

/// Whether no two sessions belong to the same user.
pub open spec fn one_session_each(sessions: Seq<SessionRow>) -> bool {
    forall|i: int, j: int|
        0 <= i < j < sessions.len() ==> (#[trigger] sessions[i]).user != (
        #[trigger] sessions[j]).user
}

/// A selection of sessions of which no two belong to the same user has no
/// two of the same user either.
pub proof fn lemma_filter_keeps_users_apart(
    sessions: Seq<SessionRow>,
    pred: spec_fn(SessionRow) -> bool,
)
    requires
        one_session_each(sessions),
    ensures
        one_session_each(sessions.filter(pred)),
    decreases sessions.len(),
{
    reveal(Seq::filter);
    let kept = sessions.filter(pred);
    if sessions.len() > 0 {
        let front = sessions.drop_last();
        let last = sessions.last();
        assert(one_session_each(front)) by {
            assert forall|i: int, j: int| 0 <= i < j < front.len() implies (
            #[trigger] front[i]).user != (#[trigger] front[j]).user by {
                assert(front[i] == sessions[i] && front[j] == sessions[j]);
            }
        }
        lemma_filter_keeps_users_apart(front, pred);
        lemma_filter_rows(front, pred);
        let kept_front = front.filter(pred);
        assert forall|i: int, j: int| 0 <= i < j < kept.len() implies (#[trigger] kept[i]).user
            != (#[trigger] kept[j]).user by {
            if j < kept_front.len() {
                assert(kept[i] == kept_front[i] && kept[j] == kept_front[j]);
            } else {
                assert(kept[j] == last);
                assert(kept[i] == kept_front[i]);
                assert(front.contains(kept_front[i]));
                let a = choose|a: int| 0 <= a < front.len() && front[a] == kept_front[i];
                assert(sessions[a] == kept[i]);
                assert(sessions[sessions.len() - 1] == last);
            }
        }
    }
}

/// At most one session per user: where no user has two sessions, none has
/// two after a login, an activation, a reset or a logout. A login leaves
/// its user with one session whatever was there before.
pub proof fn lemma_one_session_per_user(
    store: StoreModel,
    user: Seq<char>,
    token: Seq<char>,
    secret: Seq<char>,
    now: u64,
)
    requires
        one_session_each(store.sessions),
    ensures
        one_session_each(after_login(store, user, token, secret, now).sessions),
        one_session_each(after_activation(store, token, user).sessions),
        one_session_each(after_reset(store, user).sessions),
        one_session_each(after_logout(store, token).sessions),
{
    lemma_filter_keeps_users_apart(store.sessions, of_others(user));
    lemma_filter_keeps_users_apart(store.sessions, of_other_tokens(token));
    lemma_filter_rows(store.sessions, of_others(user));
    let others = without_user(store.sessions, user);
    let logged_in = after_login(store, user, token, secret, now).sessions;
    assert forall|i: int, j: int| 0 <= i < j < logged_in.len() implies (
    #[trigger] logged_in[i]).user != (#[trigger] logged_in[j]).user by {
        assert(logged_in[i] == others[i]);
        assert(of_others(user)(others[i]));
        if j < others.len() {
            assert(logged_in[j] == others[j]);
        }
    }
    let activated = after_activation(store, token, user).sessions;
    assert forall|i: int, j: int| 0 <= i < j < activated.len() implies (
    #[trigger] activated[i]).user != (#[trigger] activated[j]).user by {
        assert(activated[i].user == store.sessions[i].user);
        assert(activated[j].user == store.sessions[j].user);
    }
}

} // verus!
