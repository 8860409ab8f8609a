//! The executable session store.
//!
//! It holds the sessions and the second-factor records in memory and is
//! verified, step by step, against the model of the protocol.

use crate::session::{
    activation_refusal, after_activation, after_login, after_logout, after_reset,
    authorized_session,
    find_mfa, find_session, login_refusal, of_other_tokens, of_others, of_user, otp_refusal,
    lemma_filter_rows, lemma_find_mfa, lemma_find_session, reset_refusal, sessions_of,
    status_refusal, store_wf, unique_tokens, unique_users, with_secret, with_state, with_verified,
    pending_row, without_token, without_user, AuthError, MfaRow, OtpCheck, SessionRow,
    SessionState, StoreModel,
};
use crate::text::str_eq;
use vstd::prelude::*;

verus! {

/// A login session: a token, its user and its state.
pub struct LoginSession {
    pub token: String,
    pub user_id: String,
    pub state: SessionState,
    pub created_at: u64,
}

/// The second-factor record of a user.
pub struct MfaRecord {
    pub user_id: String,
    /// The shared secret, in base32.
    pub secret: String,
    pub verified: bool,
    pub created_at: u64,
}

impl View for LoginSession {
    type V = SessionRow;

    open spec fn view(&self) -> SessionRow {
        SessionRow {
            token: self.token@,
            user: self.user_id@,
            state: self.state,
            created_at: self.created_at,
        }
    }
}

impl View for MfaRecord {
    type V = MfaRow;

    open spec fn view(&self) -> MfaRow {
        MfaRow {
            user: self.user_id@,
            secret: self.secret@,
            verified: self.verified,
            created_at: self.created_at,
        }
    }
}

/// The rows that a list of sessions stands for.
pub open spec fn session_rows(sessions: Seq<LoginSession>) -> Seq<SessionRow> {
    sessions.map_values(|session: LoginSession| session@)
}

/// The rows that a list of records stands for.
pub open spec fn mfa_rows(records: Seq<MfaRecord>) -> Seq<MfaRow> {
    records.map_values(|record: MfaRecord| record@)
}

impl LoginSession {
    /// A copy of this session.
    pub fn duplicate(&self) -> (copy: LoginSession)
        ensures
            copy@ == self@,
    {
        LoginSession {
            token: self.token.clone(),
            user_id: self.user_id.clone(),
            state: self.state,
            created_at: self.created_at,
        }
    }
}

impl MfaRecord {
    /// A copy of this record.
    pub fn duplicate(&self) -> (copy: MfaRecord)
        ensures
            copy@ == self@,
    {
        MfaRecord {
            user_id: self.user_id.clone(),
            secret: self.secret.clone(),
            verified: self.verified,
            created_at: self.created_at,
        }
    }
}

fn position_of_token(sessions: &Vec<LoginSession>, token: &str) -> (found: Option<usize>)
    ensures
        match found {
            Some(i) => {
                &&& i < sessions.len()
                &&& sessions[i as int].token@ == token@
                &&& forall|j: int| 0 <= j < i ==> sessions[j].token@ != token@
                &&& find_session(session_rows(sessions@), token@) == Some(sessions[i as int]@)
            },
            None => {
                &&& find_session(session_rows(sessions@), token@) is None
                &&& forall|j: int| 0 <= j < sessions.len() ==> sessions[j].token@ != token@
            },
        },
{
    let ghost rows = session_rows(sessions@);
    let mut i: usize = 0;
    assert(rows.skip(0) =~= rows);
    while i < sessions.len()
        invariant
            i <= sessions.len(),
            rows == session_rows(sessions@),
            find_session(rows, token@) == find_session(rows.skip(i as int), token@),
            forall|j: int| 0 <= j < i ==> sessions[j].token@ != token@,
        decreases sessions.len() - i,
    {
        assert(rows.skip(i as int)[0] == sessions[i as int]@);
        assert(rows.skip(i as int).drop_first() =~= rows.skip(i + 1));
        if str_eq(sessions[i].token.as_str(), token) {
            return Some(i);
        }
        i += 1;
    }
    None
}

fn position_of_user(records: &Vec<MfaRecord>, user: &str) -> (found: Option<usize>)
    ensures
        match found {
            Some(i) => {
                &&& i < records.len()
                &&& records[i as int].user_id@ == user@
                &&& forall|j: int| 0 <= j < i ==> records[j].user_id@ != user@
                &&& find_mfa(mfa_rows(records@), user@) == Some(records[i as int]@)
            },
            None => {
                &&& find_mfa(mfa_rows(records@), user@) is None
                &&& forall|j: int| 0 <= j < records.len() ==> records[j].user_id@ != user@
            },
        },
{
    let ghost rows = mfa_rows(records@);
    let mut i: usize = 0;
    assert(rows.skip(0) =~= rows);
    while i < records.len()
        invariant
            i <= records.len(),
            rows == mfa_rows(records@),
            find_mfa(rows, user@) == find_mfa(rows.skip(i as int), user@),
            forall|j: int| 0 <= j < i ==> records[j].user_id@ != user@,
        decreases records.len() - i,
    {
        assert(rows.skip(i as int)[0] == records[i as int]@);
        assert(rows.skip(i as int).drop_first() =~= rows.skip(i + 1));
        if str_eq(records[i].user_id.as_str(), user) {
            return Some(i);
        }
        i += 1;
    }
    None
}

/// Which rows a selection keeps.
#[derive(Clone, Copy, Debug, PartialEq, Eq, Structural)]
enum Keep {
    OfUser,
    OfOthers,
    OfOtherTokens,
}

spec fn keep_pred(keep: Keep, key: Seq<char>) -> spec_fn(SessionRow) -> bool {
    match keep {
        Keep::OfUser => of_user(key),
        Keep::OfOthers => of_others(key),
        Keep::OfOtherTokens => of_other_tokens(key),
    }
}

fn select(sessions: &Vec<LoginSession>, keep: Keep, key: &str) -> (kept: Vec<LoginSession>)
    ensures
        session_rows(kept@) == session_rows(sessions@).filter(keep_pred(keep, key@)),
{
    let ghost rows = session_rows(sessions@);
    let ghost pred = keep_pred(keep, key@);
    let mut kept: Vec<LoginSession> = Vec::new();
    let mut i: usize = 0;
    proof {
        reveal(Seq::filter);
        assert(rows.take(0).filter(pred) =~= Seq::<SessionRow>::empty());
        assert(session_rows(kept@) =~= Seq::<SessionRow>::empty());
    }
    while i < sessions.len()
        invariant
            i <= sessions.len(),
            rows == session_rows(sessions@),
            pred == keep_pred(keep, key@),
            session_rows(kept@) == rows.take(i as int).filter(pred),
        decreases sessions.len() - i,
    {
        let row = &sessions[i];
        let wanted = match keep {
            Keep::OfUser => str_eq(row.user_id.as_str(), key),
            Keep::OfOthers => !str_eq(row.user_id.as_str(), key),
            Keep::OfOtherTokens => !str_eq(row.token.as_str(), key),
        };
        proof {
            assert(wanted == pred(row@));
            assert(rows.take(i + 1) =~= rows.take(i as int).push(row@));
            rows.take(i as int).lemma_filter_push(row@, pred);
        }
        if wanted {
            let ghost before = kept@;
            kept.push(row.duplicate());
            assert(session_rows(kept@) =~= session_rows(before).push(row@));
        }
        i += 1;
    }
    assert(rows.take(sessions.len() as int) =~= rows);
    kept
}

fn with_session_state(sessions: &Vec<LoginSession>, token: &str, state: SessionState) -> (out: Vec<
    LoginSession,
>)
    ensures
        session_rows(out@) == with_state(session_rows(sessions@), token@, state),
{
    let ghost rows = session_rows(sessions@);
    let mut out: Vec<LoginSession> = Vec::new();
    let mut i: usize = 0;
    assert(session_rows(out@) =~= with_state(rows.take(0), token@, state));
    while i < sessions.len()
        invariant
            i <= sessions.len(),
            rows == session_rows(sessions@),
            session_rows(out@) == with_state(rows.take(i as int), token@, state),
        decreases sessions.len() - i,
    {
        let row = &sessions[i];
        let ghost before = out@;
        let mut copy = row.duplicate();
        if str_eq(row.token.as_str(), token) {
            copy.state = state;
        }
        out.push(copy);
        proof {
            assert(rows.take(i + 1) =~= rows.take(i as int).push(row@));
            assert(session_rows(out@) =~= session_rows(before).push(copy@));
            assert(with_state(rows.take(i + 1), token@, state) =~= with_state(
                rows.take(i as int),
                token@,
                state,
            ).push(copy@));
        }
        i += 1;
    }
    assert(rows.take(sessions.len() as int) =~= rows);
    out
}

/// What a record is to become.
#[derive(Clone, Copy, Debug, PartialEq, Eq, Structural)]
enum Mark {
    Verified,
    Unverified,
    Secret,
}

spec fn marked(mfa: Seq<MfaRow>, user: Seq<char>, mark: Mark, secret: Seq<char>) -> Seq<MfaRow> {
    match mark {
        Mark::Verified => with_verified(mfa, user, true),
        Mark::Unverified => with_verified(mfa, user, false),
        Mark::Secret => with_secret(mfa, user, secret),
    }
}

fn with_mark(records: &Vec<MfaRecord>, user: &str, mark: Mark, secret: &String) -> (out: Vec<
    MfaRecord,
>)
    ensures
        mfa_rows(out@) == marked(mfa_rows(records@), user@, mark, secret@),
{
    let ghost rows = mfa_rows(records@);
    let mut out: Vec<MfaRecord> = Vec::new();
    let mut i: usize = 0;
    assert(mfa_rows(out@) =~= marked(rows.take(0), user@, mark, secret@));
    while i < records.len()
        invariant
            i <= records.len(),
            rows == mfa_rows(records@),
            mfa_rows(out@) == marked(rows.take(i as int), user@, mark, secret@),
        decreases records.len() - i,
    {
        let row = &records[i];
        let ghost before = out@;
        let mut copy = row.duplicate();
        if str_eq(row.user_id.as_str(), user) {
            match mark {
                Mark::Verified => {
                    copy.verified = true;
                },
                Mark::Unverified => {
                    copy.verified = false;
                },
                Mark::Secret => {
                    copy.secret = secret.clone();
                },
            }
        }
        out.push(copy);
        proof {
            assert(rows.take(i + 1) =~= rows.take(i as int).push(row@));
            assert(mfa_rows(out@) =~= mfa_rows(before).push(copy@));
            assert(marked(rows.take(i + 1), user@, mark, secret@) =~= marked(
                rows.take(i as int),
                user@,
                mark,
                secret@,
            ).push(copy@));
        }
        i += 1;
    }
    assert(rows.take(records.len() as int) =~= rows);
    out
}

fn tokens_distinct(sessions: &Vec<LoginSession>) -> (distinct: bool)
    ensures
        distinct == unique_tokens(session_rows(sessions@)),
{
    let ghost rows = session_rows(sessions@);
    let mut i: usize = 0;
    while i < sessions.len()
        invariant
            i <= sessions.len(),
            rows == session_rows(sessions@),
            forall|a: int, b: int|
                0 <= a < b < i ==> (#[trigger] rows[a]).token != (#[trigger] rows[b]).token,
        decreases sessions.len() - i,
    {
        let mut j: usize = 0;
        while j < i
            invariant
                j <= i,
                i < sessions.len(),
                rows == session_rows(sessions@),
                forall|a: int| 0 <= a < j ==> (#[trigger] rows[a]).token != rows[i as int].token,
            decreases i - j,
        {
            if str_eq(sessions[j].token.as_str(), sessions[i].token.as_str()) {
                assert(rows[j as int].token == rows[i as int].token);
                return false;
            }
            j += 1;
        }
        i += 1;
    }
    true
}

fn users_distinct(records: &Vec<MfaRecord>) -> (distinct: bool)
    ensures
        distinct == unique_users(mfa_rows(records@)),
{
    let ghost rows = mfa_rows(records@);
    let mut i: usize = 0;
    while i < records.len()
        invariant
            i <= records.len(),
            rows == mfa_rows(records@),
            forall|a: int, b: int|
                0 <= a < b < i ==> (#[trigger] rows[a]).user != (#[trigger] rows[b]).user,
        decreases records.len() - i,
    {
        let mut j: usize = 0;
        while j < i
            invariant
                j <= i,
                i < records.len(),
                rows == mfa_rows(records@),
                forall|a: int| 0 <= a < j ==> (#[trigger] rows[a]).user != rows[i as int].user,
            decreases i - j,
        {
            if str_eq(records[j].user_id.as_str(), records[i].user_id.as_str()) {
                assert(rows[j as int].user == rows[i as int].user);
                return false;
            }
            j += 1;
        }
        i += 1;
    }
    true
}

/// What a checked token stands for.
pub struct AuthData {
    pub user_id: String,
    pub created_at: u64,
    pub state: SessionState,
}

impl AuthData {
    /// Whether this is what `row` says.
    pub open spec fn describes(&self, row: SessionRow) -> bool {
        &&& self.user_id@ == row.user
        &&& self.created_at == row.created_at
        &&& self.state == row.state
    }
}

/// The store of login sessions and second-factor records.
pub struct SessionStore {
    sessions: Vec<LoginSession>,
    mfa: Vec<MfaRecord>,
}

impl SessionStore {
    /// The rows of the store.
    pub closed spec fn view(&self) -> StoreModel {
        StoreModel { sessions: session_rows(self.sessions@), mfa: mfa_rows(self.mfa@) }
    }

    /// No two sessions share a token, and no two records share a user.
    pub open spec fn wf(&self) -> bool {
        store_wf(self@)
    }

    /// A store without sessions and records.
    pub fn new() -> (store: SessionStore)
        ensures
            store.wf(),
            store@.sessions.len() == 0,
            store@.mfa.len() == 0,
    {
        SessionStore { sessions: Vec::new(), mfa: Vec::new() }
    }

    /// A store with the given rows, if no two sessions share a token and no
    /// two records share a user.
    pub fn from_rows(sessions: Vec<LoginSession>, mfa: Vec<MfaRecord>) -> (store: Option<
        SessionStore,
    >)
        ensures
            match store {
                Some(made) => made.wf() && made@.sessions == session_rows(sessions@) && made@.mfa
                    == mfa_rows(mfa@),
                None => !unique_tokens(session_rows(sessions@)) || !unique_users(mfa_rows(mfa@)),
            },
    {
        if tokens_distinct(&sessions) && users_distinct(&mfa) {
            Some(SessionStore { sessions, mfa })
        } else {
            None
        }
    }

    /// Every session of the store, in order.
    pub fn sessions(&self) -> (rows: Vec<LoginSession>)
        ensures
            session_rows(rows@) == self@.sessions,
    {
        let mut rows: Vec<LoginSession> = Vec::new();
        let mut i: usize = 0;
        while i < self.sessions.len()
            invariant
                i <= self.sessions.len(),
                session_rows(rows@) == session_rows(self.sessions@).take(i as int),
            decreases self.sessions.len() - i,
        {
            let ghost before = rows@;
            rows.push(self.sessions[i].duplicate());
            assert(session_rows(rows@) =~= session_rows(before).push(self.sessions@[i as int]@));
            assert(session_rows(self.sessions@).take(i + 1) =~= session_rows(
                self.sessions@,
            ).take(i as int).push(self.sessions@[i as int]@));
            i += 1;
        }
        assert(session_rows(self.sessions@).take(self.sessions.len() as int) =~= session_rows(
            self.sessions@,
        ));
        rows
    }

    /// Every second-factor record of the store, in order.
    pub fn records(&self) -> (rows: Vec<MfaRecord>)
        ensures
            mfa_rows(rows@) == self@.mfa,
    {
        let mut rows: Vec<MfaRecord> = Vec::new();
        let mut i: usize = 0;
        while i < self.mfa.len()
            invariant
                i <= self.mfa.len(),
                mfa_rows(rows@) == mfa_rows(self.mfa@).take(i as int),
            decreases self.mfa.len() - i,
        {
            let ghost before = rows@;
            rows.push(self.mfa[i].duplicate());
            assert(mfa_rows(rows@) =~= mfa_rows(before).push(self.mfa@[i as int]@));
            assert(mfa_rows(self.mfa@).take(i + 1) =~= mfa_rows(self.mfa@).take(i as int).push(
                self.mfa@[i as int]@,
            ));
            i += 1;
        }
        assert(mfa_rows(self.mfa@).take(self.mfa.len() as int) =~= mfa_rows(self.mfa@));
        rows
    }

    /// The number of sessions in the store.
    pub fn session_count(&self) -> (count: usize)
        ensures
            count == self@.sessions.len(),
    {
        self.sessions.len()
    }

    fn lookup(&self, token: &str, need_active: bool) -> (result: Result<AuthData, AuthError>)
        ensures
            match result {
                Ok(data) => authorized_session(self@, token@, need_active) matches Some(row)
                    && data.describes(row),
                Err(e) => e == AuthError::InvalidOrExpiredToken && authorized_session(
                    self@,
                    token@,
                    need_active,
                ) is None,
            },
    {
        match position_of_token(&self.sessions, token) {
            None => Err(AuthError::InvalidOrExpiredToken),
            Some(i) => {
                let row = &self.sessions[i];
                if need_active && row.state != SessionState::Active {
                    Err(AuthError::InvalidOrExpiredToken)
                } else {
                    Ok(
                        AuthData {
                            user_id: row.user_id.clone(),
                            created_at: row.created_at,
                            state: row.state,
                        },
                    )
                }
            },
        }
    }

    /// Resolves a token to its session. Only an active session counts.
    pub fn check_auth(&self, token: &str) -> (result: Result<AuthData, AuthError>)
        ensures
            match result {
                Ok(data) => authorized_session(self@, token@, true) matches Some(row)
                    && data.describes(row) && data.state == SessionState::Active,
                Err(e) => e == AuthError::InvalidOrExpiredToken && authorized_session(
                    self@,
                    token@,
                    true,
                ) is None,
            },
    {
        self.lookup(token, true)
    }

    /// Resolves a token to its session, pending or active. It serves the
    /// steps that set the second factor up, before the session is active.
    pub fn check_auth_insecure(&self, token: &str) -> (result: Result<AuthData, AuthError>)
        ensures
            match result {
                Ok(data) => authorized_session(self@, token@, false) matches Some(row)
                    && data.describes(row),
                Err(e) => e == AuthError::InvalidOrExpiredToken && authorized_session(
                    self@,
                    token@,
                    false,
                ) is None,
            },
    {
        self.lookup(token, false)
    }

    /// The sessions of one user, in the order of the store.
    pub fn sessions_of_user(&self, user: &str) -> (found: Vec<LoginSession>)
        ensures
            session_rows(found@) == sessions_of(self@.sessions, user@),
    {
        select(&self.sessions, Keep::OfUser, user)
    }

    /// The second-factor record of a user.
    pub fn mfa_record_of(&self, user: &str) -> (found: Option<MfaRecord>)
        ensures
            match found {
                Some(record) => find_mfa(self@.mfa, user@) == Some(record@),
                None => find_mfa(self@.mfa, user@) is None,
            },
    {
        match position_of_user(&self.mfa, user) {
            Some(i) => Some(self.mfa[i].duplicate()),
            None => None,
        }
    }

    /// Logs a user in with a fresh token and, for a user without a
    /// second-factor record, a fresh secret.
    ///
    /// All earlier sessions of the user are deleted and one pending session
    /// is added. A refused login changes nothing.
    pub fn login_with(
        &mut self,
        user: &str,
        staff: bool,
        token: String,
        secret: String,
        now: u64,
    ) -> (result: Result<(), AuthError>)
        requires
            old(self).wf(),
        ensures
            final(self).wf(),
            match result {
                Ok(()) => {
                    &&& login_refusal(old(self)@, user@, staff, token@) is None
                    &&& final(self)@ == after_login(old(self)@, user@, token@, secret@, now)
                    &&& sessions_of(final(self)@.sessions, user@) == seq![
                        pending_row(token@, user@, now),
                    ]
                },
                Err(e) => {
                    &&& login_refusal(old(self)@, user@, staff, token@) == Some(e)
                    &&& final(self)@ == old(self)@
                },
            },
    {
        if !staff {
            return Err(AuthError::NotStaff);
        }
        let mut others = select(&self.sessions, Keep::OfOthers, user);
        if position_of_token(&others, token.as_str()).is_some() {
            return Err(AuthError::TokenInUse);
        }
        let ghost kept = session_rows(others@);
        let ghost old_mfa = self@.mfa;
        let ghost record_secret = secret@;
        proof {
            lemma_filter_rows(self@.sessions, of_others(user@));
            lemma_find_mfa(old_mfa, user@);
        }
        let known = position_of_user(&self.mfa, user).is_some();
        let session = LoginSession {
            token,
            user_id: user.to_owned(),
            state: SessionState::Pending,
            created_at: now,
        };
        others.push(session);
        assert(session_rows(others@) =~= kept.push(session@));
        if !known {
            let record = MfaRecord {
                user_id: user.to_owned(),
                secret,
                verified: false,
                created_at: now,
            };
            let ghost before = self.mfa@;
            self.mfa.push(record);
            assert(mfa_rows(self.mfa@) =~= mfa_rows(before).push(record@));
        }
        self.sessions = others;
        proof {
            crate::session::lemma_login_leaves_one_pending_session(
                old(self)@,
                user@,
                session.token@,
                record_secret,
                now,
            );
        }
        Ok(())
    }

    /// Tells whether the user of a pending session still has to enroll a
    /// second factor: `true` where the user's record is unverified.
    pub fn enrollment_status(&self, token: &str) -> (result: Result<bool, AuthError>)
        ensures
            match result {
                Err(e) => status_refusal(self@, token@) == Some(e),
                Ok(enroll) => {
                    &&& status_refusal(self@, token@) is None
                    &&& find_session(self@.sessions, token@) matches Some(row)
                    &&& find_mfa(self@.mfa, row.user) matches Some(record)
                    &&& enroll == !record.verified
                },
            },
    {
        let i = match position_of_token(&self.sessions, token) {
            None => {
                return Err(AuthError::InvalidOrExpiredToken);
            },
            Some(i) => i,
        };
        if self.sessions[i].state != SessionState::Pending {
            return Err(AuthError::SessionAlreadyActive);
        }
        match position_of_user(&self.mfa, self.sessions[i].user_id.as_str()) {
            None => Err(AuthError::InvalidPanelData),
            Some(k) => Ok(!self.mfa[k].verified),
        }
    }

    /// Tells whether the user of a pending session still has to enroll a
    /// second factor, and if so stores `fresh_secret` as the user's secret.
    ///
    /// Returns `true` where the record was unverified and now holds the
    /// fresh secret, `false` where the record is verified and nothing
    /// changed.
    pub fn begin_enrollment(&mut self, token: &str, fresh_secret: &String) -> (result: Result<
        bool,
        AuthError,
    >)
        requires
            old(self).wf(),
        ensures
            final(self).wf(),
            final(self)@.sessions == old(self)@.sessions,
            match result {
                Err(e) => status_refusal(old(self)@, token@) == Some(e) && final(self)@ == old(
                    self,
                )@,
                Ok(enroll) => {
                    &&& status_refusal(old(self)@, token@) is None
                    &&& find_session(old(self)@.sessions, token@) matches Some(row)
                    &&& find_mfa(old(self)@.mfa, row.user) matches Some(record)
                    &&& enroll == !record.verified
                    &&& enroll ==> final(self)@.mfa == with_secret(
                        old(self)@.mfa,
                        row.user,
                        fresh_secret@,
                    )
                    &&& !enroll ==> final(self)@ == old(self)@
                },
            },
    {
        let i = match position_of_token(&self.sessions, token) {
            None => {
                return Err(AuthError::InvalidOrExpiredToken);
            },
            Some(i) => i,
        };
        if self.sessions[i].state != SessionState::Pending {
            return Err(AuthError::SessionAlreadyActive);
        }
        let k = match position_of_user(&self.mfa, self.sessions[i].user_id.as_str()) {
            None => {
                return Err(AuthError::InvalidPanelData);
            },
            Some(k) => k,
        };
        if self.mfa[k].verified {
            return Ok(false);
        }
        let updated = with_mark(
            &self.mfa,
            self.sessions[i].user_id.as_str(),
            Mark::Secret,
            fresh_secret,
        );
        self.mfa = updated;
        Ok(true)
    }

    /// The secret against which the code for a pending session is to be
    /// checked, or why the session cannot be activated.
    pub fn pending_secret(&self, token: &str) -> (result: Result<String, AuthError>)
        ensures
            match result {
                Err(e) => activation_refusal(self@, token@) == Some(e),
                Ok(secret) => {
                    &&& activation_refusal(self@, token@) is None
                    &&& find_session(self@.sessions, token@) matches Some(row)
                    &&& find_mfa(self@.mfa, row.user) matches Some(record)
                    &&& secret@ == record.secret
                },
            },
    {
        let i = match position_of_token(&self.sessions, token) {
            None => {
                return Err(AuthError::InvalidOrExpiredToken);
            },
            Some(i) => i,
        };
        if self.sessions[i].state != SessionState::Pending {
            return Err(AuthError::SessionAlreadyActive);
        }
        match position_of_user(&self.mfa, self.sessions[i].user_id.as_str()) {
            None => Err(AuthError::MfaNotSetup),
            Some(k) => Ok(self.mfa[k].secret.clone()),
        }
    }

    /// The secret against which the code for a reset is to be checked, or
    /// why the second factor cannot be reset.
    pub fn active_secret(&self, token: &str) -> (result: Result<String, AuthError>)
        ensures
            match result {
                Err(e) => reset_refusal(self@, token@) == Some(e),
                Ok(secret) => {
                    &&& reset_refusal(self@, token@) is None
                    &&& find_session(self@.sessions, token@) matches Some(row)
                    &&& find_mfa(self@.mfa, row.user) matches Some(record)
                    &&& secret@ == record.secret
                },
            },
    {
        let i = match position_of_token(&self.sessions, token) {
            None => {
                return Err(AuthError::InvalidOrExpiredToken);
            },
            Some(i) => i,
        };
        if self.sessions[i].state != SessionState::Active {
            return Err(AuthError::InvalidOrExpiredToken);
        }
        match position_of_user(&self.mfa, self.sessions[i].user_id.as_str()) {
            None => Err(AuthError::MfaNotSetup),
            Some(k) => Ok(self.mfa[k].secret.clone()),
        }
    }

    /// Activates a pending session if the code check came out as a match.
    ///
    /// On success the session is active and the user's record verified. A
    /// refused activation changes nothing, so it can be tried again.
    pub fn complete_activation(&mut self, token: &str, check: OtpCheck) -> (result: Result<
        (),
        AuthError,
    >)
        requires
            old(self).wf(),
        ensures
            final(self).wf(),
            match result {
                Ok(()) => {
                    &&& activation_refusal(old(self)@, token@) is None
                    &&& check == OtpCheck::Match
                    &&& find_session(old(self)@.sessions, token@) matches Some(row)
                    &&& final(self)@ == after_activation(old(self)@, token@, row.user)
                    &&& authorized_session(final(self)@, token@, true) matches Some(active)
                    &&& active.user == row.user && active.state == SessionState::Active
                },
                Err(e) => {
                    &&& final(self)@ == old(self)@
                    &&& match activation_refusal(old(self)@, token@) {
                        Some(refusal) => e == refusal,
                        None => otp_refusal(check) == Some(e),
                    }
                },
            },
    {
        let i = match position_of_token(&self.sessions, token) {
            None => {
                return Err(AuthError::InvalidOrExpiredToken);
            },
            Some(i) => i,
        };
        if self.sessions[i].state != SessionState::Pending {
            return Err(AuthError::SessionAlreadyActive);
        }
        if position_of_user(&self.mfa, self.sessions[i].user_id.as_str()).is_none() {
            return Err(AuthError::MfaNotSetup);
        }
        match check {
            OtpCheck::Match => {},
            OtpCheck::Mismatch => {
                return Err(AuthError::MfaInvalidCode);
            },
            OtpCheck::SecretCorrupt => {
                return Err(AuthError::MfaSecretCorrupt);
            },
            OtpCheck::Unavailable => {
                return Err(AuthError::OtpUnavailable);
            },
        }
        let sessions = with_session_state(&self.sessions, token, SessionState::Active);
        let records = with_mark(
            &self.mfa,
            self.sessions[i].user_id.as_str(),
            Mark::Verified,
            &String::new(),
        );
        self.sessions = sessions;
        self.mfa = records;
        proof {
            crate::session::lemma_activation_makes_active(old(self)@, token@);
        }
        Ok(())
    }

    /// Resets the second factor of the user of an active session if the
    /// code check came out as a match.
    ///
    /// On success the user's record is unverified and every session of the
    /// user is deleted. A refused reset changes nothing.
    pub fn complete_reset(&mut self, token: &str, check: OtpCheck) -> (result: Result<
        (),
        AuthError,
    >)
        requires
            old(self).wf(),
        ensures
            final(self).wf(),
            match result {
                Ok(()) => {
                    &&& reset_refusal(old(self)@, token@) is None
                    &&& check == OtpCheck::Match
                    &&& find_session(old(self)@.sessions, token@) matches Some(row)
                    &&& final(self)@ == after_reset(old(self)@, row.user)
                },
                Err(e) => {
                    &&& final(self)@ == old(self)@
                    &&& match reset_refusal(old(self)@, token@) {
                        Some(refusal) => e == refusal,
                        None => otp_refusal(check) == Some(e),
                    }
                },
            },
    {
        let i = match position_of_token(&self.sessions, token) {
            None => {
                return Err(AuthError::InvalidOrExpiredToken);
            },
            Some(i) => i,
        };
        if self.sessions[i].state != SessionState::Active {
            return Err(AuthError::InvalidOrExpiredToken);
        }
        if position_of_user(&self.mfa, self.sessions[i].user_id.as_str()).is_none() {
            return Err(AuthError::MfaNotSetup);
        }
        match check {
            OtpCheck::Match => {},
            OtpCheck::Mismatch => {
                return Err(AuthError::MfaInvalidCode);
            },
            OtpCheck::SecretCorrupt => {
                return Err(AuthError::MfaSecretCorrupt);
            },
            OtpCheck::Unavailable => {
                return Err(AuthError::OtpUnavailable);
            },
        }
        let user = self.sessions[i].user_id.clone();
        let records = with_mark(&self.mfa, user.as_str(), Mark::Unverified, &String::new());
        let sessions = select(&self.sessions, Keep::OfOthers, user.as_str());
        proof {
            lemma_filter_rows(self@.sessions, of_others(user@));
        }
        self.sessions = sessions;
        self.mfa = records;
        Ok(())
    }

    /// Deletes the session with the given token and returns how many
    /// sessions were deleted. A token without a session is no error.
    pub fn logout(&mut self, token: &str) -> (deleted: usize)
        requires
            old(self).wf(),
        ensures
            final(self).wf(),
            final(self)@ == after_logout(old(self)@, token@),
            deleted == old(self)@.sessions.len() - final(self)@.sessions.len(),
    {
        let before = self.sessions.len();
        let sessions = select(&self.sessions, Keep::OfOtherTokens, token);
        proof {
            lemma_filter_rows(self@.sessions, of_other_tokens(token@));
            self@.sessions.lemma_filter_len(of_other_tokens(token@));
        }
        self.sessions = sessions;
        before - self.sessions.len()
    }
}

} // verus!
