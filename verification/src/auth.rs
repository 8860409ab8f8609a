//! The login protocol: from the login URL to an active session and back.
//!
//! A login creates a pending session. The user then enrolls a second factor
//! if none is verified yet, and activates the session with a one-time code.
//! A reset of the second factor deletes every session of the user. What
//! each step does to the store is stated over the model of the protocol.

use crate::capability::{capabilities, capability_set, Capability, UserPerms};
use crate::crypto::{
    all_alphanumeric, base32_decode, base32_decoding, base32_encode, gen_random, hotp, hotp_code,
    otp_uri, otp_uri_text, qr_svg, qr_svg_text, random_in_range, random_secret, QrLevel,
};
use crate::session::{
    activation_refusal, after_activation, after_login, after_reset, authorized_session, find_mfa,
    find_session, login_refusal, otp_refusal, pending_row, reset_refusal, sessions_of,
    status_refusal, with_secret, without_user, AuthError, OtpCheck, SessionRow, SessionState,
    StoreModel,
};
use crate::store::SessionStore;
use crate::text::{joined, contains_text, lists_text, str_eq};
use vstd::prelude::*;

verus! {

/// The protocol version that the panel speaks.
pub const PROTOCOL_VERSION: u16 = 2;

/// Shortest login token, in characters.
pub const TOKEN_MIN_LENGTH: usize = 4196;

/// One more than the longest login token, in characters.
pub const TOKEN_MAX_LENGTH: usize = 6000;

/// Size of a fresh second-factor secret, in bytes.
pub const SECRET_SIZE: usize = 160;

/// Seconds per time step of the one-time password.
pub const TIME_STEP: u64 = 30;

/// What the OAuth2 provider is told about this panel.
pub struct OauthConfig {
    pub client_id: String,
    pub client_secret: String,
    /// The redirect URLs that a login may name.
    pub redirect_urls: Vec<String>,
}

/// What a user needs to enroll a second factor.
pub struct MfaLoginSecret {
    /// The provisioning URI as a QR code, an SVG image.
    pub qr_code: String,
    /// The provisioning URI.
    pub otp_url: String,
    /// The shared secret, in base32.
    pub secret: String,
}

/// The answer to a status check: what to enroll, or nothing where a second
/// factor is verified already and the session can be activated right away.
pub struct MfaLogin {
    pub info: Option<MfaLoginSecret>,
}

/// The text of the login URL for a client and a redirect URL.
pub open spec fn login_url_text(client_id: Seq<char>, redirect_url: Seq<char>) -> Seq<char> {
    "https://discord.com/api/oauth2/authorize?client_id="@ + client_id + "&redirect_uri="@
        + redirect_url + "&response_type=code&scope=identify"@
}

/// Why no login URL is given, if none is.
pub open spec fn login_url_refusal(allowed: Seq<String>, version: u16, redirect_url: Seq<char>) -> Option<
    AuthError,
> {
    if version != PROTOCOL_VERSION {
        Some(AuthError::InvalidVersion)
    } else if !lists_text(allowed, redirect_url) {
        Some(AuthError::InvalidRedirect)
    } else {
        None
    }
}

/// The kind of one-time password that is enrolled.
pub open spec fn otp_kind() -> Seq<char> {
    "totp"@
}

/// The label under which an authenticator lists the account.
pub open spec fn otp_label() -> Seq<char> {
    "Infinity Bot List:staff@infinitybots.gg"@
}

/// The issuer that an authenticator shows.
pub open spec fn otp_issuer() -> Seq<char> {
    "Infinity Bot List"@
}

/// Whether `info` is the enrollment payload for `secret`.
pub open spec fn enrolls(info: MfaLoginSecret, secret: Seq<char>) -> bool {
    &&& info.secret@ == secret
    &&& otp_uri_text(otp_kind(), secret, otp_label(), otp_issuer()) == Some(info.otp_url@)
    &&& qr_svg_text(info.otp_url@, QrLevel::Medium) == Some(info.qr_code@)
}

/// Whether an enrollment payload can be rendered for `secret`: the
/// provisioning URI can be made, and it fits a QR code.
pub open spec fn renders(secret: Seq<char>) -> bool {
    otp_uri_text(otp_kind(), secret, otp_label(), otp_issuer()) matches Some(uri) && qr_svg_text(
        uri,
        QrLevel::Medium,
    ) is Some
}

/// Whether the session with the given token is pending and belongs to a
/// user whose second factor is verified.
pub open spec fn enrolled_already(store: StoreModel, token: Seq<char>) -> bool {
    status_refusal(store, token) is None && find_mfa(
        store.mfa,
        find_session(store.sessions, token)->0.user,
    )->0.verified
}

/// Whether `secret` is a fresh secret: base32 for [`SECRET_SIZE`] bytes.
pub open spec fn is_fresh_secret(secret: Seq<char>) -> bool {
    base32_decoding(secret) matches Some(bytes) && bytes.len() == SECRET_SIZE
}

/// The secret of the last record, which is the fresh one where a login has
/// added a record.
pub open spec fn last_secret(store: StoreModel) -> Seq<char> {
    if store.mfa.len() > 0 {
        store.mfa.last().secret
    } else {
        Seq::empty()
    }
}

/// What a code check comes to for a stored secret, a code that was computed
/// from it or could not be, and the code that was handed in.
pub open spec fn otp_check(decoded: Option<Seq<u8>>, computed: Option<Seq<char>>, otp: Seq<char>) -> OtpCheck {
    if decoded is None {
        OtpCheck::SecretCorrupt
    } else {
        match computed {
            None => OtpCheck::Unavailable,
            Some(code) => if code == otp {
                OtpCheck::Match
            } else {
                OtpCheck::Mismatch
            },
        }
    }
}

/// The time step that a time in seconds falls into.
pub open spec fn time_step(now: u64) -> u64 {
    now / TIME_STEP
}

impl OauthConfig {
    /// Whether a login may name `redirect_url`.
    pub fn allows_redirect(&self, redirect_url: &str) -> (allowed: bool)
        ensures
            allowed == lists_text(self.redirect_urls@, redirect_url@),
    {
        contains_text(&self.redirect_urls, redirect_url)
    }

    /// Builds the URL at which the user authorizes the panel.
    ///
    /// The version must be [`PROTOCOL_VERSION`] and the redirect URL on the
    /// allow-list.
    pub fn get_login_url(&self, version: u16, redirect_url: &str) -> (result: Result<
        String,
        AuthError,
    >)
        ensures
            match result {
                Ok(url) => login_url_refusal(self.redirect_urls@, version, redirect_url@) is None
                    && url@ == login_url_text(self.client_id@, redirect_url@),
                Err(e) => login_url_refusal(self.redirect_urls@, version, redirect_url@) == Some(
                    e,
                ),
            },
    {
        if version != PROTOCOL_VERSION {
            return Err(AuthError::InvalidVersion);
        }
        if !self.allows_redirect(redirect_url) {
            return Err(AuthError::InvalidRedirect);
        }
        let with_client = joined(
            "https://discord.com/api/oauth2/authorize?client_id=",
            self.client_id.as_str(),
        );
        let with_key = joined(with_client.as_str(), "&redirect_uri=");
        let with_redirect = joined(with_key.as_str(), redirect_url);
        Ok(joined(with_redirect.as_str(), "&response_type=code&scope=identify"))
    }

    /// Whether a login with this redirect URL may go to the provider.
    pub fn check_redirect(&self, redirect_url: &str) -> (result: Result<(), AuthError>)
        ensures
            result is Ok <==> lists_text(self.redirect_urls@, redirect_url@),
            result matches Err(e) ==> e == AuthError::InvalidRedirect,
    {
        if self.allows_redirect(redirect_url) {
            Ok(())
        } else {
            Err(AuthError::InvalidRedirect)
        }
    }
}

/// Compares the code that was handed in with the one that was computed.
pub fn compare_otp(otp: &str, computed: Option<String>) -> (check: OtpCheck)
    ensures
        check == match computed {
            None => OtpCheck::Unavailable,
            Some(code) => if code@ == otp@ {
                OtpCheck::Match
            } else {
                OtpCheck::Mismatch
            },
        },
{
    match computed {
        None => OtpCheck::Unavailable,
        Some(code) => if str_eq(code.as_str(), otp) {
            OtpCheck::Match
        } else {
            OtpCheck::Mismatch
        },
    }
}

/// The one-time code of a base32 secret at the time `now`, in seconds
/// since the epoch: the code of the time step that `now` falls into.
pub fn current_otp(secret: &str, now: u64) -> (code: Option<String>)
    ensures
        match code {
            Some(text) => expected_code(secret@, now) == Some(text@),
            None => expected_code(secret@, now) is None,
        },
{
    match base32_decode(secret) {
        None => None,
        Some(bytes) => hotp(bytes.as_slice(), now / TIME_STEP),
    }
}

/// Checks a one-time code against a base32 secret at the time `now`, with
/// no tolerance: only the code of the current time step matches.
pub fn check_otp(secret: &str, otp: &str, now: u64) -> (check: OtpCheck)
    ensures
        check == otp_verdict(secret@, otp@, now),
{
    match base32_decode(secret) {
        None => OtpCheck::SecretCorrupt,
        Some(bytes) => compare_otp(otp, hotp(bytes.as_slice(), now / TIME_STEP)),
    }
}

/// A code stays good for its whole time step and for no other: the code
/// that a secret gives at one time matches at every time of the same step,
/// and a code that matches is the code of the step in which it is checked.
pub proof fn lemma_code_holds_for_its_step(
    secret: Seq<char>,
    code: Seq<char>,
    issued: u64,
    checked: u64,
)
    requires
        time_step(issued) == time_step(checked),
    ensures
        expected_code(secret, issued) == Some(code) ==> otp_verdict(secret, code, checked)
            == OtpCheck::Match,
        otp_verdict(secret, code, checked) == OtpCheck::Match <==> expected_code(
            secret,
            checked,
        ) == Some(code),
        issued / 30 == checked / 30,
{
}

/// Puts an enrollment payload together from the secret, its provisioning
/// URI and the QR code of the URI, where both could be made.
pub fn enrollment_payload(secret: String, uri: Option<String>, qr: Option<String>) -> (result: Result<
    MfaLoginSecret,
    AuthError,
>)
    ensures
        match result {
            Ok(info) => uri == Some(info.otp_url) && qr == Some(info.qr_code) && info.secret
                == secret,
            Err(e) => e == AuthError::EnrollmentFailed && (uri is None || qr is None),
        },
{
    match (uri, qr) {
        (Some(otp_url), Some(qr_code)) => Ok(MfaLoginSecret { qr_code, otp_url, secret }),
        _ => Err(AuthError::EnrollmentFailed),
    }
}

/// Renders the enrollment payload for a base32 secret. The provisioning
/// URI can always be made; the payload fails where the URI does not fit a
/// QR code, and for no other reason.
pub fn render_enrollment(secret: String) -> (result: Result<MfaLoginSecret, AuthError>)
    ensures
        result is Ok <==> renders(secret@),
        otp_uri_text(otp_kind(), secret@, otp_label(), otp_issuer()) is Some,
        match result {
            Ok(info) => enrolls(info, secret@),
            Err(e) => e == AuthError::EnrollmentFailed,
        },
{
    let uri = otp_uri(
        "totp",
        secret.as_str(),
        "Infinity Bot List:staff@infinitybots.gg",
        "Infinity Bot List",
    );
    let qr = match &uri {
        Some(text) => qr_svg(text.as_str(), QrLevel::Medium),
        None => None,
    };
    enrollment_payload(secret, uri, qr)
}

/// A fresh second-factor secret, in base32.
pub fn fresh_secret() -> (secret: String)
    ensures
        is_fresh_secret(secret@),
{
    let bytes = random_secret(SECRET_SIZE);
    base32_encode(bytes.as_slice())
}

/// A fresh login token: between [`TOKEN_MIN_LENGTH`] and
/// [`TOKEN_MAX_LENGTH`] random letters and digits.
pub fn fresh_token() -> (token: String)
    ensures
        is_login_token(token@),
{
    let len = random_in_range(TOKEN_MIN_LENGTH, TOKEN_MAX_LENGTH);
    gen_random(len)
}

/// Whether `token` has the length and the characters of a login token.
pub open spec fn is_login_token(token: Seq<char>) -> bool {
    TOKEN_MIN_LENGTH <= token.len() < TOKEN_MAX_LENGTH && all_alphanumeric(token)
}

/// Whether one of the sessions carries a token that a login could draw.
pub open spec fn holds_login_token(sessions: Seq<SessionRow>) -> bool {
    exists|i: int| 0 <= i < sessions.len() && is_login_token((#[trigger] sessions[i]).token)
}

/// Logs in the user that the provider has identified, and returns the token
/// of the new pending session.
///
/// Somebody who is not staff is refused and nothing changes. Otherwise all
/// earlier sessions of the user are deleted, a second-factor record with a
/// fresh secret is created if the user has none, and one pending session is
/// added. A staff login fails only where the token drawn is the token of a
/// session of somebody else, so it succeeds wherever no other user's
/// session carries a token that a login could draw.
pub fn login(store: &mut SessionStore, user: &str, staff: bool, now: u64) -> (result: Result<
    String,
    AuthError,
>)
    requires
        old(store).wf(),
    ensures
        final(store).wf(),
        !staff ==> result is Err,
        staff && !holds_login_token(without_user(old(store)@.sessions, user@)) ==> result is Ok,
        staff && without_user(old(store)@.sessions, user@).len() == 0 ==> result is Ok,
        match result {
            Ok(token) => {
                &&& staff
                &&& is_login_token(token@)
                &&& login_refusal(old(store)@, user@, true, token@) is None
                &&& final(store)@ == after_login(
                    old(store)@,
                    user@,
                    token@,
                    last_secret(final(store)@),
                    now,
                )
                &&& sessions_of(final(store)@.sessions, user@) == seq![
                    pending_row(token@, user@, now),
                ]
            },
            Err(e) => {
                &&& final(store)@ == old(store)@
                &&& !staff ==> e == AuthError::NotStaff
                &&& staff ==> e == AuthError::TokenInUse && holds_login_token(
                    without_user(old(store)@.sessions, user@),
                )
            },
        },
{
    if !staff {
        return Err(AuthError::NotStaff);
    }
    let token = fresh_token();
    let secret = fresh_secret();
    let issued = token.clone();
    let ghost others = without_user(store@.sessions, user@);
    match store.login_with(user, staff, token, secret, now) {
        Ok(()) => Ok(issued),
        Err(e) => {
            proof {
                crate::session::lemma_find_session(others, issued@);
                let row = find_session(others, issued@)->0;
                let i = choose|i: int| 0 <= i < others.len() && others[i] == row;
                assert(is_login_token(others[i].token));
            }
            Err(e)
        },
    }
}

/// Tells a user with a pending session what to enroll.
///
/// Where the user's second factor is not verified, a fresh secret is stored
/// for the user and comes back with its provisioning URI and QR code. Where
/// it is verified, the answer is empty and nothing changes.
pub fn mfa_check_status(store: &mut SessionStore, token: &str) -> (result: Result<
    MfaLogin,
    AuthError,
>)
    requires
        old(store).wf(),
    ensures
        final(store).wf(),
        final(store)@.sessions == old(store)@.sessions,
        status_refusal(old(store)@, token@) is Some ==> result is Err,
        enrolled_already(old(store)@, token@) ==> (result matches Ok(login) && login.info is None),
        match result {
            Err(e) => {
                &&& final(store)@ == old(store)@
                &&& match status_refusal(old(store)@, token@) {
                    Some(refusal) => e == refusal,
                    None => {
                        &&& e == AuthError::EnrollmentFailed
                        &&& !enrolled_already(old(store)@, token@)
                        &&& exists|secret: Seq<char>|
                            #[trigger] is_fresh_secret(secret) && !renders(secret)
                    },
                }
            },
            Ok(login) => {
                &&& status_refusal(old(store)@, token@) is None
                &&& find_session(old(store)@.sessions, token@) matches Some(row)
                &&& find_mfa(old(store)@.mfa, row.user) matches Some(record)
                &&& match login.info {
                    None => record.verified && final(store)@ == old(store)@,
                    Some(info) => {
                        &&& !record.verified
                        &&& enrolls(info, info.secret@)
                        &&& renders(info.secret@)
                        &&& is_fresh_secret(info.secret@)
                        &&& final(store)@.mfa == with_secret(
                            old(store)@.mfa,
                            row.user,
                            info.secret@,
                        )
                    },
                }
            },
        },
{
    let enroll = match store.enrollment_status(token) {
        Err(e) => {
            return Err(e);
        },
        Ok(enroll) => enroll,
    };
    if !enroll {
        return Ok(MfaLogin { info: None });
    }
    let secret = fresh_secret();
    let ghost drawn = secret@;
    let info = match render_enrollment(secret) {
        Err(e) => {
            assert(is_fresh_secret(drawn) && !renders(drawn));
            return Err(e);
        },
        Ok(info) => info,
    };
    match store.begin_enrollment(token, &info.secret) {
        Err(e) => Err(e),
        Ok(_) => Ok(MfaLogin { info: Some(info) }),
    }
}

/// Activates a pending session with a one-time code.
///
/// The code must be the one that the user's secret gives for the time step
/// of `now`. On success the session is active and the second factor
/// verified; a refused attempt changes nothing and may be repeated.
pub fn activate_session(store: &mut SessionStore, token: &str, otp: &str, now: u64) -> (result:
    Result<(), AuthError>)
    requires
        old(store).wf(),
    ensures
        final(store).wf(),
        activation_refusal(old(store)@, token@) is Some ==> result is Err,
        result is Ok <==> activation_failure(old(store)@, token@, otp@, now) is None,
        result matches Err(e) ==> activation_failure(old(store)@, token@, otp@, now) == Some(e),
        match result {
            Ok(()) => {
                &&& activation_refusal(old(store)@, token@) is None
                &&& find_session(old(store)@.sessions, token@) matches Some(row)
                &&& find_mfa(old(store)@.mfa, row.user) matches Some(record)
                &&& otp_verdict(record.secret, otp@, now) == OtpCheck::Match
                &&& expected_code(record.secret, now) == Some(otp@)
                &&& final(store)@ == after_activation(old(store)@, token@, row.user)
                &&& authorized_session(final(store)@, token@, true) matches Some(active)
                &&& active.user == row.user && active.state == SessionState::Active
            },
            Err(e) => {
                &&& final(store)@ == old(store)@
                &&& match activation_refusal(old(store)@, token@) {
                    Some(refusal) => e == refusal,
                    None => {
                        &&& find_session(old(store)@.sessions, token@) matches Some(row)
                        &&& find_mfa(old(store)@.mfa, row.user) matches Some(record)
                        &&& otp_refusal(otp_verdict(record.secret, otp@, now)) == Some(e)
                    },
                }
            },
        },
{
    let secret = match store.pending_secret(token) {
        Err(e) => {
            return Err(e);
        },
        Ok(secret) => secret,
    };
    let check = check_otp(secret.as_str(), otp, now);
    store.complete_activation(token, check)
}

/// Resets the second factor of the user of an active session.
///
/// The code must be the current one. On success the user's second factor is
/// unverified and every session of the user is deleted, so the user has to
/// log in and enroll again. A refused attempt changes nothing.
pub fn reset_mfa(store: &mut SessionStore, token: &str, otp: &str, now: u64) -> (result: Result<
    (),
    AuthError,
>)
    requires
        old(store).wf(),
    ensures
        final(store).wf(),
        reset_refusal(old(store)@, token@) is Some ==> result is Err,
        result is Ok <==> reset_failure(old(store)@, token@, otp@, now) is None,
        result matches Err(e) ==> reset_failure(old(store)@, token@, otp@, now) == Some(e),
        match result {
            Ok(()) => {
                &&& reset_refusal(old(store)@, token@) is None
                &&& find_session(old(store)@.sessions, token@) matches Some(row)
                &&& find_mfa(old(store)@.mfa, row.user) matches Some(record)
                &&& otp_verdict(record.secret, otp@, now) == OtpCheck::Match
                &&& expected_code(record.secret, now) == Some(otp@)
                &&& final(store)@ == after_reset(old(store)@, row.user)
                &&& sessions_of(final(store)@.sessions, row.user).len() == 0
                &&& authorized_session(final(store)@, token@, true) is None
                &&& authorized_session(final(store)@, token@, false) is None
            },
            Err(e) => {
                &&& final(store)@ == old(store)@
                &&& match reset_refusal(old(store)@, token@) {
                    Some(refusal) => e == refusal,
                    None => {
                        &&& find_session(old(store)@.sessions, token@) matches Some(row)
                        &&& find_mfa(old(store)@.mfa, row.user) matches Some(record)
                        &&& otp_refusal(otp_verdict(record.secret, otp@, now)) == Some(e)
                    },
                }
            },
        },
{
    let secret = match store.active_secret(token) {
        Err(e) => {
            return Err(e);
        },
        Ok(secret) => secret,
    };
    let check = check_otp(secret.as_str(), otp, now);
    let ghost before = store@;
    let result = store.complete_reset(token, check);
    proof {
        if result is Ok {
            let row = find_session(before.sessions, token@)->0;
            crate::session::lemma_reset_revokes_sessions(before, row.user);
        }
    }
    result
}

/// The user behind a token and the capabilities that the user's role flags
/// grant. Only an active session counts, and `user_id` must be the user of
/// the session: it says whose flags were handed in.
pub fn get_capabilities(store: &SessionStore, token: &str, user_id: &str, perms: &UserPerms) -> (result:
    Result<Vec<Capability>, AuthError>)
    ensures
        match result {
            Ok(caps) => {
                &&& authorized_session(store@, token@, true) matches Some(row)
                &&& row.user == user_id@
                &&& caps@.no_duplicates()
                &&& caps@.to_set() == capability_set(perms.role_flags())
            },
            Err(e) => match authorized_session(store@, token@, true) {
                None => e == AuthError::InvalidOrExpiredToken,
                Some(row) => e == AuthError::UserMismatch && row.user != user_id@,
            },
        },
{
    let data = match store.check_auth(token) {
        Err(e) => {
            return Err(e);
        },
        Ok(data) => data,
    };
    if !str_eq(data.user_id.as_str(), user_id) {
        return Err(AuthError::UserMismatch);
    }
    Ok(capabilities(perms.role_flags()))
}

/// The code that a base32 secret gives at the time `now`; `None` where the
/// secret is not well-formed base32 or no code can be computed from it.
pub open spec fn expected_code(secret: Seq<char>, now: u64) -> Option<Seq<char>> {
    match base32_decoding(secret) {
        None => None,
        Some(bytes) => hotp_code(bytes, time_step(now)),
    }
}

/// The secret of the user whose session has the given token, where the
/// session and the user's record exist.
pub open spec fn session_secret(store: StoreModel, token: Seq<char>) -> Seq<char> {
    find_mfa(store.mfa, find_session(store.sessions, token)->0.user)->0.secret
}

/// Why an activation with the code `otp` at the time `now` fails, if it
/// does: what stands against it whatever the code is, or else what the
/// check of the code against the user's secret comes to.
pub open spec fn activation_failure(store: StoreModel, token: Seq<char>, otp: Seq<char>, now: u64) -> Option<
    AuthError,
> {
    match activation_refusal(store, token) {
        Some(refusal) => Some(refusal),
        None => otp_refusal(otp_verdict(session_secret(store, token), otp, now)),
    }
}

/// Why a reset with the code `otp` at the time `now` fails, if it does.
pub open spec fn reset_failure(store: StoreModel, token: Seq<char>, otp: Seq<char>, now: u64) -> Option<
    AuthError,
> {
    match reset_refusal(store, token) {
        Some(refusal) => Some(refusal),
        None => otp_refusal(otp_verdict(session_secret(store, token), otp, now)),
    }
}

/// What checking the code `otp` against a base32 secret at the time `now`
/// comes to.
pub open spec fn otp_verdict(secret: Seq<char>, otp: Seq<char>, now: u64) -> OtpCheck {
    otp_check(base32_decoding(secret), expected_code(secret, now), otp)
}

} // verus!
