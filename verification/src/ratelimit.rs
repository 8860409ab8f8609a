//! The checks in front of the staff RPC endpoint: the caller's API token,
//! the staff flag, a limit on requests per user, and the tier of the method.
//!
//! The request counters live in a time-bounded cache that forgets a user
//! after [`RATE_LIMIT_TTL_SECS`]. A counter may vanish at any time, so the
//! contracts say what holds of the counters that are still stored.

use crate::capability::{reaches_tier, UserPerms};
use crate::rpc::{method_tier, RpcMethod};
use crate::text::{ends_with, has_suffix, str_eq};
use vstd::prelude::*;

verus! {

/// Most requests that a user may make before the counter is forgotten.
pub const RATE_LIMIT_MAX: u64 = 3;

/// Seconds after which a user's counter is forgotten.
pub const RATE_LIMIT_TTL_SECS: u64 = 420;

/// The counters that a rate-limit cache stores, expired ones that it has
/// not yet dropped included.
pub uninterp spec fn stored_counts(cache: moka::sync::Cache<String, u64>) -> Map<Seq<char>, u64>;

/// The time to live, in seconds, of a rate-limit cache that was built with
/// one and without a limit on its size; `None` for a cache built otherwise.
pub uninterp spec fn count_lifetime(cache: moka::sync::Cache<String, u64>) -> Option<u64>;

/// Whether a cache keeps what is put into it until its time to live has
/// run out: it was built with a time to live of at least a second and
/// without a limit on its size.
pub open spec fn keeps_counts(cache: moka::sync::Cache<String, u64>) -> bool {
    count_lifetime(cache) matches Some(secs) && secs > 0
}

/// The cache content without any counter.
pub open spec fn no_counts() -> Map<Seq<char>, u64> {
    Map::empty()
}

/// A user record as far as the endpoint needs it.
pub struct UserRecord {
    pub user_id: String,
    pub api_token: String,
    pub perms: UserPerms,
}

/// Why a request to the endpoint is turned away.
#[derive(Clone, Copy, Debug, PartialEq, Eq, Structural)]
pub enum WebRpcError {
    /// No user has the given id.
    UserNotFound,
    /// The token is not the user's API token.
    InvalidToken,
    /// The user is not staff.
    NotStaff,
    /// The user has made too many requests.
    RateLimited,
    /// The method needs a higher tier than the user has.
    PermissionDenied,
}

/// Builds a `moka::sync::Cache` with `CacheBuilder::time_to_live` and
/// `CacheBuilder::build`, and with no limit on its size. The contract
/// claims that the new cache stores nothing and has the time to live that
/// was asked for; the bound keeps the duration under the builder's limit.
#[verifier::external_body]
fn counts_with_ttl(ttl_secs: u64) -> (cache: moka::sync::Cache<String, u64>)
    requires
        ttl_secs <= 31_536_000,
    ensures
        stored_counts(cache) == no_counts(),
        count_lifetime(cache) == Some(ttl_secs),
{
    moka::sync::Cache::builder().time_to_live(std::time::Duration::from_secs(ttl_secs)).build()
}

/// Calls `Cache::get` of `moka`. The contract claims that a counter that
/// comes back is the stored one, that afterwards the cache stores nothing
/// but what it stored before, and that its time to live is as it was; a
/// stored counter may not come back, for it may have expired.
#[verifier::external_body]
fn counts_get(cache: &mut moka::sync::Cache<String, u64>, key: &String) -> (count: Option<u64>)
    ensures
        count matches Some(n) ==> stored_counts(*old(cache)).contains_key(key@) && stored_counts(
            *old(cache),
        )[key@] == n,
        stored_counts(*final(cache)).submap_of(stored_counts(*old(cache))),
        count_lifetime(*final(cache)) == count_lifetime(*old(cache)),
{
    cache.get(key)
}

/// Calls `Cache::insert` of `moka`. The contract claims that afterwards the
/// cache stores nothing but what it stored before and the new counter, and
/// that its time to live is as it was. For a cache that keeps what is put
/// into it, it claims that the counter is in the cache's table when the
/// call returns: the call puts it there with a fresh timestamp, and drops
/// on its way only entries whose time to live has run out.
#[verifier::external_body]
fn counts_insert(cache: &mut moka::sync::Cache<String, u64>, key: String, count: u64)
    ensures
        stored_counts(*final(cache)).submap_of(stored_counts(*old(cache)).insert(key@, count)),
        keeps_counts(*old(cache)) ==> stored_counts(*final(cache)).contains_key(key@),
        count_lifetime(*final(cache)) == count_lifetime(*old(cache)),
{
    cache.insert(key, count)
}

/// The counter after one more request, if the request is within the limit.
pub open spec fn counted(previous: Option<u64>) -> Option<u64> {
    match previous {
        None => Some(1u64),
        Some(n) => if n >= RATE_LIMIT_MAX {
            None
        } else {
            Some((n + 1) as u64)
        },
    }
}

/// Counts one more request on top of the counter found, and refuses it if
/// that is over the limit.
pub fn next_count(previous: Option<u64>) -> (result: Result<u64, WebRpcError>)
    ensures
        match result {
            Ok(n) => counted(previous) == Some(n) && 1 <= n <= RATE_LIMIT_MAX,
            Err(e) => e == WebRpcError::RateLimited && counted(previous) is None,
        },
{
    match previous {
        None => Ok(1),
        Some(n) => if n >= RATE_LIMIT_MAX {
            Err(WebRpcError::RateLimited)
        } else {
            Ok(n + 1)
        },
    }
}

/// The request counters, one per user.
pub struct RateLimiter {
    counts: moka::sync::Cache<String, u64>,
}

impl RateLimiter {
    /// The counters that are stored.
    pub closed spec fn view(&self) -> Map<Seq<char>, u64> {
        stored_counts(self.counts)
    }

    /// The time to live, in seconds, that the counters were built with.
    pub closed spec fn lifetime(&self) -> Option<u64> {
        count_lifetime(self.counts)
    }

    /// Whether the limiter keeps a counter until its time to live has run
    /// out. That is so for every limiter that `new` has built.
    pub open spec fn keeps(&self) -> bool {
        self.lifetime() matches Some(secs) && secs > 0
    }

    /// A limiter without counters, which forgets a user after
    /// [`RATE_LIMIT_TTL_SECS`].
    pub fn new() -> (limiter: RateLimiter)
        ensures
            limiter@ == no_counts(),
            limiter.lifetime() == Some(RATE_LIMIT_TTL_SECS),
            limiter.keeps(),
    {
        RateLimiter { counts: counts_with_ttl(RATE_LIMIT_TTL_SECS) }
    }

    /// Counts a request of `user` and says whether it is within the limit.
    ///
    /// A request over the limit leaves the counter as it is, so the user
    /// stays locked out until the counter is forgotten.
    pub fn hit(&mut self, user: &str) -> (result: Result<u64, WebRpcError>)
        ensures
            final(self).lifetime() == old(self).lifetime(),
            !old(self)@.contains_key(user@) ==> (result matches Ok(n) && n == 1),
            old(self).keeps() && result is Ok ==> final(self)@.contains_key(user@),
            match result {
                Ok(n) => 1 <= n <= RATE_LIMIT_MAX && final(self)@.submap_of(
                    old(self)@.insert(user@, n),
                ) && (n > 1 ==> old(self)@.contains_key(user@) && old(self)@[user@] == n - 1)
                    && (final(self)@.contains_key(user@) ==> final(self)@[user@] == n),
                Err(e) => e == WebRpcError::RateLimited && old(self)@.contains_key(user@) && old(
                    self,
                )@[user@] >= RATE_LIMIT_MAX && final(self)@.submap_of(old(self)@),
            },
    {
        let key: String = user.to_owned();
        let found = counts_get(&mut self.counts, &key);
        let ghost middle = self@;
        match next_count(found) {
            Err(e) => Err(e),
            Ok(n) => {
                counts_insert(&mut self.counts, key, n);
                proof {
                    let before = old(self)@;
                    assert forall|k: Seq<char>| #[trigger]
                        self@.dom().contains(k) implies before.insert(user@, n).dom().contains(
                        k,
                    ) && self@[k] == before.insert(user@, n)[k] by {
                        assert(middle.insert(user@, n).dom().contains(k));
                        if k != user@ {
                            assert(middle.dom().contains(k));
                            assert(before.dom().contains(k));
                        }
                    }
                    if self@.contains_key(user@) {
                        assert(self@.dom().contains(user@));
                        assert(middle.insert(user@, n).dom().contains(user@));
                    }
                }
                Ok(n)
            },
        }
    }
}

/// Whether a request from `origin` may use the endpoint: the origin ends
/// with the address of the site, or is a local one.
pub fn origin_allowed(origin: &str, frontend_url: &str) -> (allowed: bool)
    ensures
        allowed == (has_suffix(origin@, frontend_url@) || has_suffix(
            origin@,
            "localhost:3000"@,
        )),
{
    ends_with(origin, frontend_url) || ends_with(origin, "localhost:3000")
}

/// Whether every counter but the one of `user` is as it was, or gone.
pub open spec fn others_kept(before: Map<Seq<char>, u64>, after: Map<Seq<char>, u64>, user: Seq<char>) -> bool {
    forall|other: Seq<char>|
        other != user && #[trigger] after.contains_key(other) ==> before.contains_key(other)
            && after[other] == before[other]
}

/// Why a caller is turned away before any counting, if it is: the user is
/// unknown, the token is not the user's, or the user is not staff.
pub open spec fn caller_refusal(record: Option<UserRecord>, token: Seq<char>) -> Option<WebRpcError> {
    match record {
        None => Some(WebRpcError::UserNotFound),
        Some(user) => if user.api_token@ != token {
            Some(WebRpcError::InvalidToken)
        } else if !user.perms.staff {
            Some(WebRpcError::NotStaff)
        } else {
            None
        },
    }
}

/// Checks who calls the endpoint.
pub fn check_caller(record: &Option<UserRecord>, token: &str) -> (result: Result<(), WebRpcError>)
    ensures
        match result {
            Ok(()) => caller_refusal(*record, token@) is None,
            Err(e) => caller_refusal(*record, token@) == Some(e),
        },
{
    match record {
        None => Err(WebRpcError::UserNotFound),
        Some(user) => if !str_eq(user.api_token.as_str(), token) {
            Err(WebRpcError::InvalidToken)
        } else if !user.perms.staff {
            Err(WebRpcError::NotStaff)
        } else {
            Ok(())
        },
    }
}

/// Checks that the caller's tier reaches the tier of the method.
pub fn check_method(perms: &UserPerms, method: &RpcMethod) -> (result: Result<(), WebRpcError>)
    ensures
        result is Ok <==> reaches_tier(perms.flags(), method_tier(method.kind())),
        result matches Err(e) ==> e == WebRpcError::PermissionDenied,
{
    if perms.role_flags().reaches(method.needs_perms()) {
        Ok(())
    } else {
        Err(WebRpcError::PermissionDenied)
    }
}

/// Decides whether a request to the endpoint is served: the caller is
/// checked, the request counted, and the method's tier compared with the
/// caller's. A request that is turned away for its tier has been counted.
pub fn web_rpc_check(
    record: &Option<UserRecord>,
    token: &str,
    method: &RpcMethod,
    limiter: &mut RateLimiter,
) -> (result: Result<(), WebRpcError>)
    ensures
        record matches Some(user) ==> others_kept(old(limiter)@, final(limiter)@, user.user_id@),
        match result {
            Ok(()) => {
                &&& caller_refusal(*record, token@) is None
                &&& record matches Some(user) && reaches_tier(
                    user.perms.flags(),
                    method_tier(method.kind()),
                )
            },
            Err(e) => match caller_refusal(*record, token@) {
                Some(refusal) => e == refusal && final(limiter)@ == old(limiter)@,
                None => {
                    &&& record matches Some(user)
                    &&& e == WebRpcError::RateLimited || e == WebRpcError::PermissionDenied
                    &&& e == WebRpcError::PermissionDenied ==> !reaches_tier(
                        user.perms.flags(),
                        method_tier(method.kind()),
                    )
                    &&& e == WebRpcError::RateLimited ==> old(limiter)@.contains_key(
                        user.user_id@,
                    ) && old(limiter)@[user.user_id@] >= RATE_LIMIT_MAX
                },
            },
        },
{
    match check_caller(record, token) {
        Err(e) => {
            return Err(e);
        },
        Ok(()) => {},
    }
    match record {
        None => Err(WebRpcError::UserNotFound),
        Some(user) => {
            let counted = limiter.hit(user.user_id.as_str());
            proof {
                let before = old(limiter)@;
                assert forall|other: Seq<char>|
                    other != user.user_id@ && #[trigger] limiter@.contains_key(
                        other,
                    ) implies before.contains_key(other) && limiter@[other] == before[other] by {
                    assert(limiter@.dom().contains(other));
                    match counted {
                        Ok(n) => {
                            assert(before.insert(user.user_id@, n).dom().contains(other));
                        },
                        Err(_) => {
                            assert(before.dom().contains(other));
                        },
                    }
                }
            }
            match counted {
                Err(e) => {
                    return Err(e);
                },
                Ok(_) => {},
            }
            check_method(&user.perms, method)
        },
    }
}

} // verus!
