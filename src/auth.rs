//! The auth-token cache protocol: issue, validate (with sliding refresh) and
//! revoke, over a key-value store with per-key expiry.

use crate::error::RedisCacheError;
use std::collections::HashMap;
use vstd::prelude::*;

verus! {

broadcast use vstd::std_specs::hash::group_hash_axioms;

/// Lifetime of a token mapping, renewed on every successful validation.
pub const REDIS_CACHE_EXPIRATION_IN_SECONDS: u64 = 30 * 60;

/// Name under which the HTTP endpoints expect the token cookie.
pub const COOKIE_AUTH_TOKEN_NAME: &'static str = "SPTF_AUTH";

/// The hyphenated text form of a UUID.
pub uninterp spec fn uuid_text_of(v: u128) -> Seq<char>;

/// What parsing a text as a UUID gives.
pub uninterp spec fn uuid_parse_of(s: Seq<char>) -> Option<u128>;

/// Relies on `uuid::Uuid::to_string` (hyphenated form) and on
/// `uuid::Uuid::parse_str` reading that form back.
#[verifier::external_body]
fn uuid_to_text(v: u128) -> (r: String)
    ensures
        r@ == uuid_text_of(v),
        uuid_parse_of(r@) == Some(v),
{
    uuid::Uuid::from_u128(v).to_string()
}

/// Relies on `uuid::Uuid::parse_str`.
#[verifier::external_body]
fn uuid_from_text(s: &str) -> (r: Option<u128>)
    ensures
        r == uuid_parse_of(s@),
{
    uuid::Uuid::parse_str(s).ok().map(|u| u.as_u128())
}

/// Relies on `uuid::Uuid::new_v4`: a random identifier, nothing promised.
#[verifier::external_body]
fn random_uuid() -> (r: u128) {
    uuid::Uuid::new_v4().as_u128()
}

/// A fresh random identifier, as used for user ids, salts and tokens.
pub fn new_uuid() -> (r: u128) {
    random_uuid()
}

/// The text form of an id, as it is stored and handed to clients.
pub fn uuid_text(v: u128) -> (r: String)
    ensures
        r@ == uuid_text_of(v),
        uuid_parse_of(r@) == Some(v),
{
    uuid_to_text(v)
}

/// Reads a token presented by a client; malformed text is
/// `ValidateAuthTokenFailed`.
pub fn parse_auth_token(s: &str) -> (r: Result<u128, RedisCacheError>)
    ensures
        match uuid_parse_of(s@) {
            Some(t) => r == Ok::<u128, RedisCacheError>(t),
            None => r == Err::<u128, RedisCacheError>(RedisCacheError::ValidateAuthTokenFailed),
        },
{
    match uuid_from_text(s) {
        Some(t) => Ok(t),
        None => Err(RedisCacheError::ValidateAuthTokenFailed),
    }
}

/// Reads the user id a token maps to, as the store returned it (`None`: no
/// mapping, or the lookup failed).
pub fn parse_stored_user(stored: Option<String>) -> (r: Result<u128, RedisCacheError>)
    ensures
        match stored {
            Some(s) => match uuid_parse_of(s@) {
                Some(u) => r == Ok::<u128, RedisCacheError>(u),
                None => r == Err::<u128, RedisCacheError>(
                    RedisCacheError::ValidateAuthTokenFailed,
                ),
            },
            None => r == Err::<u128, RedisCacheError>(RedisCacheError::ValidateAuthTokenFailed),
        },
{
    match stored {
        Some(s) => parse_auth_token(s.as_str()),
        None => Err(RedisCacheError::ValidateAuthTokenFailed),
    }
}

/// One mapping of the store: the user and the second at which it lapses.
#[derive(Debug, Clone, Copy, PartialEq, Eq, Structural)]
pub struct CacheEntry {
    pub user: u128,
    pub expires_at: u64,
}

/// `now + seconds`, held at `u64::MAX`.
pub open spec fn expiry_after(now: u64, seconds: u64) -> u64 {
    if now + seconds > u64::MAX {
        u64::MAX
    } else {
        (now + seconds) as u64
    }
}

/// `SET key value EX seconds` at time `now`.
pub open spec fn set_ex_spec(m: Map<u128, CacheEntry>, key: u128, user: u128, seconds: u64, now: u64) -> Map<
    u128,
    CacheEntry,
> {
    m.insert(key, CacheEntry { user, expires_at: expiry_after(now, seconds) })
}

/// `GET key` at time `now`: the mapping while it has not lapsed.
pub open spec fn get_spec(m: Map<u128, CacheEntry>, key: u128, now: u64) -> Option<u128> {
    if m.contains_key(key) && now < m[key].expires_at {
        Some(m[key].user)
    } else {
        None
    }
}

/// What validating `token` at `now` answers.
pub open spec fn validate_spec(m: Map<u128, CacheEntry>, token: Seq<char>, now: u64) -> Result<
    u128,
    RedisCacheError,
> {
    match uuid_parse_of(token) {
        None => Err(RedisCacheError::ValidateAuthTokenFailed),
        Some(t) => match get_spec(m, t, now) {
            None => Err(RedisCacheError::ValidateAuthTokenFailed),
            Some(u) => Ok(u),
        },
    }
}

/// The store after validating `token` at `now`: a hit is stored again with a
/// renewed lifetime.
pub open spec fn after_validate_spec(m: Map<u128, CacheEntry>, token: Seq<char>, now: u64) -> Map<
    u128,
    CacheEntry,
> {
    match uuid_parse_of(token) {
        Some(t) => match get_spec(m, t, now) {
            Some(u) => set_ex_spec(m, t, u, REDIS_CACHE_EXPIRATION_IN_SECONDS, now),
            None => m,
        },
        None => m,
    }
}

/// The store after revoking `token`.
pub open spec fn after_revoke_spec(m: Map<u128, CacheEntry>, token: Seq<char>) -> Map<u128, CacheEntry> {
    match uuid_parse_of(token) {
        Some(t) => m.remove(t),
        None => m,
    }
}

/// The token store: each token maps to a user until its lifetime lapses.
pub struct TokenCache {
    entries: HashMap<u128, CacheEntry>,
}

impl View for TokenCache {
    type V = Map<u128, CacheEntry>;

    closed spec fn view(&self) -> Map<u128, CacheEntry> {
        self.entries@
    }
}

impl TokenCache {
    pub fn new() -> (r: Self)
        ensures
            r@ == Map::<u128, CacheEntry>::empty(),
    {
        TokenCache { entries: HashMap::new() }
    }

    /// `SET key value EX seconds` at time `now`.
    pub fn set_ex(&mut self, key: u128, user: u128, seconds: u64, now: u64)
        ensures
            final(self)@ == set_ex_spec(old(self)@, key, user, seconds, now),
    {
        let expires_at = now.saturating_add(seconds);
        self.entries.insert(key, CacheEntry { user, expires_at });
    }

    /// `GET key` at time `now`.
    pub fn get(&self, key: u128, now: u64) -> (r: Option<u128>)
        ensures
            r == get_spec(self@, key, now),
    {
        match self.entries.get(&key) {
            Some(e) => if now < e.expires_at {
                Some(e.user)
            } else {
                None
            },
            None => None,
        }
    }

    /// `DEL key`.
    pub fn del(&mut self, key: u128)
        ensures
            final(self)@ == old(self)@.remove(key),
    {
        self.entries.remove(&key);
    }

    /// Stores `token -> user_uuid` with the standard lifetime.
    pub fn update_user_cache(&mut self, user_uuid: u128, auth_token: u128, now: u64)
        ensures
            final(self)@ == set_ex_spec(
                old(self)@,
                auth_token,
                user_uuid,
                REDIS_CACHE_EXPIRATION_IN_SECONDS,
                now,
            ),
    {
        self.set_ex(auth_token, user_uuid, REDIS_CACHE_EXPIRATION_IN_SECONDS, now);
    }

    /// Issues a fresh random token for `user_uuid`; earlier tokens of the
    /// same user stay valid.
    pub fn add_user_cache(&mut self, user_uuid: u128, now: u64) -> (r: u128)
        ensures
            final(self)@ == set_ex_spec(
                old(self)@,
                r,
                user_uuid,
                REDIS_CACHE_EXPIRATION_IN_SECONDS,
                now,
            ),
    {
        let token = random_uuid();
        self.update_user_cache(user_uuid, token, now);
        token
    }

    /// Validates the token text `auth_token_str` at `now`; on a hit the
    /// mapping is renewed and the user id returned, otherwise it fails with
    /// `ValidateAuthTokenFailed` and the store is unchanged.
    pub fn validate_auth_token(&mut self, auth_token_str: &str, now: u64) -> (r: Result<
        u128,
        RedisCacheError,
    >)
        ensures
            r == validate_spec(old(self)@, auth_token_str@, now),
            final(self)@ == after_validate_spec(old(self)@, auth_token_str@, now),
    {
        let token = match parse_auth_token(auth_token_str) {
            Ok(t) => t,
            Err(e) => return Err(e),
        };
        let user = match self.get(token, now) {
            Some(u) => u,
            None => return Err(RedisCacheError::ValidateAuthTokenFailed),
        };
        self.update_user_cache(user, token, now);
        Ok(user)
    }

    /// Deletes the mapping of `auth_token_str`; revoking an unknown or
    /// malformed token changes nothing.
    pub fn logout(&mut self, auth_token_str: &str)
        ensures
            final(self)@ == after_revoke_spec(old(self)@, auth_token_str@),
    {
        match uuid_from_text(auth_token_str) {
            Some(t) => self.del(t),
            None => {},
        }
    }
}

/// A token issued to `user` at `now` and presented right away validates to
/// `user`; once revoked, presenting it at any time fails with
/// `ValidateAuthTokenFailed`.
pub proof fn lemma_issue_validate_revoke(
    m: Map<u128, CacheEntry>,
    user: u128,
    token: u128,
    text: Seq<char>,
    now: u64,
    later: u64,
)
    requires
        uuid_parse_of(text) == Some(token),
        now < u64::MAX,
    ensures
        validate_spec(set_ex_spec(m, token, user, REDIS_CACHE_EXPIRATION_IN_SECONDS, now), text, now)
            == Ok::<u128, RedisCacheError>(user),
        validate_spec(
            after_revoke_spec(
                after_validate_spec(
                    set_ex_spec(m, token, user, REDIS_CACHE_EXPIRATION_IN_SECONDS, now),
                    text,
                    now,
                ),
                text,
            ),
            text,
            later,
        ) == Err::<u128, RedisCacheError>(RedisCacheError::ValidateAuthTokenFailed),
{
}

/// A token that is validated keeps working: right after a successful
/// validation at `now`, it validates to the same user for the whole
/// standard lifetime.
pub proof fn lemma_validation_refreshes(
    m: Map<u128, CacheEntry>,
    text: Seq<char>,
    now: u64,
    later: u64,
)
    requires
        validate_spec(m, text, now) is Ok,
        now <= later,
        later < expiry_after(now, REDIS_CACHE_EXPIRATION_IN_SECONDS),
    ensures
        validate_spec(after_validate_spec(m, text, now), text, later) == validate_spec(m, text, now),
{
}

} // verus!
