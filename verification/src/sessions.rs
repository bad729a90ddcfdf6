use vstd::prelude::*;
use crate::clock::{earliest_instant, latest_instant, now_nanos};
use crate::crypto::{base64_encode, base64_standard, lemma_base64_shape, random_bytes_64};
use crate::ids::new_random_id;
use crate::users::DbUser;

verus! {

/// How many days a session lives.
pub const SESSION_TTL_INT: u8 = 28;

/// The prefix of the cache keys under which sessions are kept.
pub const CACHE_PREFIX: &'static str = "session";

/// Nanoseconds in a day.
pub const NANOS_PER_DAY: i128 = 86_400_000_000_000;

/// How long a session lives, in nanoseconds.
pub open spec fn session_ttl_nanos() -> int {
    SESSION_TTL_INT * NANOS_PER_DAY
}

/// A session key: the standard base64 text of 64 bytes.
pub open spec fn is_session_key(k: Seq<char>) -> bool {
    exists|b: Seq<u8>| b.len() == 64 && k == #[trigger] base64_standard(b)
}

/// A login session as the database holds it. Ids are the 128-bit value of a
/// UUID, instants are nanoseconds since the Unix epoch.
#[derive(Debug, Clone)]
pub struct DbSession {
    /// Unique session id
    pub id: u128,
    /// Session owner id
    pub user_id: u128,
    /// Unique session key
    pub session_key: String,
    /// Created at
    pub created: i128,
    /// Expires at
    pub expires: i128,
    /// Session user agent
    pub user_agent: Option<String>,
}

/// A fresh session key: 64 random bytes in standard base64 (88 characters,
/// the last two of them `=`).
pub fn generate_session_key() -> (r: String)
    ensures
        is_session_key(r@),
        r@.len() == 88,
        r@[86] == '=' && r@[87] == '=',
{
    let buf = random_bytes_64();
    let key = base64_encode(buf.as_slice());
    proof {
        lemma_base64_shape(buf@);
    }
    assert(base64_standard(buf@) == key@);
    key
}

/// When a session created at `created` expires: `SESSION_TTL_INT` days later.
pub fn session_expiry(created: i128) -> (r: i128)
    requires
        created <= latest_instant(),
    ensures
        r == created + session_ttl_nanos(),
{
    created + (SESSION_TTL_INT as i128) * NANOS_PER_DAY
}

impl DbSession {
    /// A new session of `user`, with a fresh random id and key, created now
    /// and expiring `SESSION_TTL_INT` days later.
    pub fn new(user: &DbUser, user_agent: Option<&str>) -> (r: DbSession)
        ensures
            r.user_id == user.id,
            match user_agent {
                Some(ua) => r.user_agent matches Some(s) && s@ == ua@,
                None => r.user_agent is None,
            },
            is_session_key(r.session_key@),
            r.session_key@.len() == 88,
            r.session_key@[86] == '=' && r.session_key@[87] == '=',
            earliest_instant() <= r.created <= latest_instant(),
            r.expires == r.created + session_ttl_nanos(),
    {
        let created = now_nanos();
        let expires = session_expiry(created);
        let user_agent = match user_agent {
            Some(ua) => Some(ua.to_owned()),
            None => None,
        };
        DbSession {
            id: new_random_id(),
            user_id: user.id,
            session_key: generate_session_key(),
            created,
            expires,
            user_agent,
        }
    }
}

} // verus!
