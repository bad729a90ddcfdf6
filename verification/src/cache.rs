use vstd::prelude::*;
use vstd::string::*;
use crate::auth::{generate_session_cache_key, session_cache_key};
use crate::sessions::DbSession;
use crate::users::DbUser;
use crate::ids::{id_text, id_to_text};
use crate::sessions::CACHE_PREFIX;

verus! {

/// How long a cached answer is kept, in seconds (5 minutes).
pub const DEFAULT_CACHE_TTL: u64 = 5 * 60;

/// The failures of the cache. They carry the outside error's message.
#[derive(Debug, Clone)]
pub enum CacheError {
    RedisPoolError(String),
    RedisError(String),
    CacheJsonError(String),
}

/// The cache key of a user's public data: `user:` and the username.
pub open spec fn user_cache_key_of(username: Seq<char>) -> Seq<char> {
    "user:"@ + username
}

/// The cache key of a pick's answer: `pick:` and the id's hyphenated text.
pub open spec fn pick_cache_key_of(id: u128) -> Seq<char> {
    "pick:"@ + id_text(id)
}

/// The cache key of a user's public data.
pub fn user_cache_key(username: &str) -> (r: String)
    ensures
        r@ == user_cache_key_of(username@),
{
    let mut out = String::from_str("user:");
    out.append(username);
    out
}

/// The cache key of a pick's answer.
pub fn pick_cache_key(id: u128) -> (r: String)
    ensures
        r@ == pick_cache_key_of(id),
{
    let mut out = String::from_str("pick:");
    let text = id_to_text(id);
    out.append(text.as_str());
    out
}

/// The cache keys to drop when an account goes: its user entry, then the
/// entry of each of its sessions, in order.
pub fn account_cache_keys(user: &DbUser, sessions: &Vec<DbSession>) -> (r: Vec<String>)
    ensures
        r@.len() == sessions@.len() + 1,
        r@[0]@ == user_cache_key_of(user.username@),
        forall|i: int|
            0 <= i < sessions@.len() ==> #[trigger] r@[i + 1]@ == session_cache_key(
                sessions@[i].session_key@,
            ),
{
    let mut keys: Vec<String> = Vec::new();
    keys.push(user_cache_key(user.username.as_str()));
    let mut i: usize = 0;
    while i < sessions.len()
        invariant
            i <= sessions@.len(),
            keys@.len() == i + 1,
            keys@[0]@ == user_cache_key_of(user.username@),
            forall|j: int|
                0 <= j < i ==> #[trigger] keys@[j + 1]@ == session_cache_key(
                    sessions@[j].session_key@,
                ),
        decreases sessions.len() - i,
    {
        keys.push(generate_session_cache_key(sessions[i].session_key.as_str()));
        i = i + 1;
    }
    keys
}

/// Users, picks and sessions are cached under keys that never collide.
pub proof fn law_cache_keys_disjoint(name: Seq<char>, id: u128, session_key: Seq<char>)
    ensures
        user_cache_key_of(name) != pick_cache_key_of(id),
        user_cache_key_of(name) != session_cache_key(session_key),
        pick_cache_key_of(id) != session_cache_key(session_key),
{
    reveal_strlit("user:");
    reveal_strlit("pick:");
    reveal_strlit("session");
    assert(user_cache_key_of(name)[0] == 'u');
    assert(pick_cache_key_of(id)[0] == 'p');
    assert(session_cache_key(session_key)[0] == 's');
}

/// Where a cached fetch stands: `cache_wrapper` answers from the cache when
/// it holds a readable answer, and otherwise fetches, and caches what it
/// fetched.
#[derive(Debug)]
pub enum CacheFlow<T, E> {
    /// Not started.
    Start,
    /// Waiting for the cached text.
    Reading,
    /// Waiting for the cached text to be parsed.
    Parsing,
    /// Waiting for the fetch.
    Fetching,
    /// Fetched this value; waiting for its text.
    Serializing(T),
    /// Fetched this value; waiting for its text to be stored.
    Storing(T),
    /// Finished with this answer.
    Done(Result<T, E>),
}

/// What the outside world reports to a cached fetch.
#[derive(Debug)]
pub enum CacheEvent<T, E> {
    /// Go.
    Begin,
    /// The cached text; `None` on a miss or a failure of the cache.
    CacheRead(Option<String>),
    /// The value parsed from the cached text; `None` when it does not parse.
    Parsed(Option<T>),
    /// What the fetch gave.
    Fetched(Result<T, E>),
    /// The text of the fetched value; `None` when it cannot be written.
    Serialized(Option<String>),
    /// The store is done (a failure of it changes nothing).
    Stored,
}

/// What a cached fetch asks the outside world to do next.
#[derive(Debug, Clone)]
pub enum CacheAction {
    /// Read the cached text.
    ReadCache,
    /// Parse this cached text.
    Parse(String),
    /// Run the fetch.
    Fetch,
    /// Write the fetched value (`pending_value`) as text.
    Serialize,
    /// Store this text, for this many seconds.
    Store(String, u64),
    /// Hand out the answer (`into_result`).
    Return,
}

/// What a state waits for, asked again when an event does not fit it.
pub open spec fn awaited<T, E>(s: CacheFlow<T, E>) -> CacheAction {
    match s {
        CacheFlow::Start => CacheAction::ReadCache,
        CacheFlow::Reading => CacheAction::ReadCache,
        CacheFlow::Parsing => CacheAction::ReadCache,
        CacheFlow::Fetching => CacheAction::Fetch,
        CacheFlow::Serializing(_) => CacheAction::Serialize,
        CacheFlow::Storing(_) => CacheAction::Serialize,
        CacheFlow::Done(_) => CacheAction::Return,
    }
}

/// One step of a cached fetch.
pub open spec fn cache_step<T, E>(s: CacheFlow<T, E>, ev: CacheEvent<T, E>) -> (
    CacheFlow<T, E>,
    CacheAction,
) {
    match (s, ev) {
        (CacheFlow::Start, CacheEvent::Begin) => (CacheFlow::Reading, CacheAction::ReadCache),
        (CacheFlow::Reading, CacheEvent::CacheRead(Some(text))) => (
            CacheFlow::Parsing,
            CacheAction::Parse(text),
        ),
        (CacheFlow::Reading, CacheEvent::CacheRead(None)) => (
            CacheFlow::Fetching,
            CacheAction::Fetch,
        ),
        (CacheFlow::Parsing, CacheEvent::Parsed(Some(v))) => (
            CacheFlow::Done(Ok(v)),
            CacheAction::Return,
        ),
        (CacheFlow::Parsing, CacheEvent::Parsed(None)) => (
            CacheFlow::Fetching,
            CacheAction::Fetch,
        ),
        (CacheFlow::Fetching, CacheEvent::Fetched(Ok(v))) => (
            CacheFlow::Serializing(v),
            CacheAction::Serialize,
        ),
        (CacheFlow::Fetching, CacheEvent::Fetched(Err(e))) => (
            CacheFlow::Done(Err(e)),
            CacheAction::Return,
        ),
        (CacheFlow::Serializing(v), CacheEvent::Serialized(Some(text))) => (
            CacheFlow::Storing(v),
            CacheAction::Store(text, DEFAULT_CACHE_TTL),
        ),
        (CacheFlow::Serializing(v), CacheEvent::Serialized(None)) => (
            CacheFlow::Done(Ok(v)),
            CacheAction::Return,
        ),
        (CacheFlow::Storing(v), CacheEvent::Stored) => (CacheFlow::Done(Ok(v)), CacheAction::Return),
        (s, _) => (s, awaited(s)),
    }
}

impl<T, E> CacheFlow<T, E> {
    /// A cached fetch, not started.
    pub fn new() -> (r: Self)
        ensures
            r is Start,
    {
        CacheFlow::Start
    }

    /// What the state waits for.
    pub fn awaited(&self) -> (r: CacheAction)
        ensures
            r == awaited(*self),
    {
        match self {
            CacheFlow::Start => CacheAction::ReadCache,
            CacheFlow::Reading => CacheAction::ReadCache,
            CacheFlow::Parsing => CacheAction::ReadCache,
            CacheFlow::Fetching => CacheAction::Fetch,
            CacheFlow::Serializing(_) => CacheAction::Serialize,
            CacheFlow::Storing(_) => CacheAction::Serialize,
            CacheFlow::Done(_) => CacheAction::Return,
        }
    }

    /// Takes in an event; gives the next state and what to do.
    pub fn step(self, ev: CacheEvent<T, E>) -> (r: (Self, CacheAction))
        ensures
            r == cache_step(self, ev),
    {
        match (self, ev) {
            (CacheFlow::Start, CacheEvent::Begin) => (CacheFlow::Reading, CacheAction::ReadCache),
            (CacheFlow::Reading, CacheEvent::CacheRead(Some(text))) => (
                CacheFlow::Parsing,
                CacheAction::Parse(text),
            ),
            (CacheFlow::Reading, CacheEvent::CacheRead(None)) => (
                CacheFlow::Fetching,
                CacheAction::Fetch,
            ),
            (CacheFlow::Parsing, CacheEvent::Parsed(Some(v))) => (
                CacheFlow::Done(Ok(v)),
                CacheAction::Return,
            ),
            (CacheFlow::Parsing, CacheEvent::Parsed(None)) => (
                CacheFlow::Fetching,
                CacheAction::Fetch,
            ),
            (CacheFlow::Fetching, CacheEvent::Fetched(Ok(v))) => (
                CacheFlow::Serializing(v),
                CacheAction::Serialize,
            ),
            (CacheFlow::Fetching, CacheEvent::Fetched(Err(e))) => (
                CacheFlow::Done(Err(e)),
                CacheAction::Return,
            ),
            (CacheFlow::Serializing(v), CacheEvent::Serialized(Some(text))) => (
                CacheFlow::Storing(v),
                CacheAction::Store(text, DEFAULT_CACHE_TTL),
            ),
            (CacheFlow::Serializing(v), CacheEvent::Serialized(None)) => (
                CacheFlow::Done(Ok(v)),
                CacheAction::Return,
            ),
            (CacheFlow::Storing(v), CacheEvent::Stored) => (
                CacheFlow::Done(Ok(v)),
                CacheAction::Return,
            ),
            (s, _) => {
                let a = s.awaited();
                (s, a)
            },
        }
    }

    /// The fetched value waiting to be written as text.
    pub fn pending_value(&self) -> (r: Option<&T>)
        ensures
            match *self {
                CacheFlow::Serializing(v) => r == Some(&v),
                _ => r is None,
            },
    {
        match self {
            CacheFlow::Serializing(v) => Some(v),
            _ => None,
        }
    }

    /// The answer, once finished.
    pub fn into_result(self) -> (r: Option<Result<T, E>>)
        ensures
            match self {
                CacheFlow::Done(res) => r == Some(res),
                _ => r is None,
            },
    {
        match self {
            CacheFlow::Done(res) => Some(res),
            _ => None,
        }
    }
}

/// How far a cached fetch has come.
pub open spec fn cache_phase<T, E>(s: CacheFlow<T, E>) -> int {
    match s {
        CacheFlow::Start => 0,
        CacheFlow::Reading => 1,
        CacheFlow::Parsing => 2,
        CacheFlow::Fetching => 3,
        CacheFlow::Serializing(_) => 4,
        CacheFlow::Storing(_) => 5,
        CacheFlow::Done(_) => 6,
    }
}

/// The event is the one the state waits for.
pub open spec fn cache_event_fits<T, E>(s: CacheFlow<T, E>, ev: CacheEvent<T, E>) -> bool {
    match (s, ev) {
        (CacheFlow::Start, CacheEvent::Begin) => true,
        (CacheFlow::Reading, CacheEvent::CacheRead(_)) => true,
        (CacheFlow::Parsing, CacheEvent::Parsed(_)) => true,
        (CacheFlow::Fetching, CacheEvent::Fetched(_)) => true,
        (CacheFlow::Serializing(_), CacheEvent::Serialized(_)) => true,
        (CacheFlow::Storing(_), CacheEvent::Stored) => true,
        _ => false,
    }
}

/// The event carries out the action.
pub open spec fn cache_event_answers<T, E>(a: CacheAction, ev: CacheEvent<T, E>) -> bool {
    match (a, ev) {
        (CacheAction::ReadCache, CacheEvent::CacheRead(_)) => true,
        (CacheAction::Parse(_), CacheEvent::Parsed(_)) => true,
        (CacheAction::Fetch, CacheEvent::Fetched(_)) => true,
        (CacheAction::Serialize, CacheEvent::Serialized(_)) => true,
        (CacheAction::Store(_, _), CacheEvent::Stored) => true,
        _ => false,
    }
}

/// A cached fetch driven by carrying out what it asks only moves forward:
/// an event that fits the state moves it to a later phase, and carrying out
/// the action it then asks for is an event that fits the new state. So a run
/// from the start finishes in at most six steps, and asks for the fetch at
/// most once: a fetch is asked for only on entering `Fetching`, from an
/// earlier phase.
pub proof fn law_cache_flow_moves_forward<T, E>(
    s: CacheFlow<T, E>,
    ev: CacheEvent<T, E>,
    next_ev: CacheEvent<T, E>,
)
    ensures
        cache_event_fits(s, ev) ==> cache_phase(cache_step(s, ev).0) > cache_phase(s),
        cache_event_fits(s, ev) && cache_event_answers(cache_step(s, ev).1, next_ev)
            ==> cache_event_fits(cache_step(s, ev).0, next_ev),
        cache_event_fits(s, ev) && cache_step(s, ev).1 is Fetch ==> cache_step(s, ev).0 is Fetching
            && cache_phase(s) < 3,
        cache_step(s, ev).1 is Return ==> cache_step(s, ev).0 is Done,
{
}

/// A readable cached answer is handed out without fetching.
pub proof fn law_cache_hit_skips_fetch<T, E>(text: String, v: T)
    ensures
        ({
            let (s1, a1) = cache_step(CacheFlow::<T, E>::Start, CacheEvent::Begin);
            let (s2, a2) = cache_step(s1, CacheEvent::CacheRead(Some(text)));
            let (s3, a3) = cache_step(s2, CacheEvent::Parsed(Some(v)));
            a1 is ReadCache && a2 == CacheAction::Parse(text) && s3 == CacheFlow::<T, E>::Done(Ok(v))
                && a3 is Return
        }),
{
}

/// A miss, and a cached text that does not parse, both lead to the fetch.
pub proof fn law_cache_miss_fetches<T, E>(text: String)
    ensures
        cache_step(CacheFlow::<T, E>::Reading, CacheEvent::CacheRead(None)) == (
            CacheFlow::<T, E>::Fetching,
            CacheAction::Fetch,
        ),
        cache_step(CacheFlow::<T, E>::Parsing, CacheEvent::Parsed(None)) == (
            CacheFlow::<T, E>::Fetching,
            CacheAction::Fetch,
        ),
{
}

/// A failed fetch is handed out as it came, and nothing is cached.
pub proof fn law_fetch_failure_not_cached<T, E>(e: E)
    ensures
        cache_step(CacheFlow::<T, E>::Fetching, CacheEvent::Fetched(Err(e))) == (
            CacheFlow::<T, E>::Done(Err(e)),
            CacheAction::Return,
        ),
{
}

/// A fetched value is cached, as its text and for the default time, and
/// then handed out; when it cannot be written as text it is handed out all
/// the same.
pub proof fn law_fetched_value_cached_and_returned<T, E>(v: T, text: String)
    ensures
        ({
            let (s1, a1) = cache_step(CacheFlow::<T, E>::Fetching, CacheEvent::Fetched(Ok(v)));
            let (s2, a2) = cache_step(s1, CacheEvent::Serialized(Some(text)));
            let (s3, a3) = cache_step(s2, CacheEvent::Stored);
            a1 is Serialize && a2 == CacheAction::Store(text, DEFAULT_CACHE_TTL) && s3
                == CacheFlow::<T, E>::Done(Ok(v)) && a3 is Return
        }),
        cache_step(
            CacheFlow::<T, E>::Serializing(v),
            CacheEvent::Serialized(None),
        ).0 == CacheFlow::<T, E>::Done(Ok(v)),
{
}

/// Whatever happens, the cache is only ever written for the default time,
/// and only what the fetch gave is written: a store is asked for only right
/// after the text of a fetched value comes in.
pub proof fn law_store_only_fetched<T, E>(s: CacheFlow<T, E>, ev: CacheEvent<T, E>)
    ensures
        cache_step(s, ev).1 matches CacheAction::Store(text, ttl) ==> ttl == DEFAULT_CACHE_TTL
            && s is Serializing && ev == CacheEvent::<T, E>::Serialized(Some(text)),
{
}

} // verus!
