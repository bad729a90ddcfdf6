use vstd::prelude::*;
use vstd::string::*;
use crate::api::RegisterRequest;
use crate::clock::{earliest_instant, latest_instant};
use crate::crypto::{
    argon2_accepts, argon2_verify, argon2id_hash, argon2id_phc_prefix, decimal, phc_parses,
};
use crate::roles::{role_rank, Role};
use crate::server_error::Error;
use crate::sessions::{session_ttl_nanos, DbSession, CACHE_PREFIX, SESSION_TTL_INT};
use crate::users::{username_form, DbUser};

verus! {

/// The name of the cookie that carries the session key.
pub const SESSION_COOKIE_NAME: &'static str = "user_session";

/// The cache key of a session: the session prefix, `:`, and the key.
pub open spec fn session_cache_key(session_key: Seq<char>) -> Seq<char> {
    CACHE_PREFIX@ + seq![':'] + session_key
}

/// The cache key under which a session is kept.
pub fn generate_session_cache_key(session_key: &str) -> (r: String)
    ensures
        r@ == session_cache_key(session_key@),
{
    let mut out = String::from_str(CACHE_PREFIX);
    out.append(":");
    out.append(session_key);
    proof {
        reveal_strlit(":");
    }
    out
}

/// Distinct sessions are cached under distinct keys.
pub proof fn law_session_cache_key_injective(a: Seq<char>, b: Seq<char>)
    ensures
        session_cache_key(a) == session_cache_key(b) ==> a == b,
{
    let p = CACHE_PREFIX@ + seq![':'];
    assert(session_cache_key(a) == p + a);
    assert(session_cache_key(b) == p + b);
    if session_cache_key(a) == session_cache_key(b) {
        assert((p + a).subrange(p.len() as int, (p + a).len() as int) =~= a);
        assert((p + b).subrange(p.len() as int, (p + b).len() as int) =~= b);
    }
}

/// How long, in seconds, a session stays in the cache: as long as it lives.
pub fn session_cache_ttl() -> (r: u64)
    ensures
        r == SESSION_TTL_INT * 24 * 3600,
        r * 1_000_000_000 == session_ttl_nanos(),
{
    SESSION_TTL_INT as u64 * 24 * 3600
}

/// The cookie that hands a session to the client.
#[derive(Debug, Clone)]
pub struct SessionCookie {
    pub name: String,
    pub value: String,
    pub path: String,
    pub http_only: bool,
    /// Nanoseconds since the Unix epoch.
    pub expires: i128,
}

/// The session cookie: named `user_session`, carrying the session key, for
/// every path, hidden from scripts, and expiring with the session.
pub fn generate_session_cookie(session: &DbSession) -> (r: SessionCookie)
    ensures
        r.name@ == SESSION_COOKIE_NAME@,
        r.value@ == session.session_key@,
        r.path@ == "/"@,
        r.http_only,
        r.expires == session.expires,
{
    SessionCookie {
        name: String::from_str(SESSION_COOKIE_NAME),
        value: session.session_key.clone(),
        path: String::from_str("/"),
        http_only: true,
        expires: session.expires,
    }
}

/// Whether a user holding `held` may do what needs `needed`: an admin-only
/// action needs an admin, a moderator action needs moderator rights.
pub open spec fn role_grants(needed: Role, held: Role) -> bool {
    !((needed == Role::Admin && held != Role::Admin) || (role_rank(needed) >= 1 && role_rank(
        held,
    ) < 1))
}

/// A role is granted what a role of no higher rank needs, and nothing more.
pub proof fn law_role_grants_by_rank(needed: Role, held: Role)
    ensures
        role_grants(needed, held) <==> role_rank(held) >= role_rank(needed),
{
}

/// Whether checking access for `needed` asks for the user's role.
pub fn role_lookup_needed(needed: Role) -> (r: bool)
    ensures
        r == (needed != Role::Regular),
{
    match needed {
        Role::Regular => false,
        _ => true,
    }
}

/// What the access check answers.
pub open spec fn access_outcome(
    needed: Role,
    session: Option<DbSession>,
    held: Option<Role>,
) -> Result<DbSession, Error> {
    match session {
        None => Err(Error::Unauthorized),
        Some(s) => if needed == Role::Regular {
            Ok(s)
        } else {
            match held {
                None => Err(Error::Unauthorized),
                Some(h) => if role_grants(needed, h) {
                    Ok(s)
                } else {
                    Err(Error::Forbidden)
                },
            }
        },
    }
}

/// Checks that a request carries a session, and, where the action needs
/// more than a regular user, that the session's user holds the rights.
/// `held` is the role of the session's user as the database has it (`None`
/// when the user is gone); it is read only where `role_lookup_needed`.
pub fn check_session_access(
    needed: Role,
    session: Option<DbSession>,
    held: Option<Role>,
) -> (r: Result<DbSession, Error>)
    ensures
        r == access_outcome(needed, session, held),
        session is None ==> r == Err::<DbSession, Error>(Error::Unauthorized),
        session is Some && needed == Role::Regular ==> r == Ok::<DbSession, Error>(
            session.unwrap(),
        ),
        session is Some && needed != Role::Regular && held is None ==> r == Err::<
            DbSession,
            Error,
        >(Error::Unauthorized),
        session is Some && needed != Role::Regular && held is Some ==> (r is Ok <==> role_rank(
            held.unwrap(),
        ) >= role_rank(needed)),
        session is Some && needed != Role::Regular && held is Some && role_rank(held.unwrap())
            < role_rank(needed) ==> r == Err::<DbSession, Error>(Error::Forbidden),
        r is Ok ==> session is Some && r == Ok::<DbSession, Error>(session.unwrap()),
{
    let s = match session {
        None => return Err(Error::Unauthorized),
        Some(s) => s,
    };
    if !role_lookup_needed(needed) {
        return Ok(s);
    }
    let h = match held {
        None => return Err(Error::Unauthorized),
        Some(h) => h,
    };
    if needed.is_admin() && !h.is_admin() || needed.is_moder() && !h.is_moder() {
        Err(Error::Forbidden)
    } else {
        Ok(s)
    }
}

/// Access goes by rank. Without a session the answer is `Unauthorized`; an
/// action for regular users lets every session through; for any other
/// action a session whose user is gone is `Unauthorized`, and one whose
/// user holds a role of at least the rank needed is let through, while a
/// lower role is `Forbidden` (a regular user never passes an admin-only
/// check, a moderator never passes one either).
pub proof fn law_access_by_rank(needed: Role, s: DbSession, h: Role)
    ensures
        access_outcome(needed, None, Some(h)) == Err::<DbSession, Error>(Error::Unauthorized),
        access_outcome(Role::Regular, Some(s), None) == Ok::<DbSession, Error>(s),
        needed != Role::Regular ==> access_outcome(needed, Some(s), None) == Err::<
            DbSession,
            Error,
        >(Error::Unauthorized),
        needed != Role::Regular ==> (access_outcome(needed, Some(s), Some(h)) is Ok <==> role_rank(h)
            >= role_rank(needed)),
        access_outcome(needed, Some(s), Some(h)) is Ok ==> access_outcome(needed, Some(s), Some(h))
            == Ok::<DbSession, Error>(s),
        !(access_outcome(needed, Some(s), Some(h)) is Ok) ==> access_outcome(
            needed,
            Some(s),
            Some(h),
        ) == Err::<DbSession, Error>(Error::Forbidden),
{
}

/// Refuses a login or a registration from a client that already holds an
/// active session.
pub fn reject_active_session(has_session: bool) -> (r: Result<(), Error>)
    ensures
        r is Ok <==> !has_session,
        r matches Err(e) ==> e is AlreadyExists,
{
    if has_session {
        Err(Error::AlreadyExists)
    } else {
        Ok(())
    }
}

/// The Argon2id memory cost in KiB, time cost and parallelism for passwords.
pub const ARGON2_M_COST: u32 = 32 * 1024;
pub const ARGON2_T_COST: u32 = 3;
pub const ARGON2_P_COST: u32 = 2;

/// How the hash of every password begins: Argon2id, version 0x13, with the
/// memory, time and parallelism costs of `ARGON2_M_COST`, `ARGON2_T_COST`
/// and `ARGON2_P_COST`.
pub proof fn lemma_password_hash_prefix()
    ensures
        argon2id_phc_prefix(ARGON2_M_COST as nat, ARGON2_T_COST as nat, ARGON2_P_COST as nat)
            == "$argon2id$v=19$m=32768,t=3,p=2$"@,
{
    reveal_strlit("$argon2id$v=19$m=");
    reveal_strlit(",t=");
    reveal_strlit(",p=");
    reveal_strlit("$");
    reveal_strlit("$argon2id$v=19$m=32768,t=3,p=2$");
    assert(decimal(3) =~= seq!['3']);
    assert(decimal(32) =~= seq!['3', '2']);
    assert(decimal(327) =~= seq!['3', '2', '7']);
    assert(decimal(3276) =~= seq!['3', '2', '7', '6']);
    assert(decimal(32768) =~= seq!['3', '2', '7', '6', '8']);
    assert(decimal(2) =~= seq!['2']);
    assert(argon2id_phc_prefix(32768, 3, 2) =~= "$argon2id$v=19$m=32768,t=3,p=2$"@);
}

/// Hashes a password with Argon2id, version 0x13, memory cost 32 MiB, time
/// cost 3 and parallelism 2, under a fresh random salt. Hashing succeeds for
/// any password of at most 0x3FFF_FFFF characters. The hash parses, accepts
/// the password, records these costs, has 97 characters, and so is never a
/// password that does not begin with `$` or does not have 97 characters.
pub fn hash_password(raw: &str) -> (r: Result<String, Error>)
    ensures
        raw@.len() <= 0x3FFF_FFFF ==> r is Ok,
        r matches Ok(h) ==> phc_parses(h@) && argon2_accepts(raw@, h@),
        r matches Ok(h) ==> "$argon2id$v=19$m=32768,t=3,p=2$"@.is_prefix_of(h@),
        r matches Ok(h) ==> h@.len() == 97,
        r matches Ok(h) ==> (raw@.len() != 97 || raw@[0] != '$') ==> h@ != raw@,
        r matches Err(e) ==> e is HashError,
{
    match argon2id_hash(raw, ARGON2_M_COST, ARGON2_T_COST, ARGON2_P_COST) {
        Ok(h) => {
            proof {
                lemma_password_hash_prefix();
                reveal_strlit("$argon2id$v=19$m=32768,t=3,p=2$");
                let ghost p = "$argon2id$v=19$m=32768,t=3,p=2$"@;
                assert(p.len() > 0 && p[0] == '$');
                assert(h@.subrange(0, p.len() as int)[0] == h@[0]);
                assert(h@.len() > 0 && h@[0] == '$');
                assert(p.len() == 31);
            }
            Ok(h)
        },
        Err(m) => Err(Error::HashError(m)),
    }
}

/// What checking a password against a stored hash gives: `None` when the
/// hash does not parse, else whether Argon2 accepts the password.
pub open spec fn password_check(pwd: Seq<char>, hash: Seq<char>) -> Option<bool> {
    if phc_parses(hash) {
        Some(argon2_accepts(pwd, hash))
    } else {
        None
    }
}

/// Checks the entered password against its stored hash.
pub fn validate_password(pwd: &str, hash: &str) -> (r: Result<bool, Error>)
    ensures
        r matches Ok(b) ==> password_check(pwd@, hash@) == Some(b),
        r is Err ==> password_check(pwd@, hash@) is None,
        r matches Err(e) ==> e is HashError,
{
    match argon2_verify(pwd, hash) {
        Ok(b) => Ok(b),
        Err(m) => Err(Error::HashError(m)),
    }
}

/// A password hashed by `hash_password` passes `validate_password`.
pub proof fn law_hashed_password_verifies(pwd: Seq<char>, hash: Seq<char>)
    requires
        phc_parses(hash) && argon2_accepts(pwd, hash),
    ensures
        password_check(pwd, hash) == Some(true),
{
}

/// What a login with `password` answers for the user found by email.
pub open spec fn login_outcome(user: Option<DbUser>, password: Seq<char>) -> Result<DbUser, Error> {
    match user {
        None => Err(Error::InvalidCredentials),
        Some(u) => match password_check(password, u.password@) {
            Some(true) => Ok(u),
            Some(false) => Err(Error::InvalidCredentials),
            None => Err(Error::HashError(arbitrary())),
        },
    }
}

/// Checks login credentials: the user found by the email (if any) and the
/// entered password. An unknown email and a wrong password are both
/// answered with invalid credentials; a stored hash that does not parse is
/// a hashing failure.
pub fn check_credentials(user: Option<DbUser>, password: &str) -> (r: Result<DbUser, Error>)
    ensures
        r is Ok <==> login_outcome(user, password@) is Ok,
        r matches Ok(u) ==> login_outcome(user, password@) == Ok::<DbUser, Error>(u),
        r matches Err(e) ==> match login_outcome(user, password@) {
            Err(Error::HashError(_)) => e is HashError,
            Err(other) => e == other,
            Ok(_) => false,
        },
{
    let u = match user {
        None => return Err(Error::InvalidCredentials),
        Some(u) => u,
    };
    match validate_password(password, u.password.as_str()) {
        Ok(true) => Ok(u),
        Ok(false) => Err(Error::InvalidCredentials),
        Err(e) => Err(e),
    }
}

/// Refuses a registration whose username or email is taken.
pub fn check_unique(username_taken: bool, email_taken: bool) -> (r: Result<(), Error>)
    ensures
        r is Ok <==> !username_taken && !email_taken,
        r matches Err(e) ==> e is AlreadyExists,
{
    if username_taken || email_taken {
        Err(Error::AlreadyExists)
    } else {
        Ok(())
    }
}

/// The account that a registration creates: a new regular user with the
/// request's email and processed username, and the password hashed. It is
/// created for every password of at most 0x3FFF_FFFF characters.
pub fn new_account(req: &RegisterRequest) -> (r: Result<DbUser, Error>)
    ensures
        r matches Ok(u) ==> {
            &&& u.email@ == req.email@
            &&& u.username@ == username_form(req.username@)
            &&& u.role == Role::Regular
            &&& u.avatar_url is None
            &&& u.banner_url is None
            &&& earliest_instant() <= u.created <= latest_instant()
            &&& phc_parses(u.password@)
            &&& argon2_accepts(req.password@, u.password@)
            &&& "$argon2id$v=19$m=32768,t=3,p=2$"@.is_prefix_of(u.password@)
            &&& u.password@.len() == 97
            &&& (req.password@.len() != 97 || req.password@[0] != '$') ==> u.password@ != req.password@
        },
        req.password@.len() <= 0x3FFF_FFFF ==> r is Ok,
        r matches Err(e) ==> e is HashError,
{
    let hash = hash_password(req.password.as_str())?;
    Ok(DbUser::new(req.email.as_str(), hash.as_str(), req.username.as_str()))
}

/// A registered account can log in with the password it registered with.
pub proof fn law_registered_account_logs_in(u: DbUser, password: Seq<char>)
    requires
        phc_parses(u.password@),
        argon2_accepts(password, u.password@),
    ensures
        login_outcome(Some(u), password) == Ok::<DbUser, Error>(u),
{
}

} // verus!
