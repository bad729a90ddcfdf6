use justpic::api::{Field, LoginRequest, RegisterRequest, ValidationErrors};
use justpic::auth::{
    check_credentials, check_session_access, check_unique, generate_session_cache_key,
    generate_session_cookie, hash_password, new_account, reject_active_session,
    role_lookup_needed, session_cache_ttl, validate_password, SESSION_COOKIE_NAME,
};
use justpic::roles::Role;
use justpic::server_error::Error;
use justpic::sessions::{generate_session_key, session_expiry, DbSession, SESSION_TTL_INT};
use justpic::users::DbUser;

fn failed(e: ValidationErrors) -> Vec<Field> {
    e.errors.iter().map(|f| f.field).collect()
}

#[test]
fn test_password_hashing() {
    let test_pass = "hunter42";

    let hashed = hash_password(test_pass).unwrap();

    assert!(test_pass != hashed)
}

#[test]
fn test_request_body_dto_validator() {
    let test_dto = RegisterRequest {
        email: "invalid email!!".to_string(),
        password: "abc".to_string(),
        username: ":)".to_string(),
    };

    assert!(test_dto.validate().is_err());
}

#[test]
fn register_validation_lists_every_failed_field() {
    let bad = RegisterRequest {
        email: "invalid email!!".to_string(),
        password: "abc".to_string(),
        username: ":)".to_string(),
    };
    let errs = bad.validate().unwrap_err();
    assert_eq!(errs.errors[1].value, "abc");
    assert_eq!(
        errs.describe(),
        "email: Validation error: email [{\"value\": String(\"invalid email!!\")}]\n\
         password: Validation error: length [{\"min\": Number(8), \"max\": Number(224), \"value\": String(\"abc\")}]\n\
         username: Validation error: length [{\"min\": Number(3), \"max\": Number(128), \"value\": String(\":)\")}]"
    );
    assert_eq!(failed(errs), vec![Field::Email, Field::Password, Field::Username]);

    let good = RegisterRequest {
        email: "user@example.com".to_string(),
        password: "hunter42".to_string(),
        username: "JohnDoe".to_string(),
    };
    assert!(good.validate().is_ok());

    let long_name = RegisterRequest {
        email: "user@example.com".to_string(),
        password: "x".repeat(224),
        username: "u".repeat(129),
    };
    assert_eq!(failed(long_name.validate().unwrap_err()), vec![Field::Username]);
}

#[test]
fn login_validation_bounds() {
    let ok = LoginRequest { email: "user@example.com".to_string(), password: "12345678".to_string() };
    assert!(ok.validate().is_ok());
    let short = LoginRequest { email: "user@example.com".to_string(), password: "1234567".to_string() };
    assert_eq!(failed(short.validate().unwrap_err()), vec![Field::Password]);
    let long = LoginRequest { email: "user@example.com".to_string(), password: "p".repeat(225) };
    assert_eq!(failed(long.validate().unwrap_err()), vec![Field::Password]);
    let no_at = LoginRequest { email: "userexample.com".to_string(), password: "12345678".to_string() };
    assert_eq!(failed(no_at.validate().unwrap_err()), vec![Field::Email]);
    // length counts characters, not bytes
    let wide = LoginRequest { email: "user@example.com".to_string(), password: "ääää".to_string() };
    assert_eq!(failed(wide.validate().unwrap_err()), vec![Field::Password]);
}

#[test]
fn hashed_password_verifies_and_wrong_one_does_not() {
    let hash = hash_password("correct horse").unwrap();
    assert!(hash.starts_with("$argon2id$v=19$m=32768,t=3,p=2$"));
    assert_eq!(hash.len(), 97);
    assert_eq!(validate_password("correct horse", &hash).unwrap(), true);
    assert_eq!(validate_password("wrong horse", &hash).unwrap(), false);
    assert!(matches!(validate_password("x", ""), Err(Error::HashError(_))));
    assert!(matches!(validate_password("x", "not a hash"), Err(Error::HashError(_))));
}

#[test]
fn credentials_are_checked() {
    let hash = hash_password("hunter42").unwrap();
    let user = DbUser::new("a@b.c", &hash, "john");
    assert!(matches!(check_credentials(None, "hunter42"), Err(Error::InvalidCredentials)));
    assert!(matches!(check_credentials(Some(user.clone()), "hunter43"), Err(Error::InvalidCredentials)));
    let logged = check_credentials(Some(user.clone()), "hunter42").unwrap();
    assert_eq!(logged.id, user.id);
}

#[test]
fn registered_account_logs_in() {
    let req = RegisterRequest {
        email: "user@example.com".to_string(),
        password: "hunter42".to_string(),
        username: "John Doe".to_string(),
    };
    let user = new_account(&req).unwrap();
    assert_eq!(user.username, "john_doe");
    assert_eq!(user.email, "user@example.com");
    assert_ne!(user.password, "hunter42");
    assert!(check_credentials(Some(user), "hunter42").is_ok());
}

#[test]
fn session_keys_and_cache_keys() {
    let key = generate_session_key();
    assert_eq!(key.len(), 88);
    assert!(key.ends_with("=="));
    assert_ne!(key, generate_session_key());
    assert_eq!(generate_session_cache_key("abc"), "session:abc");
    assert_eq!(generate_session_cache_key(""), "session:");
}

#[test]
fn session_lifetime_and_cookie() {
    let user = DbUser::new("a@b.c", "h", "john");
    let s = DbSession::new(&user, Some("Firefox"));
    assert_eq!(s.user_id, user.id);
    assert_eq!(s.user_agent.as_deref(), Some("Firefox"));
    assert_eq!(s.expires - s.created, 28 * 86_400_000_000_000);
    assert_eq!(session_expiry(0), 2_419_200_000_000_000);
    assert_eq!(SESSION_TTL_INT, 28);
    assert_eq!(session_cache_ttl(), 2_419_200);
    let c = generate_session_cookie(&s);
    assert_eq!(c.name, SESSION_COOKIE_NAME);
    assert_eq!(c.name, "user_session");
    assert_eq!(c.value, s.session_key);
    assert_eq!(c.path, "/");
    assert!(c.http_only);
    assert_eq!(c.expires, s.expires);
    let anon = DbSession::new(&user, None);
    assert!(anon.user_agent.is_none());
}

fn session_of(user: &DbUser) -> DbSession {
    DbSession::new(user, None)
}

#[test]
fn access_is_checked_by_role() {
    let user = DbUser::new("a@b.c", "h", "john");
    assert!(matches!(check_session_access(Role::Regular, None, None), Err(Error::Unauthorized)));
    assert!(check_session_access(Role::Regular, Some(session_of(&user)), None).is_ok());
    assert!(!role_lookup_needed(Role::Regular));
    assert!(role_lookup_needed(Role::Moderator));
    assert!(role_lookup_needed(Role::Admin));
    assert!(matches!(
        check_session_access(Role::Moderator, Some(session_of(&user)), None),
        Err(Error::Unauthorized)
    ));
    assert!(matches!(
        check_session_access(Role::Moderator, Some(session_of(&user)), Some(Role::Regular)),
        Err(Error::Forbidden)
    ));
    assert!(check_session_access(Role::Moderator, Some(session_of(&user)), Some(Role::Moderator)).is_ok());
    assert!(check_session_access(Role::Moderator, Some(session_of(&user)), Some(Role::Admin)).is_ok());
    assert!(matches!(
        check_session_access(Role::Admin, Some(session_of(&user)), Some(Role::Moderator)),
        Err(Error::Forbidden)
    ));
    assert!(check_session_access(Role::Admin, Some(session_of(&user)), Some(Role::Admin)).is_ok());
}

#[test]
fn active_session_and_uniqueness() {
    assert!(reject_active_session(false).is_ok());
    assert!(matches!(reject_active_session(true), Err(Error::AlreadyExists)));
    assert!(check_unique(false, false).is_ok());
    assert!(matches!(check_unique(true, false), Err(Error::AlreadyExists)));
    assert!(matches!(check_unique(false, true), Err(Error::AlreadyExists)));
}
