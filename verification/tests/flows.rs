use justpic::cache::{CacheAction, CacheEvent, CacheFlow, DEFAULT_CACHE_TTL};
use justpic::core_error::Error as CoreError;
use justpic::api::{Field, FieldError, ValidationErrors};
use justpic::picks::Status;
use justpic::server_error::Error;
use justpic::storage::StorageError;
use justpic::upload::{UploadAction, UploadEvent, UploadFlow};

#[test]
fn cache_hit_returns_cached_value() {
    let f: CacheFlow<u32, String> = CacheFlow::new();
    let (f, a) = f.step(CacheEvent::Begin);
    assert!(matches!(a, CacheAction::ReadCache));
    let (f, a) = f.step(CacheEvent::CacheRead(Some("41".into())));
    assert!(matches!(a, CacheAction::Parse(ref t) if t == "41"));
    let (f, a) = f.step(CacheEvent::Parsed(Some(41)));
    assert!(matches!(a, CacheAction::Return));
    assert_eq!(f.into_result(), Some(Ok(41)));
}

#[test]
fn cache_miss_fetches_and_stores() {
    let f: CacheFlow<u32, String> = CacheFlow::new();
    let (f, _) = f.step(CacheEvent::Begin);
    let (f, a) = f.step(CacheEvent::CacheRead(None));
    assert!(matches!(a, CacheAction::Fetch));
    let (f, a) = f.step(CacheEvent::Fetched(Ok(7)));
    assert!(matches!(a, CacheAction::Serialize));
    assert_eq!(f.pending_value(), Some(&7));
    let (f, a) = f.step(CacheEvent::Serialized(Some("7".into())));
    match a {
        CacheAction::Store(t, ttl) => {
            assert_eq!(t, "7");
            assert_eq!(ttl, DEFAULT_CACHE_TTL);
        }
        other => panic!("unexpected {other:?}"),
    }
    let (f, a) = f.step(CacheEvent::Stored);
    assert!(matches!(a, CacheAction::Return));
    assert_eq!(f.into_result(), Some(Ok(7)));
}

#[test]
fn cache_unreadable_then_failed_fetch() {
    let f: CacheFlow<u32, String> = CacheFlow::new();
    let (f, _) = f.step(CacheEvent::Begin);
    let (f, _) = f.step(CacheEvent::CacheRead(Some("garbage".into())));
    let (f, a) = f.step(CacheEvent::Parsed(None));
    assert!(matches!(a, CacheAction::Fetch));
    let (f, a) = f.step(CacheEvent::Fetched(Err("db down".into())));
    assert!(matches!(a, CacheAction::Return));
    assert_eq!(f.into_result(), Some(Err("db down".to_string())));
    // an event that does not fit repeats the request
    let f: CacheFlow<u32, String> = CacheFlow::new();
    let (f, _) = f.step(CacheEvent::Begin);
    let (f, a) = f.step(CacheEvent::Stored);
    assert!(matches!(a, CacheAction::ReadCache));
    assert!(f.into_result().is_none());
}

#[test]
fn upload_success_marks_ready() {
    let f = UploadFlow::new();
    let (f, a) = f.step(UploadEvent::Begin);
    assert!(matches!(a, UploadAction::SetStatus(Status::Processing)));
    let (f, a) = f.step(UploadEvent::StatusSet(Ok(())));
    assert!(matches!(a, UploadAction::Upload));
    let (f, a) = f.step(UploadEvent::Uploaded(Ok("x.png".into())));
    assert!(matches!(a, UploadAction::SetFileUrl(ref n) if n == "x.png"));
    let (f, a) = f.step(UploadEvent::FileUrlSet(Ok(())));
    assert!(matches!(a, UploadAction::SetStatus(Status::Ready)));
    let (f, a) = f.step(UploadEvent::StatusSet(Ok(())));
    assert!(matches!(a, UploadAction::Finish));
    assert!(matches!(f.outcome(), Some(Ok(()))));
}

#[test]
fn upload_failure_marks_failed() {
    let f = UploadFlow::new();
    let (f, _) = f.step(UploadEvent::Begin);
    let (f, _) = f.step(UploadEvent::StatusSet(Ok(())));
    let (f, a) = f.step(UploadEvent::Uploaded(Err(StorageError::TooManyParts)));
    assert!(matches!(a, UploadAction::SetStatus(Status::Failed)));
    let (f, _) = f.step(UploadEvent::StatusSet(Ok(())));
    assert!(matches!(f.outcome(), Some(Err(Error::InternalError))));

    let f = UploadFlow::new();
    let (f, _) = f.step(UploadEvent::Begin);
    let (f, a) = f.step(UploadEvent::StatusSet(Err(Error::DatabaseError("gone".into()))));
    assert!(matches!(a, UploadAction::Finish));
    assert!(matches!(f.outcome(), Some(Err(Error::DatabaseError(ref m))) if m == "gone"));
}

#[test]
fn error_statuses_and_texts() {
    assert_eq!(Error::NotFound.status_code(), 404);
    assert_eq!(Error::AlreadyExists.status_code(), 409);
    assert_eq!(Error::Unauthorized.status_code(), 401);
    assert_eq!(Error::Forbidden.status_code(), 403);
    assert_eq!(Error::InvalidCredentials.status_code(), 400);
    assert_eq!(Error::BadRequest.status_code(), 400);
    assert_eq!(Error::JsonError.status_code(), 500);
    assert_eq!(Error::HashError("h".into()).status_code(), 500);
    let v = ValidationErrors { errors: vec![FieldError { field: Field::Email, value: "a\"b".to_string() }] };
    assert_eq!(Error::ValidationError(v.clone()).status_code(), 400);
    assert_eq!(Error::NotFound.to_text(), "NotFound");
    assert_eq!(Error::DatabaseError("boom".into()).to_text(), "boom");
    assert_eq!(Error::ValidationError(v.clone()).to_text(), "email: Validation error: email [{\"value\": String(\"a\\\"b\")}]");

    assert_eq!(CoreError::NotFound.status_code(), 404);
    assert_eq!(CoreError::ValidationError(v.clone()).status_code(), 400);
    assert_eq!(CoreError::InternalError.status_code(), 500);
    assert_eq!(CoreError::DatabaseError("x".into()).to_text(), "DATABASE_ERROR");
    assert_eq!(CoreError::JsonError("x".into()).to_text(), "JSON_PARSE_ERROR");
    assert_eq!(CoreError::ValidationError(v).to_text(), "VALIDATION_ERROR: email: Validation error: email [{\"value\": String(\"a\\\"b\")}]");
}

#[test]
fn error_response() {
    let e = justpic::api::ErrorResponse::new(500, "UNDEFINED_ERROR".to_string());
    assert_eq!(e.code(), 500);
    assert_eq!(e.message(), "UNDEFINED_ERROR");
}
