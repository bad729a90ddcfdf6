use justpic::cache::{account_cache_keys, pick_cache_key, user_cache_key, DEFAULT_CACHE_TTL};
use justpic::sessions::DbSession;
use justpic::storage::{
    chars_in_bytes, get_error, pick_upload_names, put_error, served_content_type, storage_key,
    upload_names, GetFailure, PutFailure, StorageError, TempFile, TempFileError,
};
use justpic::users::DbUser;

#[test]
fn storage_keys() {
    assert_eq!(storage_key("abcdef"), "ab/cd/abcdef");
    assert_eq!(storage_key("abcd"), "ab/cd/abcd");
    // two-byte characters: the first two bytes are one character
    assert_eq!(storage_key("éàx"), "é/à/éàx");
    assert_eq!(chars_in_bytes("éàx", 2), Some(1));
    assert_eq!(chars_in_bytes("aé", 2), None);
    assert_eq!(chars_in_bytes("a", 4), None);
    assert_eq!(chars_in_bytes("", 0), Some(0));
}

#[test]
fn upload_names_and_lookup_agree() {
    let (key, name) = upload_names("abcdef", Some("png"));
    assert_eq!(key, "ab/cd/abcdef.png");
    assert_eq!(name, "abcdef.png");
    assert_eq!(storage_key(&name), key);
    let (key2, name2) = upload_names("abcdef", None);
    assert_eq!(key2, "ab/cd/abcdef.bin");
    assert_eq!(name2, "abcdef.bin");
    let (k, n) = pick_upload_names(0x67e55044_10b1_426f_9247_bb680e5fe0c8, Some("jpeg"));
    assert_eq!(n, "67e55044-10b1-426f-9247-bb680e5fe0c8.jpeg");
    assert_eq!(k, "67/e5/67e55044-10b1-426f-9247-bb680e5fe0c8.jpeg");
    assert_eq!(storage_key(&n), k);
}

#[test]
fn temp_files() {
    let t = TempFile::from_stream(0u8);
    assert_eq!(t.get_storage_key().unwrap_err(), TempFileError::NotInitialized);
    assert_eq!(TempFileError::NotInitialized.message(), "TempFile was not initialized");
    assert_eq!(t.saved_path().unwrap_err(), TempFileError::NotCreated);
    assert_eq!(TempFileError::NotCreated.message(), "TempFile was not created yet");
    let mut t = t.with_id("1234abcd".to_string());
    assert_eq!(t.get_storage_key().unwrap(), "12/34/1234abcd");
    assert_eq!(t.saved_name().unwrap(), "1234abcd");
    t.mark_saved("./tmp/1234abcd".to_string());
    assert_eq!(t.saved_path().unwrap(), "./tmp/1234abcd");
    *t.stream_mut() = 9;
    assert_eq!(*t.stream_mut(), 9);
}

#[test]
fn store_failures() {
    assert!(matches!(put_error(PutFailure::InvalidRequest), StorageError::InvalidRequest));
    assert!(matches!(put_error(PutFailure::TooManyParts), StorageError::TooManyParts));
    match put_error(PutFailure::Other("boom".into())) {
        StorageError::SdkError(m) => assert_eq!(m, "PUT ERROR: boom"),
        other => panic!("unexpected {other:?}"),
    }
    assert!(matches!(get_error(GetFailure::NoSuchKey), StorageError::NotFound));
    assert!(matches!(get_error(GetFailure::InvalidObjectState), StorageError::InvalidState));
    match get_error(GetFailure::Other("x".into())) {
        StorageError::SdkError(m) => assert_eq!(m, "GET ERROR: x"),
        other => panic!("unexpected {other:?}"),
    }
    assert_eq!(served_content_type(None), "bin");
    assert_eq!(served_content_type(Some("image/png".into())), "image/png");
}

#[test]
fn cache_keys() {
    assert_eq!(DEFAULT_CACHE_TTL, 300);
    assert_eq!(user_cache_key("johndoe"), "user:johndoe");
    assert_eq!(pick_cache_key(1), "pick:00000000-0000-0000-0000-000000000001");
    let user = DbUser::new("a@b.c", "h", "John");
    let s1 = DbSession::new(&user, None);
    let s2 = DbSession::new(&user, None);
    let keys = account_cache_keys(&user, &vec![s1.clone(), s2.clone()]);
    assert_eq!(keys.len(), 3);
    assert_eq!(keys[0], "user:john");
    assert_eq!(keys[1], format!("session:{}", s1.session_key));
    assert_eq!(keys[2], format!("session:{}", s2.session_key));
}
