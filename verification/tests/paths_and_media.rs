use bamboo_storage::attachments::{
    append_token_usage_record, extension_to_mime, hex_text, image_attachment, image_source,
    mime_to_extension, parse_data_url_base64, read_attachment, session_write_lock_path,
    write_image_attachment,
};
use bamboo_storage::error::{ErrorKind, StorageError};
use bamboo_storage::index::SessionsIndex;
use bamboo_storage::paths::{extension, file_name, file_stem, fresh_id, validate_session_id};
use bamboo_storage::session::Session;
use bamboo_storage::store::SessionStoreV2;
use bamboo_storage::time::Timestamp;

fn at(secs: i64) -> Timestamp {
    Timestamp { secs, nanos: 0 }
}

#[test]
fn test_validate_session_id_empty() {
    assert!(validate_session_id("").is_err());
}

#[test]
fn test_validate_session_id_with_slash() {
    assert!(validate_session_id("session/1").is_err());
}

#[test]
fn test_validate_session_id_with_backslash() {
    assert!(validate_session_id("session\\1").is_err());
}

#[test]
fn test_validate_session_id_with_double_dot() {
    assert!(validate_session_id("session..1").is_err());
}

#[test]
fn test_validate_session_id_valid() {
    assert!(validate_session_id("session-123").is_ok());
}

#[test]
fn an_invalid_session_id_is_named_in_the_error() {
    let e = validate_session_id("a/b").unwrap_err();
    assert_eq!(e.kind, ErrorKind::Other);
    assert_eq!(e.message, "invalid session id: a/b");
    assert!(!e.authority_conflict);
}

#[test]
fn test_root_rel_path() {
    let path = SessionStoreV2::root_rel_path("session-123");
    assert_eq!(path, "sessions/session-123");
}

#[test]
fn test_child_rel_path() {
    let path = SessionStoreV2::child_rel_path("root-1", "child-2");
    assert_eq!(path, "sessions/root-1/children/child-2");
}

#[test]
fn test_mime_to_extension() {
    assert_eq!(mime_to_extension("image/png"), Some("png"));
    assert_eq!(mime_to_extension("image/jpeg"), Some("jpg"));
    assert_eq!(mime_to_extension("image/webp"), Some("webp"));
    assert_eq!(mime_to_extension("image/gif"), Some("gif"));
    assert_eq!(mime_to_extension("image/bmp"), Some("bmp"));
    assert_eq!(mime_to_extension("unknown/type"), None);
}

#[test]
fn test_extension_to_mime() {
    assert_eq!(extension_to_mime("png"), Some("image/png"));
    assert_eq!(extension_to_mime("jpg"), Some("image/jpeg"));
    assert_eq!(extension_to_mime("jpeg"), Some("image/jpeg"));
    assert_eq!(extension_to_mime("webp"), Some("image/webp"));
    assert_eq!(extension_to_mime("gif"), Some("image/gif"));
    assert_eq!(extension_to_mime("bmp"), Some("image/bmp"));
    assert_eq!(extension_to_mime("unknown"), None);
}

#[test]
fn test_extension_to_mime_case_insensitive() {
    assert_eq!(extension_to_mime("PNG"), Some("image/png"));
    assert_eq!(extension_to_mime("JPG"), Some("image/jpeg"));
    assert_eq!(extension_to_mime("JPEG"), Some("image/jpeg"));
}

#[test]
fn test_extension_to_mime_with_whitespace() {
    assert_eq!(extension_to_mime("  png  "), Some("image/png"));
    assert_eq!(extension_to_mime("\tjpg\t"), Some("image/jpeg"));
}

#[test]
fn image_types_are_found_whatever_their_case() {
    assert_eq!(mime_to_extension(" IMAGE/PNG "), Some("png"));
    assert_eq!(mime_to_extension("image/JPEG"), Some("jpg"));
    assert_eq!(mime_to_extension(""), None);
}

#[test]
fn data_urls_give_their_type_and_payload() {
    assert_eq!(
        parse_data_url_base64(" data:image/png;base64, aGk= "),
        Some(("image/png".to_string(), "aGk=".to_string()))
    );
    assert_eq!(
        parse_data_url_base64("data: image/gif ;charset=x;base64,AA,BB"),
        Some(("image/gif".to_string(), "AA,BB".to_string()))
    );
    assert_eq!(parse_data_url_base64("data:image/png,abc"), None);
    assert_eq!(parse_data_url_base64("data:image/png;base64"), None);
    assert_eq!(parse_data_url_base64("http://x;base64,abc"), None);
}

#[test]
fn raw_images_take_the_hinted_type() {
    assert_eq!(
        image_source(" aGk= ", None),
        ("image/png".to_string(), "aGk=".to_string())
    );
    assert_eq!(
        image_source("aGk=", Some(" image/webp ")),
        ("image/webp".to_string(), "aGk=".to_string())
    );
    assert_eq!(
        image_source("data:image/bmp;base64,QQ==", Some("image/webp")),
        ("image/bmp".to_string(), "QQ==".to_string())
    );
}

#[test]
fn a_written_image_is_decoded_and_found_again() {
    let s = Session::new_root("root-1", "m", "t", at(1));
    let p = write_image_attachment(&s, "data:image/jpeg;base64,aGVsbG8=", None).unwrap();
    assert_eq!(p.bytes, b"hello".to_vec());
    assert_eq!(p.attachment_id.len(), 36);
    assert_eq!(p.rel_path, "sessions/root-1");
    assert_eq!(p.file_name, format!("{}.jpg", p.attachment_id));
    assert_eq!(
        p.url,
        format!("bamboo-attachment://root-1/{}", p.attachment_id)
    );
    let names = vec!["other.png".to_string(), p.file_name.clone()];
    let found = read_attachment("root-1", &p.attachment_id, &names, &None).unwrap();
    assert_eq!(found, Some((p.file_name.clone(), "image/jpeg".to_string())));
    let again = write_image_attachment(&s, "aGVsbG8=", None).unwrap();
    assert_ne!(again.attachment_id, p.attachment_id);
}

#[test]
fn an_image_that_is_no_base64_is_refused() {
    let s = Session::new_root("root-1", "m", "t", at(1));
    let e = write_image_attachment(&s, "!!!", None).err().unwrap();
    assert_eq!(e.kind, ErrorKind::Other);
    assert!(e.message.starts_with("invalid base64 image data: "));
}

#[test]
fn an_image_of_unknown_type_is_kept_as_plain_bytes() {
    let s = Session::new_root("root-1", "m", "t", at(1));
    let p = image_attachment(&s, "image/tiff", Ok(vec![1, 2]), "abc".to_string()).unwrap();
    assert_eq!(p.file_name, "abc.bin");
    let found = read_attachment("root-1", "abc", &vec!["abc.bin".to_string()], &None).unwrap();
    assert_eq!(
        found,
        Some(("abc.bin".to_string(), "application/octet-stream".to_string()))
    );
    let e = image_attachment(&s, "image/png", Err("bad".to_string()), "abc".to_string())
        .err()
        .unwrap();
    assert_eq!(e.message, "invalid base64 image data: bad");
}

#[test]
fn attachments_match_on_the_whole_id() {
    let names = vec!["abcd.png".to_string(), "abc".to_string(), "abc.".to_string()];
    assert_eq!(read_attachment("s", "abc", &names, &None).unwrap(), None);
    let failure = Some(StorageError::new(ErrorKind::System(5), "io".to_string()));
    let e = read_attachment("s", "abc", &names, &failure).unwrap_err();
    assert_eq!(e.message, "io");
    assert!(read_attachment("s", "a/b", &names, &None).is_err());
    assert!(read_attachment("a..b", "abc", &names, &None).is_err());
    let more = vec!["abc.tar.GIF".to_string()];
    assert_eq!(
        read_attachment("s", "abc", &more, &failure).unwrap(),
        Some(("abc.tar.GIF".to_string(), "image/gif".to_string()))
    );
}

#[test]
fn lock_files_are_named_by_digest() {
    assert_eq!(
        session_write_lock_path("abc"),
        ".session-write-locks/ba7816bf8f01cfea414140de5dae2223b00361a396177a9cb410ff61f20015ad.lock"
    );
    assert_eq!(hex_text(&vec![0, 15, 160, 255]), "000fa0ff");
    let store = SessionStoreV2::new("/home/b".to_string(), SessionsIndex::empty(at(0)));
    assert!(store
        .session_write_lock_path("abc")
        .starts_with("/home/b/.session-write-locks/ba7816bf"));
}

#[test]
fn token_usage_is_one_line_each() {
    assert_eq!(
        append_token_usage_record("s", &Some("sessions/s".to_string()), "{}\n\n").unwrap(),
        Some(("sessions/s/token-usage.jsonl".to_string(), "{}\n".to_string()))
    );
    assert_eq!(append_token_usage_record("s", &None, "{}").unwrap(), None);
    assert!(append_token_usage_record("a/b", &None, "{}").is_err());
}

#[test]
fn file_names_split_at_their_last_dot() {
    assert_eq!(file_name("a/b.c"), Some("b.c".to_string()));
    assert_eq!(file_stem("a/b.c.d"), Some("b.c".to_string()));
    assert_eq!(extension("a/b.c.d"), Some("d".to_string()));
    assert_eq!(extension(".hidden"), None);
    assert_eq!(file_stem(".hidden"), Some(".hidden".to_string()));
}

#[test]
fn fresh_names_are_uuids() {
    let a = fresh_id();
    let b = fresh_id();
    assert_eq!(a.len(), 36);
    assert_ne!(a, b);
    assert!(a.chars().all(|c| c.is_ascii_hexdigit() || c == '-'));
}

#[test]
fn the_store_knows_its_paths() {
    let store = SessionStoreV2::new("/home/b".to_string(), SessionsIndex::empty(at(0)));
    assert_eq!(store.bamboo_home_dir(), "/home/b");
    assert_eq!(store.index_path(), "/home/b/sessions.json");
    assert_eq!(store.sessions_root_dir(), "/home/b/sessions");
    assert_eq!(store.abs_path_from_rel("x/y"), "/home/b/x/y");
    assert_eq!(store.session_json_path("s"), None);
    assert_eq!(store.attachments_dir("s"), None);
    assert_eq!(store.append_token_usage_record("s", "{}").unwrap(), None);
    assert_eq!(
        store.runtime_task_transaction_dir(),
        "/home/b/.runtime-task-transactions"
    );
    assert_eq!(
        store.session_copy_transaction_dir(),
        "/home/b/.session-copy-transactions"
    );
}
