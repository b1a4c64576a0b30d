use relay_pipeline::log_store::{HashMapLogger, LogError};
use relay_pipeline::message_store::{record_message, VecStoreGetter};

const A: &str = "67e55044-10b1-426f-9247-bb680e5fe0c8";
const B: &str = "a1a2a3a4-b1b2-c1c2-d1d2-d3d4d5d6d7d8";

#[test]
fn logged_message_is_read_back() {
    let mut s = HashMapLogger::new();
    assert_eq!(s.get_all_messages(), "");
    assert_eq!(s.log_message(A, "hello".to_string()), Ok(()));
    assert_eq!(s.get_all_messages(), "hello");
}

#[test]
fn invalid_uuid_is_rejected() {
    let mut s = HashMapLogger::default();
    assert_eq!(s.log_message("not-a-uuid", "x".to_string()), Err(LogError::InvalidUuid));
    assert_eq!(s.get_all_messages(), "");
    assert_eq!(LogError::InvalidUuid.message(), "invalid uuid");
}

#[test]
fn other_uuid_forms_are_accepted() {
    let mut s = HashMapLogger::new();
    assert!(s.log_message("67e5504410b1426f9247bb680e5fe0c8", "a".to_string()).is_ok());
    // the braced form of the same identifier overwrites
    assert!(s
        .log_message("{67e55044-10b1-426f-9247-bb680e5fe0c8}", "b".to_string())
        .is_ok());
    assert_eq!(s.get_all_messages(), "b");
}

#[test]
fn overwrite_keeps_last_body() {
    let mut s = HashMapLogger::new();
    s.log_message(A, "first".to_string()).unwrap();
    s.log_message(B, "other".to_string()).unwrap();
    s.log_message(A, "second".to_string()).unwrap();
    assert_eq!(s.get_all_messages(), "secondother");
}

#[test]
fn identical_retry_is_idempotent() {
    let mut s = HashMapLogger::new();
    s.log_message(A, "same".to_string()).unwrap();
    s.log_message(A, "same".to_string()).unwrap();
    assert_eq!(s.get_all_messages(), "same");
}

#[test]
fn consumed_messages_are_joined() {
    let s = VecStoreGetter::from(vec!["x".to_string(), "y".to_string(), "z".to_string()]);
    assert_eq!(s.get_message(), "x : y : z");
    assert_eq!(VecStoreGetter::new().get_message(), "");
    let one = VecStoreGetter::from(vec!["only".to_string()]);
    assert_eq!(one.get_message(), "only");
}

#[test]
fn consumed_duplicates_are_kept() {
    let mut s = VecStoreGetter::new();
    record_message(&mut s, Some(b"dup".as_slice()));
    record_message(&mut s, Some(b"dup".as_slice()));
    assert_eq!(s.len(), 2);
    assert_eq!(s.get_message(), "dup : dup");
}

#[test]
fn undecodable_payload_records_empty_text() {
    let mut s = VecStoreGetter::new();
    record_message(&mut s, Some([0xff, 0xfe].as_slice()));
    record_message(&mut s, None);
    record_message(&mut s, Some("héllo".as_bytes()));
    assert_eq!(s.len(), 3);
    assert_eq!(s.get_message(), " :  : héllo");
}
