use visdata::common::generate_id;
use visdata::enterprise::is_enterprise_enabled;
use visdata::error::Error;
use visdata::meta::audit::{audit_flag, audit_interval};
use visdata::meta::types::{ListResponse, MessageResponse};
use visdata::sorted::str_lt;

#[test]
fn test_is_enterprise_enabled() {
    assert!(is_enterprise_enabled());
}

#[test]
fn test_generate_id() {
    let id1 = generate_id();
    let id2 = generate_id();

    assert_ne!(id1, id2);
    assert_eq!(id1.len(), 27);
}

#[test]
fn module_error_texts() {
    assert_eq!(Error::AlreadyInitialized.message(), "Already initialized");
    assert_eq!(Error::NotInitialized.message(), "Not initialized");
    assert_eq!(Error::OpenFGA("x".into()).message(), "OpenFGA error: x");
    assert_eq!(Error::Dex("y".into()).message(), "Dex error: y");
    assert_eq!(Error::Config("c".into()).message(), "Configuration error: c");
    assert_eq!(Error::Internal("i".into()).message(), "Internal error: i");
}

#[test]
fn responses_hold_what_they_are_given() {
    assert_eq!(MessageResponse::new("done").message, "done");
    let list = ListResponse::new(vec![1, 2, 3]);
    assert_eq!(list.total, 3);
    assert_eq!(list.items, vec![1, 2, 3]);
}

#[test]
fn audit_flag_reads_true_or_one() {
    assert!(audit_flag(Some("TRUE")));
    assert!(audit_flag(Some("1")));
    assert!(!audit_flag(Some("yes")));
    assert!(!audit_flag(None));
}

#[test]
fn strings_order_by_characters() {
    assert!(str_lt("abc", "abd"));
    assert!(str_lt("ab", "abc"));
    assert!(!str_lt("b", "abc"));
    assert!(!str_lt("same", "same"));
    assert!(str_lt("Z", "a"));
}

#[test]
fn audit_interval_defaults_to_thirty_seconds() {
    assert_eq!(audit_interval(None), 30);
    assert_eq!(audit_interval(Some("45")), 45);
    assert_eq!(audit_interval(Some("soon")), 30);
}
