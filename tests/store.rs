use flip_button::store::{
    collect_references, insert_outcome, AddFailure, InsertOutcome, DB_NAME, DB_VERSION,
    INDEX_FIELDS, INDEX_NAME, STORE_NAME,
};

#[test]
fn schema_names() {
    assert_eq!(DB_NAME, "mb");
    assert_eq!(DB_VERSION, 1);
    assert_eq!(STORE_NAME, "buttons");
    assert_eq!(INDEX_NAME, "file");
    assert_eq!(INDEX_FIELDS, ["name", "lastModified", "size", "type"]);
}

#[test]
fn same_asset_twice_is_stored_once() {
    let first = insert_outcome(Ok(()));
    let second = insert_outcome(Err(AddFailure::AlreadyExists));
    assert_eq!(first, InsertOutcome::Stored);
    assert_eq!(second, InsertOutcome::AlreadyStored);
    assert!(first.commits());
    assert!(!second.commits());
    assert!(first.is_kept());
    assert!(second.is_kept());
}

#[test]
fn backend_failure_is_not_kept() {
    let r = insert_outcome(Err(AddFailure::Other));
    assert_eq!(r, InsertOutcome::Failed);
    assert!(!r.commits());
    assert!(!r.is_kept());
}

#[test]
fn references_keep_order_and_drop_failures() {
    let got = collect_references(vec![
        Some("blob:1".to_string()),
        None,
        Some("blob:2".to_string()),
        None,
    ]);
    assert_eq!(got, vec!["blob:1".to_string(), "blob:2".to_string()]);
    assert!(collect_references(Vec::new()).is_empty());
    assert!(collect_references(vec![None, None]).is_empty());
}
