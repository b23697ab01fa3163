use sidecar_core::errors::AppError;
use sidecar_core::store::{Store, StoreFile};

#[test]
fn file_names_are_fixed() {
    assert_eq!(StoreFile::Credentials.file_name(), "credentials.json");
    assert_eq!(StoreFile::EmailSettings.file_name(), "email_settings.json");
}

#[test]
fn saving_malformed_credentials_fails_and_stores_nothing() {
    let mut store = Store::new();
    let e = store
        .save(StoreFile::Credentials, "not json".to_string())
        .unwrap_err();
    assert_eq!(e, AppError::InvalidFormat);
    assert!(store.load(StoreFile::Credentials).is_none());
    assert_eq!(store.load_or_empty(StoreFile::Credentials), "{}");
}

#[test]
fn saving_wellformed_credentials_round_trips() {
    let mut store = Store::new();
    store
        .save(StoreFile::Credentials, "{}".to_string())
        .unwrap();
    assert_eq!(store.load_or_empty(StoreFile::Credentials), "{}");
    assert_eq!(store.load(StoreFile::Credentials).unwrap(), "{}");
}

#[test]
fn loading_absent_settings_returns_empty_object() {
    let store = Store::new();
    assert_eq!(store.load_or_empty(StoreFile::EmailSettings), "{}");
    assert!(store.load(StoreFile::EmailSettings).is_none());
}

#[test]
fn settings_round_trip_returns_exactly_what_was_saved() {
    let mut store = Store::new();
    let blob = "{\"smtp\": \"mail.example.org\", \"port\": 587}".to_string();
    store
        .save(StoreFile::EmailSettings, blob.clone())
        .unwrap();
    assert_eq!(store.load_or_empty(StoreFile::EmailSettings), blob);
}

#[test]
fn settings_are_an_opaque_blob_saved_without_validation() {
    let mut store = Store::new();
    store
        .save(StoreFile::EmailSettings, "not json at all".to_string())
        .unwrap();
    assert_eq!(
        store.load_or_empty(StoreFile::EmailSettings),
        "not json at all"
    );
}

#[test]
fn saving_overwrites_wholesale() {
    let mut store = Store::new();
    store
        .save(StoreFile::EmailSettings, "{\"a\": 1}".to_string())
        .unwrap();
    store
        .save(StoreFile::EmailSettings, "{\"b\": 2}".to_string())
        .unwrap();
    assert_eq!(store.load_or_empty(StoreFile::EmailSettings), "{\"b\": 2}");
}

#[test]
fn saving_one_document_leaves_the_other_untouched() {
    let mut store = Store::new();
    store
        .save(StoreFile::Credentials, "{\"id\": \"c\"}".to_string())
        .unwrap();
    store
        .save(StoreFile::EmailSettings, "{\"s\": true}".to_string())
        .unwrap();
    assert_eq!(store.load_or_empty(StoreFile::Credentials), "{\"id\": \"c\"}");
    assert_eq!(store.load_or_empty(StoreFile::EmailSettings), "{\"s\": true}");
}

#[test]
fn nested_json_credentials_are_accepted() {
    let mut store = Store::new();
    let creds = "{\"installed\": {\"client_id\": \"abc.apps.example\", \"redirect_uris\": [\"http://localhost\"]}}";
    store
        .save(StoreFile::Credentials, creds.to_string())
        .unwrap();
    assert_eq!(store.load_or_empty(StoreFile::Credentials), creds);
}

#[test]
fn truncated_json_credentials_are_rejected() {
    let mut store = Store::new();
    let e = store
        .save(StoreFile::Credentials, "{\"installed\": {".to_string())
        .unwrap_err();
    assert_eq!(e, AppError::InvalidFormat);
    assert_eq!(
        e.message(),
        "Invalid credentials file: contents are not well-formed JSON"
    );
}
