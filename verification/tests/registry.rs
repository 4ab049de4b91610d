use servus::conf::{Config, ConfigError, DisplayDirectory, LocalStore, S3Store, Store, StoreType};

fn local(servepath: &str, directory: &str, browse: Option<bool>) -> StoreType {
    StoreType::Local(LocalStore {
        servepath: servepath.to_string(),
        browse,
        directory: directory.to_string(),
    })
}

fn object(servepath: &str, bucket: &str) -> StoreType {
    StoreType::S3(S3Store {
        servepath: servepath.to_string(),
        browse: None,
        accesskey: "AKIDEXAMPLE".to_string(),
        secretkey: "SECRET-REDACTED".to_string(),
        bucket: bucket.to_string(),
        region: None,
        endpoint: None,
    })
}

#[test]
fn validate_distinct_prefixes_ok() {
    let cfg = Config {
        address: None,
        stores: vec![local("docs", "/srv/docs", None), object("media", "pics")],
    };
    assert!(cfg.validate().is_ok());
}

#[test]
fn validate_empty_registry_ok() {
    let cfg = Config { address: None, stores: Vec::new() };
    assert!(cfg.validate().is_ok());
}

#[test]
fn validate_duplicate_prefix_fails_across_backends() {
    let cfg = Config {
        address: None,
        stores: vec![local("docs", "/srv/docs", None), object("docs", "pics")],
    };
    let err = cfg.validate().expect_err("duplicate mounts must be rejected");
    let ConfigError::DuplicateMount(prefix) = err;
    assert_eq!(prefix, "docs");
}

#[test]
fn validate_duplicate_prefix_same_backend_fails() {
    let cfg = Config {
        address: None,
        stores: vec![local("a", "/x", None), local("b", "/y", None), local("a", "/z", None)],
    };
    let ConfigError::DuplicateMount(prefix) =
        cfg.validate().expect_err("duplicate mounts must be rejected");
    assert_eq!(prefix, "a");
    let msg = ConfigError::DuplicateMount(prefix).message();
    assert_eq!(msg, "duplicate 'servepath' entry: a");
}

#[test]
fn find_store_returns_first_match() {
    let cfg = Config {
        address: None,
        stores: vec![local("docs", "/srv/docs", None), object("media", "pics")],
    };
    assert_eq!(cfg.find_store("docs"), Some(0));
    assert_eq!(cfg.find_store("media"), Some(1));
    assert_eq!(cfg.find_store("absent"), None);
    assert_eq!(cfg.find_store("doc"), None);
}

#[test]
fn store_identity_and_root_label() {
    let l = LocalStore {
        servepath: "docs".to_string(),
        browse: None,
        directory: "/srv/docs".to_string(),
    };
    assert_eq!(l.name(), "LocalStore");
    assert_eq!(l.servepath(), "docs");
    assert_eq!(l.directory(), "/srv/docs");

    let s = S3Store {
        servepath: "media".to_string(),
        browse: Some(true),
        accesskey: "AKIDEXAMPLE".to_string(),
        secretkey: "SECRET-REDACTED".to_string(),
        bucket: "pics".to_string(),
        region: Some("us-east-1".to_string()),
        endpoint: None,
    };
    assert_eq!(s.name(), "S3Store");
    assert_eq!(s.servepath(), "media");
    assert_eq!(s.directory(), "pics");
}

#[test]
fn store_type_dispatch_is_exhaustive() {
    let l = local("docs", "/srv/docs", None);
    assert_eq!(l.name(), "LocalStore");
    assert_eq!(l.servepath(), "docs");
    assert_eq!(l.directory(), "/srv/docs");
    let s = object("media", "pics");
    assert_eq!(s.name(), "S3Store");
    assert_eq!(s.servepath(), "media");
    assert_eq!(s.directory(), "pics");
}

#[test]
fn browse_defaults_to_disabled() {
    assert!(!local("docs", "/srv/docs", None).browse_enabled());
    assert!(!local("docs", "/srv/docs", Some(false)).browse_enabled());
    assert!(local("docs", "/srv/docs", Some(true)).browse_enabled());
}

#[test]
fn route_pattern_appends_catch_all() {
    let l = local("docs", "/srv/docs", None);
    assert_eq!(l.route_pattern(), "docs/{filename:.*}");
}
