use servus::conf::{Config, LocalStore, StoreType};
use servus::resolve::{
    build_listing, failure_body, guard_traversal, http_status, local_step, object_action,
    resolve_index,
    resolve_object_fetch, resolve_object_head, resolve_object_list, BrowseEntry, EntryKind,
    FetchOutcome, HeadOutcome, ListOutcome, LocalProbe, LocalStep, ObjectAction, RawEntry,
    ResolvedTarget,
};

fn raw(name: &str, kind: EntryKind) -> RawEntry {
    RawEntry { name: name.to_string(), kind }
}

#[test]
fn regular_file_is_served() {
    let step = local_step(false, LocalProbe::RegularFile);
    assert_eq!(step, LocalStep::ServeFile);
    let step = local_step(true, LocalProbe::RegularFile);
    assert_eq!(step, LocalStep::ServeFile);
}

#[test]
fn directory_without_browse_with_index_redirects() {
    let step = local_step(false, LocalProbe::Directory);
    assert_eq!(step, LocalStep::NeedIndexCheck);
    let target = resolve_index(true);
    assert_eq!(target, ResolvedTarget::Redirect { location: "index.html".to_string() });
    assert_eq!(http_status(&target), 302);
}

#[test]
fn directory_without_browse_without_index_is_not_found() {
    let target = resolve_index(false);
    assert_eq!(target, ResolvedTarget::NotFound);
    assert_eq!(http_status(&target), 404);
    assert_eq!(failure_body(&target), Some("not found".to_string()));
}

#[test]
fn directory_with_browse_lists_each_readable_child() {
    let step = local_step(true, LocalProbe::Directory);
    assert_eq!(step, LocalStep::NeedListing);
    let children = vec![
        raw("img", EntryKind::Directory),
        raw("readme.txt", EntryKind::File),
        raw("ghost", EntryKind::Unreadable),
    ];
    let target = build_listing("docs".to_string(), children);
    assert_eq!(http_status(&target), 200);
    match target {
        ResolvedTarget::DirectoryListing { dirname, entries } => {
            assert_eq!(dirname, "docs");
            assert_eq!(
                entries,
                vec![
                    BrowseEntry { name: "img".to_string(), is_dir: true },
                    BrowseEntry { name: "readme.txt".to_string(), is_dir: false },
                ]
            );
        },
        other => panic!("expected a listing, got {:?}", other),
    }
}

#[test]
fn missing_local_path_is_not_found() {
    let step = local_step(true, LocalProbe::Absent);
    assert_eq!(step, LocalStep::Done(ResolvedTarget::NotFound));
    let step = local_step(false, LocalProbe::Absent);
    match step {
        LocalStep::Done(t) => assert_eq!(http_status(&t), 404),
        other => panic!("expected a settled outcome, got {:?}", other),
    }
}

#[test]
fn local_access_failure_is_internal() {
    let step = local_step(false, LocalProbe::AccessFailure("permission denied".to_string()));
    match step {
        LocalStep::Done(t) => {
            assert_eq!(http_status(&t), 500);
            assert_eq!(failure_body(&t), Some("internal server error".to_string()));
        },
        other => panic!("expected a settled outcome, got {:?}", other),
    }
}

#[test]
fn object_action_follows_path_and_browse() {
    assert_eq!(object_action(false, true), ObjectAction::HeadIndex);
    assert_eq!(object_action(true, true), ObjectAction::ListPrefix);
    assert_eq!(object_action(false, false), ObjectAction::FetchObject);
    assert_eq!(object_action(true, false), ObjectAction::FetchObject);
}

#[test]
fn object_index_head_outcomes() {
    assert_eq!(
        resolve_object_head(HeadOutcome::Found),
        ResolvedTarget::Redirect { location: "index.html".to_string() }
    );
    assert_eq!(resolve_object_head(HeadOutcome::Missing), ResolvedTarget::NotFound);
    let failed = resolve_object_head(HeadOutcome::Failure("connect timeout".to_string()));
    assert_eq!(http_status(&failed), 500);
}

#[test]
fn object_listing_is_flat() {
    let target = resolve_object_list(
        "pics".to_string(),
        ListOutcome::FirstPage(vec!["a.png".to_string(), "b/".to_string()]),
    );
    match target {
        ResolvedTarget::DirectoryListing { dirname, entries } => {
            assert_eq!(dirname, "pics");
            assert_eq!(
                entries,
                vec![
                    BrowseEntry { name: "a.png".to_string(), is_dir: false },
                    BrowseEntry { name: "b/".to_string(), is_dir: false },
                ]
            );
        },
        other => panic!("expected a listing, got {:?}", other),
    }
}

#[test]
fn object_listing_without_page_is_internal() {
    let target = resolve_object_list("pics".to_string(), ListOutcome::NoPage);
    assert_eq!(http_status(&target), 500);
    let target = resolve_object_list("pics".to_string(), ListOutcome::Failure("api".to_string()));
    assert_eq!(http_status(&target), 500);
}

#[test]
fn fetched_object_bytes_pass_through_unmodified() {
    let body = vec![0u8, 159, 146, 150, 13, 10];
    let target = resolve_object_fetch(FetchOutcome::Data(body.clone()));
    assert_eq!(target, ResolvedTarget::RegularFile { body });
    assert_eq!(http_status(&target), 200);
}

#[test]
fn missing_object_key_is_not_found() {
    let target = resolve_object_fetch(FetchOutcome::Missing);
    assert_eq!(target, ResolvedTarget::NotFound);
    assert_eq!(http_status(&target), 404);
    assert_eq!(failure_body(&target), Some("not found".to_string()));
}

#[test]
fn failure_body_contains_no_credential_material() {
    let cause = "invalid credentials: SECRET-REDACTED".to_string();
    let target = resolve_object_fetch(FetchOutcome::Failure(cause));
    assert_eq!(http_status(&target), 500);
    let body = failure_body(&target).expect("a failing outcome has a body");
    assert_eq!(body, "internal server error");
    assert!(!body.contains("SECRET-REDACTED"));
}

#[test]
fn repeated_resolution_is_byte_identical() {
    let make = || {
        build_listing(
            "docs".to_string(),
            vec![raw("img", EntryKind::Directory), raw("readme.txt", EntryKind::File)],
        )
    };
    let first = make();
    let second = make();
    assert_eq!(first, second);
    assert_eq!(http_status(&first), http_status(&second));
    assert_eq!(failure_body(&first), failure_body(&second));

    let fetch = || resolve_object_fetch(FetchOutcome::Data(vec![1u8, 2, 3]));
    assert_eq!(fetch(), fetch());
}

#[test]
fn unreadable_children_are_skipped_not_fatal() {
    let target = build_listing(
        "docs".to_string(),
        vec![raw("ghost", EntryKind::Unreadable), raw("seen", EntryKind::File)],
    );
    match target {
        ResolvedTarget::DirectoryListing { entries, .. } => {
            assert_eq!(entries, vec![BrowseEntry { name: "seen".to_string(), is_dir: false }]);
        },
        other => panic!("expected a listing, got {:?}", other),
    }
}

#[test]
fn traversal_beyond_root_is_not_found() {
    assert_eq!(guard_traversal(".."), Some(ResolvedTarget::NotFound));
    assert_eq!(guard_traversal("../etc/passwd"), Some(ResolvedTarget::NotFound));
    assert_eq!(guard_traversal("a/../../x"), Some(ResolvedTarget::NotFound));
    assert_eq!(guard_traversal("a/b/../../../x"), Some(ResolvedTarget::NotFound));
}

#[test]
fn contained_paths_pass_the_traversal_guard() {
    assert_eq!(guard_traversal(""), None);
    assert_eq!(guard_traversal("a/b/c.txt"), None);
    assert_eq!(guard_traversal("a/../b"), None);
    assert_eq!(guard_traversal("a/./b"), None);
    assert_eq!(guard_traversal("a//b"), None);
    assert_eq!(guard_traversal("a/.."), None);
    assert_eq!(guard_traversal("..."), None);
    assert_eq!(guard_traversal("..a/b"), None);
}

#[test]
fn entry_conversions() {
    assert_eq!(
        BrowseEntry::from_raw(&raw("img", EntryKind::Directory)),
        Some(BrowseEntry { name: "img".to_string(), is_dir: true })
    );
    assert_eq!(
        BrowseEntry::from_raw(&raw("readme.txt", EntryKind::File)),
        Some(BrowseEntry { name: "readme.txt".to_string(), is_dir: false })
    );
    assert_eq!(BrowseEntry::from_raw(&raw("ghost", EntryKind::Unreadable)), None);
    assert_eq!(
        BrowseEntry::from_key("k.png".to_string()),
        BrowseEntry { name: "k.png".to_string(), is_dir: false }
    );
}

#[test]
fn docs_store_scenario() {
    let cfg = Config {
        address: None,
        stores: vec![StoreType::Local(LocalStore {
            servepath: "docs".to_string(),
            browse: Some(true),
            directory: "/srv/docs".to_string(),
        })],
    };
    assert!(cfg.validate().is_ok());
    assert_eq!(cfg.find_store("docs"), Some(0));

    // GET /docs/readme.txt: the candidate is a regular file, so its bytes
    // are streamed as-is.
    assert_eq!(local_step(cfg.stores[0].browse_enabled(), LocalProbe::RegularFile), LocalStep::ServeFile);

    // GET /docs/img/ with browsing enabled: one entry per child.
    assert_eq!(local_step(true, LocalProbe::Directory), LocalStep::NeedListing);
    let target = build_listing("img".to_string(), vec![raw("a.png", EntryKind::File)]);
    assert_eq!(http_status(&target), 200);
    match target {
        ResolvedTarget::DirectoryListing { dirname, entries } => {
            assert_eq!(dirname, "img");
            assert_eq!(entries, vec![BrowseEntry { name: "a.png".to_string(), is_dir: false }]);
        },
        other => panic!("expected a listing, got {:?}", other),
    }
}
