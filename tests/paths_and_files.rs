use sptf_core::error::FILE_ERROR_PERMISSION_DENIED_ERROR_CODE;
use sptf_core::files::{
    archive_entries, download_plan, list_dir, retrieve_timestamp, upload_targets, DownloadPlan,
    RawDirEntry, RawFileKind, RawMetadata, RawTime,
};
use sptf_core::paths::{file_name, parent_dir, push_path, real_path, user_aware_path};
use sptf_core::wire::{FileType, ListDirectoryResult};

fn meta(size: u64) -> RawMetadata {
    RawMetadata {
        size,
        modified: RawTime::SinceEpoch(100),
        accessed: RawTime::SinceEpoch(200),
        created: RawTime::SinceEpoch(300),
    }
}

fn raw(name: &str, kind: Option<RawFileKind>, metadata: Option<RawMetadata>) -> RawDirEntry {
    RawDirEntry { file_name: name.to_string(), kind, metadata }
}

#[test]
fn real_path_strips_leading_separator() {
    assert_eq!(real_path("/srv", "/etc/passwd"), "/srv/etc/passwd");
}

#[test]
fn user_aware_path_recovers_user_path() {
    assert_eq!(user_aware_path("/srv", "/srv/etc/passwd"), Some("/etc/passwd".to_string()));
}

#[test]
fn real_path_edge_cases() {
    assert_eq!(real_path("/srv", ""), "/srv");
    assert_eq!(real_path("/srv", "/"), "/srv");
    assert_eq!(real_path("/srv/", "docs"), "/srv/docs");
    assert_eq!(real_path("/srv", "docs/a.txt"), "/srv/docs/a.txt");
}

#[test]
fn user_aware_path_edge_cases() {
    assert_eq!(user_aware_path("/srv", "/srv"), Some("/".to_string()));
    assert_eq!(user_aware_path("/srv/", "/srv/docs"), Some("/docs".to_string()));
    assert_eq!(user_aware_path("/srv", "/srvx/docs"), None);
    assert_eq!(user_aware_path("/srv", "/etc/passwd"), None);
}

#[test]
fn real_then_user_path_round_trip() {
    for p in ["docs", "/docs", "/", "", "/a/b/c"] {
        let real = real_path("/srv", p);
        let back = user_aware_path("/srv", &real).unwrap();
        let expected = format!("/{}", p.strip_prefix('/').unwrap_or(p));
        assert_eq!(back, expected);
    }
}

#[test]
fn parent_and_file_name() {
    assert_eq!(parent_dir("/srv/docs/a.txt"), Some("/srv/docs".to_string()));
    assert_eq!(parent_dir("/a"), Some("/".to_string()));
    assert_eq!(parent_dir("/"), None);
    assert_eq!(parent_dir("a"), None);
    assert_eq!(file_name("/docs/a.txt"), Some("a.txt".to_string()));
    assert_eq!(file_name("a.txt"), Some("a.txt".to_string()));
    assert_eq!(file_name("/docs/"), None);
    assert_eq!(file_name("/docs/.."), None);
}

#[test]
fn push_path_relative_and_absolute() {
    assert_eq!(push_path("/docs", "a.txt"), "/docs/a.txt");
    assert_eq!(push_path("/docs/", "a.txt"), "/docs/a.txt");
    assert_eq!(push_path("/docs", "/etc/x"), "/etc/x");
}

#[test]
fn list_directory_with_subdirectory() {
    let read = vec![raw("reports", Some(RawFileKind::Directory), Some(meta(4096)))];
    let resp = list_dir("/srv", "/docs", Some(read));
    assert_eq!(resp.directory_path, "/srv/docs");
    match resp.result {
        ListDirectoryResult::Layout(entries) => {
            assert_eq!(entries.len(), 1);
            assert_eq!(entries[0].file_name, "reports");
            assert_eq!(entries[0].path, "/docs/reports");
            assert_eq!(entries[0].metadata.file_type, FileType::Directory);
            assert_eq!(entries[0].metadata.modified_timestamp, 100);
            assert_eq!(entries[0].metadata.accessed_timestamp, 200);
            assert_eq!(entries[0].metadata.created_timestamp, 300);
        }
        ListDirectoryResult::Error(_) => panic!("expected a layout"),
    }
}

#[test]
fn list_directory_with_regular_file() {
    let read = vec![raw("a.txt", Some(RawFileKind::File), Some(meta(10)))];
    let resp = list_dir("/srv", "/docs/reports", Some(read));
    match resp.result {
        ListDirectoryResult::Layout(entries) => {
            assert_eq!(entries.len(), 1);
            assert_eq!(entries[0].file_name, "a.txt");
            assert_eq!(entries[0].path, "/docs/reports/a.txt");
            assert_eq!(entries[0].metadata.size, 10);
            assert_eq!(entries[0].metadata.file_type, FileType::NormalFile);
        }
        ListDirectoryResult::Error(_) => panic!("expected a layout"),
    }
}

#[test]
fn list_directory_skips_unreadable_and_other_entries() {
    let mut bad_time = meta(1);
    bad_time.created = RawTime::Unavailable;
    let mut early = meta(1);
    early.modified = RawTime::BeforeEpoch;
    let read = vec![
        raw("link", Some(RawFileKind::Other), Some(meta(1))),
        raw("no_type", None, Some(meta(1))),
        raw("no_meta", Some(RawFileKind::File), None),
        raw("no_created", Some(RawFileKind::File), Some(bad_time)),
        raw("too_early", Some(RawFileKind::File), Some(early)),
        raw("kept", Some(RawFileKind::File), Some(meta(7))),
    ];
    let resp = list_dir("/srv", "/", Some(read));
    match resp.result {
        ListDirectoryResult::Layout(entries) => {
            assert_eq!(entries.len(), 1);
            assert_eq!(entries[0].file_name, "kept");
            assert_eq!(entries[0].path, "/kept");
        }
        ListDirectoryResult::Error(_) => panic!("expected a layout"),
    }
}

#[test]
fn list_directory_unreadable_is_permission_denied() {
    let resp = list_dir("/srv", "/missing", None);
    assert_eq!(resp.directory_path, "/srv/missing");
    match resp.result {
        ListDirectoryResult::Error(code) => assert_eq!(code, FILE_ERROR_PERMISSION_DENIED_ERROR_CODE),
        ListDirectoryResult::Layout(_) => panic!("expected an error"),
    }
}

#[test]
fn list_directory_empty() {
    let resp = list_dir("/srv", "/docs", Some(vec![]));
    match resp.result {
        ListDirectoryResult::Layout(entries) => assert!(entries.is_empty()),
        ListDirectoryResult::Error(_) => panic!("expected a layout"),
    }
}

#[test]
fn retrieve_timestamp_cases() {
    assert_eq!(retrieve_timestamp(RawTime::SinceEpoch(42)), Ok(42));
    assert!(retrieve_timestamp(RawTime::Unavailable).is_err());
    assert!(retrieve_timestamp(RawTime::BeforeEpoch).is_err());
}

#[test]
fn archive_entries_skip_nameless_paths() {
    let files = vec!["/docs/a.txt".to_string(), "/docs/".to_string(), "b.txt".to_string()];
    let entries = archive_entries("/srv", &files);
    assert_eq!(entries.len(), 2);
    assert_eq!(entries[0].source, "/srv/docs/a.txt");
    assert_eq!(entries[0].name, "a.txt");
    assert_eq!(entries[1].source, "/srv/b.txt");
    assert_eq!(entries[1].name, "b.txt");
}

#[test]
fn upload_targets_resolve_under_root() {
    let names = vec!["a.txt".to_string(), "/abs.txt".to_string()];
    let targets = upload_targets("/srv", "/docs", &names);
    assert_eq!(targets, vec!["/srv/docs/a.txt".to_string(), "/srv/abs.txt".to_string()]);
}

#[test]
fn download_plan_by_count() {
    assert!(matches!(download_plan("/srv", &vec![]), DownloadPlan::Nothing));
    match download_plan("/srv", &vec!["/docs/a.txt".to_string()]) {
        DownloadPlan::Single(p) => assert_eq!(p, "/srv/docs/a.txt"),
        _ => panic!("expected a single file"),
    }
    match download_plan("/srv", &vec!["/a".to_string(), "/b".to_string()]) {
        DownloadPlan::Archive(v) => assert_eq!(v.len(), 2),
        _ => panic!("expected an archive"),
    }
}
