//! Directory listings and the file plans of the HTTP endpoints, computed from
//! what the file system reported.

use crate::error::{FILE_ERROR_PERMISSION_DENIED_ERROR_CODE, UNEXPECTED_ERROR_CODE, UnexpectedError};
use crate::paths::{
    file_name, file_name_spec, push_path, push_spec, real_path, real_path_spec, user_aware_path,
    user_path_spec,
};
use crate::wire::{DirectoryEntry, FileMetadata, FileType, ListDirectoryResponse, ListDirectoryResult};
use vstd::prelude::*;
use vstd::string::*;

verus! {

/// A timestamp as the file system reported it.
#[derive(Debug, Clone, Copy, PartialEq, Eq, Structural)]
pub enum RawTime {
    /// The platform could not report it.
    Unavailable,
    /// It lies before the Unix epoch.
    BeforeEpoch,
    /// Whole seconds since the Unix epoch.
    SinceEpoch(u64),
}

#[derive(Debug, Clone, Copy, PartialEq, Eq, Structural)]
pub enum RawFileKind {
    Directory,
    File,
    Other,
}

#[derive(Debug, Clone, Copy, PartialEq, Eq, Structural)]
pub struct RawMetadata {
    pub size: u64,
    pub modified: RawTime,
    pub accessed: RawTime,
    pub created: RawTime,
}

/// One entry as read from a directory; `None` where the query failed.
pub struct RawDirEntry {
    pub file_name: String,
    pub kind: Option<RawFileKind>,
    pub metadata: Option<RawMetadata>,
}

/// A listing entry as a mathematical value.
pub struct EntryView {
    pub path: Seq<char>,
    pub file_name: Seq<char>,
    pub metadata: FileMetadata,
}

pub open spec fn entry_view(e: DirectoryEntry) -> EntryView {
    EntryView { path: e.path@, file_name: e.file_name@, metadata: e.metadata }
}

pub open spec fn timestamp_spec(t: RawTime) -> Option<u64> {
    match t {
        RawTime::SinceEpoch(s) => Some(s),
        _ => None,
    }
}

/// What becomes of one raw entry: skipped, listed, or a fault that fails the
/// whole listing.
pub enum EntryOutcome {
    Skip,
    Listed(EntryView),
    Fault,
}

/// Entries that are neither directories nor regular files, or whose type,
/// metadata or timestamps cannot be read, are skipped; a listed entry's path
/// is the user-visible path of its name placed under `dir`.
pub open spec fn entry_outcome(root: Seq<char>, dir: Seq<char>, e: RawDirEntry) -> EntryOutcome {
    let file_type = match e.kind {
        Some(RawFileKind::Directory) => Some(FileType::Directory),
        Some(RawFileKind::File) => Some(FileType::NormalFile),
        _ => None,
    };
    if file_type is None || e.metadata is None {
        EntryOutcome::Skip
    } else {
        let m = e.metadata->0;
        if timestamp_spec(m.modified) is None || timestamp_spec(m.accessed) is None
            || timestamp_spec(m.created) is None {
            EntryOutcome::Skip
        } else {
            match user_path_spec(root, real_path_spec(dir, e.file_name@)) {
                None => EntryOutcome::Fault,
                Some(p) => EntryOutcome::Listed(
                    EntryView {
                        path: p,
                        file_name: e.file_name@,
                        metadata: FileMetadata {
                            file_type: file_type->0,
                            size: m.size,
                            modified_timestamp: timestamp_spec(m.modified)->0,
                            accessed_timestamp: timestamp_spec(m.accessed)->0,
                            created_timestamp: timestamp_spec(m.created)->0,
                        },
                    },
                ),
            }
        }
    }
}

/// The listed entries of `raw`, in order, or `None` if any entry faults.
pub open spec fn listing_spec(root: Seq<char>, dir: Seq<char>, raw: Seq<RawDirEntry>) -> Option<
    Seq<EntryView>,
>
    decreases raw.len(),
{
    if raw.len() == 0 {
        Some(Seq::empty())
    } else {
        match listing_spec(root, dir, raw.drop_last()) {
            None => None,
            Some(prev) => match entry_outcome(root, dir, raw.last()) {
                EntryOutcome::Skip => Some(prev),
                EntryOutcome::Listed(v) => Some(prev.push(v)),
                EntryOutcome::Fault => None,
            },
        }
    }
}

/// Seconds since the epoch of a reported time; a time that is unavailable
/// or before the epoch is an unexpected error.
pub fn retrieve_timestamp(t: RawTime) -> (r: Result<u64, UnexpectedError>)
    ensures
        match r {
            Ok(s) => timestamp_spec(t) == Some(s),
            Err(_) => timestamp_spec(t) is None,
        },
{
    match t {
        RawTime::SinceEpoch(s) => Ok(s),
        _ => Err(UnexpectedError),
    }
}

fn list_entry(root_path: &str, dir: &str, e: &RawDirEntry) -> (r: Result<
    Option<DirectoryEntry>,
    UnexpectedError,
>)
    ensures
        match entry_outcome(root_path@, dir@, *e) {
            EntryOutcome::Skip => r == Ok::<Option<DirectoryEntry>, UnexpectedError>(None),
            EntryOutcome::Listed(v) => r matches Ok(Some(d)) && entry_view(d) == v,
            EntryOutcome::Fault => r is Err,
        },
{
    let file_type = match e.kind {
        Some(RawFileKind::Directory) => FileType::Directory,
        Some(RawFileKind::File) => FileType::NormalFile,
        _ => return Ok(None),
    };
    let m = match e.metadata {
        Some(m) => m,
        None => return Ok(None),
    };
    let modified = match retrieve_timestamp(m.modified) {
        Ok(s) => s,
        Err(_) => return Ok(None),
    };
    let accessed = match retrieve_timestamp(m.accessed) {
        Ok(s) => s,
        Err(_) => return Ok(None),
    };
    let created = match retrieve_timestamp(m.created) {
        Ok(s) => s,
        Err(_) => return Ok(None),
    };
    let full = real_path(dir, e.file_name.as_str());
    let path = match user_aware_path(root_path, full.as_str()) {
        Some(p) => p,
        None => return Err(UnexpectedError),
    };
    Ok(
        Some(
            DirectoryEntry {
                path,
                file_name: e.file_name.clone(),
                metadata: FileMetadata {
                    file_type,
                    size: m.size,
                    modified_timestamp: modified,
                    accessed_timestamp: accessed,
                    created_timestamp: created,
                },
            },
        ),
    )
}

proof fn lemma_fault_persists(root: Seq<char>, dir: Seq<char>, raw: Seq<RawDirEntry>, k: int, j: int)
    requires
        0 <= k <= j <= raw.len(),
        listing_spec(root, dir, raw.subrange(0, k)) is None,
    ensures
        listing_spec(root, dir, raw.subrange(0, j)) is None,
    decreases j - k,
{
    if j > k {
        lemma_fault_persists(root, dir, raw, k, j - 1);
        assert(raw.subrange(0, j).drop_last() =~= raw.subrange(0, j - 1));
    }
}

fn list_dir_internal(root_path: &str, dir: &str, raw: &Vec<RawDirEntry>) -> (r: Result<
    Vec<DirectoryEntry>,
    UnexpectedError,
>)
    ensures
        match r {
            Ok(v) => listing_spec(root_path@, dir@, raw@) == Some(v@.map_values(|d| entry_view(d))),
            Err(_) => listing_spec(root_path@, dir@, raw@) is None,
        },
{
    let mut entries: Vec<DirectoryEntry> = Vec::new();
    let n = raw.len();
    let mut i: usize = 0;
    while i < n
        invariant
            n == raw@.len(),
            i <= n,
            listing_spec(root_path@, dir@, raw@.subrange(0, i as int)) == Some(
                entries@.map_values(|d| entry_view(d)),
            ),
        decreases n - i,
    {
        let ghost prev = entries@;
        let ghost sub = raw@.subrange(0, i + 1);
        assert(sub.drop_last() =~= raw@.subrange(0, i as int));
        assert(sub.last() == raw@[i as int]);
        match list_entry(root_path, dir, &raw[i]) {
            Err(e) => {
                proof {
                    lemma_fault_persists(root_path@, dir@, raw@, i + 1, n as int);
                    assert(raw@.subrange(0, n as int) =~= raw@);
                }
                return Err(e);
            },
            Ok(None) => {},
            Ok(Some(d)) => {
                entries.push(d);
                assert(entries@.map_values(|d| entry_view(d)) =~= prev.map_values(
                    |d| entry_view(d),
                ).push(entry_view(d)));
            },
        }
        i = i + 1;
    }
    assert(raw@.subrange(0, n as int) =~= raw@);
    Ok(entries)
}

/// The listing of the user-visible directory `user_aware_path` under
/// `root_path`, from what reading that directory gave (`None`: it could not
/// be read). The response names the real directory; a directory that cannot
/// be read answers `PermissionDenied`, and an entry whose path falls outside
/// the root answers `Unexpected` for the whole listing.
pub fn list_dir(root_path: &str, user_aware_path: &str, read: Option<Vec<RawDirEntry>>) -> (r:
    ListDirectoryResponse)
    ensures
        r.directory_path@ == real_path_spec(root_path@, user_aware_path@),
        match read {
            None => r.result == ListDirectoryResult::Error(FILE_ERROR_PERMISSION_DENIED_ERROR_CODE),
            Some(raw) => match listing_spec(
                root_path@,
                real_path_spec(root_path@, user_aware_path@),
                raw@,
            ) {
                None => r.result == ListDirectoryResult::Error(UNEXPECTED_ERROR_CODE),
                Some(es) => r.result matches ListDirectoryResult::Layout(v) && v@.map_values(
                    |d| entry_view(d),
                ) == es,
            },
        },
{
    let dir = real_path(root_path, user_aware_path);
    let result = match read {
        None => ListDirectoryResult::Error(FILE_ERROR_PERMISSION_DENIED_ERROR_CODE),
        Some(raw) => match list_dir_internal(root_path, dir.as_str(), &raw) {
            Ok(v) => ListDirectoryResult::Layout(v),
            Err(_) => ListDirectoryResult::Error(UNEXPECTED_ERROR_CODE),
        },
    };
    ListDirectoryResponse { directory_path: dir, result }
}

/// One file of a download archive: where it is read from and the name it
/// gets inside the archive.
pub struct ArchiveEntry {
    pub source: String,
    pub name: String,
}

pub open spec fn archive_view(e: ArchiveEntry) -> (Seq<char>, Seq<char>) {
    (e.source@, e.name@)
}

/// The archive entries for the user paths `files`, in order; a path without
/// a file name is left out.
pub open spec fn archive_spec(root: Seq<char>, files: Seq<String>) -> Seq<(Seq<char>, Seq<char>)>
    decreases files.len(),
{
    if files.len() == 0 {
        Seq::empty()
    } else {
        let prev = archive_spec(root, files.drop_last());
        let f = files.last()@;
        match file_name_spec(f) {
            None => prev,
            Some(name) => prev.push((real_path_spec(root, f), name)),
        }
    }
}

/// What to copy into a download archive for the user paths `files`.
pub fn archive_entries(root_path: &str, files: &Vec<String>) -> (r: Vec<ArchiveEntry>)
    ensures
        r@.map_values(|e| archive_view(e)) == archive_spec(root_path@, files@),
{
    let mut out: Vec<ArchiveEntry> = Vec::new();
    let n = files.len();
    let mut i: usize = 0;
    while i < n
        invariant
            n == files@.len(),
            i <= n,
            out@.map_values(|e| archive_view(e)) == archive_spec(root_path@, files@.subrange(0, i as int)),
        decreases n - i,
    {
        let ghost prev = out@;
        let f = files[i].as_str();
        assert(files@.subrange(0, i + 1).drop_last() =~= files@.subrange(0, i as int));
        match file_name(f) {
            None => {},
            Some(name) => {
                let source = real_path(root_path, f);
                out.push(ArchiveEntry { source, name });
                assert(out@.map_values(|e| archive_view(e)) =~= prev.map_values(
                    |e| archive_view(e),
                ).push(archive_view(out@.last())));
            },
        }
        i = i + 1;
    }
    assert(files@.subrange(0, n as int) =~= files@);
    out
}

/// The real paths the uploaded files named `file_names` are written to, for
/// the user-visible directory `dir_path`, in order.
pub fn upload_targets(root_path: &str, dir_path: &str, file_names: &Vec<String>) -> (r: Vec<String>)
    ensures
        r@.len() == file_names@.len(),
        forall|i: int|
            0 <= i < r@.len() ==> (#[trigger] r@[i])@ == real_path_spec(
                root_path@,
                push_spec(dir_path@, file_names@[i]@),
            ),
{
    let mut out: Vec<String> = Vec::new();
    let n = file_names.len();
    let mut i: usize = 0;
    while i < n
        invariant
            n == file_names@.len(),
            i <= n,
            out@.len() == i,
            forall|j: int|
                0 <= j < i ==> (#[trigger] out@[j])@ == real_path_spec(
                    root_path@,
                    push_spec(dir_path@, file_names@[j]@),
                ),
        decreases n - i,
    {
        let user_file = push_path(dir_path, file_names[i].as_str());
        out.push(real_path(root_path, user_file.as_str()));
        i = i + 1;
    }
    out
}

/// How a download request is served.
pub enum DownloadPlan {
    /// No path was asked for.
    Nothing,
    /// One file, sent as it is.
    Single(String),
    /// Several files, sent as one compressed archive.
    Archive(Vec<ArchiveEntry>),
}

/// The plan for downloading the user paths `paths`.
pub fn download_plan(root_path: &str, paths: &Vec<String>) -> (r: DownloadPlan)
    ensures
        paths@.len() == 0 ==> r is Nothing,
        paths@.len() == 1 ==> (r matches DownloadPlan::Single(p) && p@ == real_path_spec(
            root_path@,
            paths@[0]@,
        )),
        paths@.len() > 1 ==> (r matches DownloadPlan::Archive(v) && v@.map_values(
            |e| archive_view(e),
        ) == archive_spec(root_path@, paths@)),
{
    if paths.len() == 0 {
        DownloadPlan::Nothing
    } else if paths.len() == 1 {
        DownloadPlan::Single(real_path(root_path, paths[0].as_str()))
    } else {
        DownloadPlan::Archive(archive_entries(root_path, paths))
    }
}

} // verus!
