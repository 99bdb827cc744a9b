//! A plain-value view of what a file-system traversal found, and the one
//! trusted call that produces it.

use vstd::prelude::*;

verus! {

/// One entry found below a scanned root: its full path, its base name (absent
/// when the name is not valid Unicode), the path of the directory holding it
/// (absent for a path with no parent), whether it is a regular file or a
/// directory, and its size in bytes (0 when it could not be read).
pub struct FsEntry {
    pub path: String,
    pub file_name: Option<String>,
    pub parent: Option<String>,
    pub is_file: bool,
    pub is_dir: bool,
    pub size: u64,
}

/// Relies on walkdir::WalkDir: enumerates every file-system entry reachable
/// below `root` (depth >= 1; the root itself is excluded), skipping entries
/// that cannot be read. What comes back depends on what is on disk, so
/// nothing is promised of the result.
#[verifier::external_body]
pub(crate) fn walk_entries(root: &str) -> Vec<FsEntry> {
    let mut out: Vec<FsEntry> = Vec::new();
    for e in walkdir::WalkDir::new(root).min_depth(1).into_iter().filter_map(|x| x.ok()) {
        out.push(FsEntry {
            path: e.path().to_string_lossy().into_owned(),
            file_name: e.file_name().to_str().map(|s| s.to_owned()),
            parent: e.path().parent().map(|p| p.to_string_lossy().into_owned()),
            is_file: e.file_type().is_file(),
            is_dir: e.file_type().is_dir(),
            size: e.metadata().map(|m| m.len()).unwrap_or(0),
        });
    }
    out
}

} // verus!
