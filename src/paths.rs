//! Where the backend keeps its data: a fixed subdirectory of the per-user
//! application-data root that the host reports.

use vstd::prelude::*;
use vstd::string::*;

verus! {

/// Name of the backend's storage directory under the application-data root.
pub const DATA_SUBDIR: &'static str = "htmx_llmchat_db";

/// Why the data directory is not available. Both are fatal to the backend.
#[derive(Debug, Clone, PartialEq, Eq)]
pub enum DataDirError {
    /// The host could not report an application-data root.
    Resolution,
    /// The directory could not be created (the OS error's text).
    Creation(String),
}

pub open spec fn is_separator(c: char) -> bool {
    c == '/' || c == '\\'
}

/// `name` placed under `root`, with one separator between them unless `root`
/// already ends in one.
pub open spec fn join_path(root: Seq<char>, name: Seq<char>) -> Seq<char> {
    if root.len() > 0 && is_separator(root.last()) {
        root + name
    } else {
        root + seq!['/'] + name
    }
}

/// The data directory for a reported root, or the resolution error when no
/// usable root was reported.
pub open spec fn data_dir_for(root: Option<Seq<char>>) -> Option<Seq<char>> {
    match root {
        Some(r) => if r.len() > 0 {
            Some(join_path(r, DATA_SUBDIR@))
        } else {
            None
        },
        None => None,
    }
}

/// Computes the backend's data directory from the application-data root that
/// the host reported (`None` when it could not report one). An empty root
/// counts as not reported.
pub fn resolve_data_directory(app_data_root: Option<&str>) -> (r: Result<String, DataDirError>)
    ensures
        match data_dir_for(
            match app_data_root {
                Some(s) => Some(s@),
                None => None,
            },
        ) {
            Some(p) => r is Ok && r->Ok_0@ == p,
            None => r == Err::<String, DataDirError>(DataDirError::Resolution),
        },
{
    match app_data_root {
        None => Err(DataDirError::Resolution),
        Some(root) => {
            let n = root.unicode_len();
            if n == 0 {
                return Err(DataDirError::Resolution);
            }
            let last = root.get_char(n - 1);
            let mut path = String::from_str(root);
            if last != '/' && last != '\\' {
                proof {
                    reveal_strlit("/");
                }
                path.append("/");
            }
            path.append(DATA_SUBDIR);
            assert(path@ =~= join_path(root@, DATA_SUBDIR@));
            Ok(path)
        },
    }
}

/// A usable root always resolves, and to the same directory on every call:
/// the result depends on the root alone. That directory lies under the root
/// and ends with the backend's subdirectory name.
pub proof fn law_resolution_idempotent(root: Seq<char>)
    requires
        root.len() > 0,
    ensures
        data_dir_for(Some(root)) is Some,
        data_dir_for(Some(root))->Some_0.subrange(0, root.len() as int) == root,
        data_dir_for(Some(root))->Some_0.len() >= root.len() + DATA_SUBDIR@.len(),
        data_dir_for(Some(root))->Some_0.subrange(
            data_dir_for(Some(root))->Some_0.len() - DATA_SUBDIR@.len(),
            data_dir_for(Some(root))->Some_0.len() as int,
        ) == DATA_SUBDIR@,
{
    let p = join_path(root, DATA_SUBDIR@);
    if is_separator(root.last()) {
        assert(p.subrange(0, root.len() as int) =~= root);
        assert(p.subrange(p.len() - DATA_SUBDIR@.len(), p.len() as int) =~= DATA_SUBDIR@);
    } else {
        assert(p.subrange(0, root.len() as int) =~= root);
        assert(p.subrange(p.len() - DATA_SUBDIR@.len(), p.len() as int) =~= DATA_SUBDIR@);
    }
}

} // verus!
