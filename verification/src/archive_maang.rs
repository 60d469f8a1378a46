//! Which files of the project tree go into the full archive
//! `var/archives/archive_maang.tar.gz`.
use vstd::prelude::*;
use crate::archive_files::{
    ArchiveError, contains_target, has_target_component, path_starts_with, same_path,
    starts_with_path, paths_equal, strip_prefix,
};
use crate::text::to_owned_string;

pub use crate::archive_files::find_maang_root;

verus! {

/// The archive file's name.
pub fn archive_file_name() -> (res: &'static str)
    ensures
        res@ == "archive_maang.tar.gz"@,
{
    "archive_maang.tar.gz"
}

/// The archive file inside the archives directory.
pub fn archive_file(archives_dir: &Vec<String>) -> (res: Vec<String>)
    ensures
        res@.len() == archives_dir@.len() + 1,
        forall|i: int| 0 <= i < archives_dir@.len() ==> res@[i] == archives_dir@[i],
        res@[archives_dir@.len() as int]@ == "archive_maang.tar.gz"@,
{
    let mut res: Vec<String> = Vec::new();
    let mut j: usize = 0;
    while j < archives_dir.len()
        invariant
            j <= archives_dir@.len(),
            res@ == archives_dir@.take(j as int),
        decreases archives_dir@.len() - j,
    {
        res.push(archives_dir[j].clone());
        assert(res@ =~= archives_dir@.take(j + 1)) by {
            assert(archives_dir@[j as int] == archives_dir@.take(j + 1)[j as int]);
        }
        j = j + 1;
    }
    res.push(to_owned_string(archive_file_name()));
    res
}

/// A path left out of the full archive: anything under a `target`
/// directory, anything under the archives directory, and the archive file.
pub open spec fn excluded_from_full(path: Seq<String>, archives: Seq<String>) -> bool {
    has_target_component(path) || path_starts_with(path, archives)
        || (path.len() == archives.len() + 1 && path_starts_with(path, archives)
            && path[archives.len() as int]@ == "archive_maang.tar.gz"@)
}

/// Whether the walk leaves a path out of the full archive; the root
/// itself is not among the exclusions.
pub fn is_excluded(path: &Vec<String>, _maang_root: &Vec<String>, archives_dir: &Vec<String>) -> (res: bool)
    ensures
        res == excluded_from_full(path@, archives_dir@),
{
    if contains_target(path) {
        return true;
    }
    if starts_with_path(path, archives_dir) {
        return true;
    }
    let out_file = archive_file(archives_dir);
    let r = paths_equal(path, &out_file);
    proof {
        if r {
            assert(path_starts_with(path@, archives_dir@)) by {
                assert forall|i: int| 0 <= i < archives_dir@.len() implies (#[trigger] archives_dir@[i])@ == path@[i]@ by {
                    assert(out_file@[i] == archives_dir@[i]);
                }
            }
        }
        if !r && path@.len() == archives_dir@.len() + 1 && path_starts_with(path@, archives_dir@)
            && path@[archives_dir@.len() as int]@ == "archive_maang.tar.gz"@ {
            assert(same_path(path@, out_file@)) by {
                assert forall|i: int| 0 <= i < path@.len() implies (#[trigger] path@[i])@ == out_file@[i]@ by {
                    if i < archives_dir@.len() {
                        assert(out_file@[i] == archives_dir@[i]);
                    }
                }
            }
        }
    }
    r
}

/// What the full archiver does with a walked entry: skip it (excluded, not
/// a regular file, or the root itself), or add it under its path relative
/// to the root; a path outside the root is an error.
pub fn full_member(
    path: &Vec<String>,
    is_file: bool,
    maang_root: &Vec<String>,
    archives: &Vec<String>,
) -> (res: Result<Option<Vec<String>>, ArchiveError>)
    ensures
        (excluded_from_full(path@, archives@) || !is_file) ==> (res matches Ok(None)),
        !excluded_from_full(path@, archives@) && is_file ==> {
            &&& path_starts_with(path@, maang_root@) && path@.len() > maang_root@.len()
                ==> (res matches Ok(Some(r)) && r@ == path@.skip(maang_root@.len() as int))
            &&& path_starts_with(path@, maang_root@) && path@.len() == maang_root@.len()
                ==> (res matches Ok(None))
            &&& !path_starts_with(path@, maang_root@)
                ==> (res matches Err(ArchiveError::StripPrefix { path: p }) && p@ == path@)
        },
{
    if is_excluded(path, maang_root, archives) || !is_file {
        return Ok(None);
    }
    match strip_prefix(path, maang_root) {
        Some(rel) => {
            if rel.len() == 0 {
                Ok(None)
            } else {
                Ok(Some(rel))
            }
        },
        None => Err(ArchiveError::StripPrefix { path: path.clone() }),
    }
}

} // verus!
