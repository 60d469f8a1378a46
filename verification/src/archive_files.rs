//! Which files of the project tree go into the type-specific archives
//! (`maang_md.tar.gz`, `maang_rs.tar.gz`, `maang_cargotoml.tar.gz`).
//!
//! A path is modelled as the list of its components, each by its text as
//! `Path::components` yields it (`/` for the root, `..` for a parent step,
//! the name otherwise).
use vstd::prelude::*;
use crate::text::{to_owned_string, str_eq, chars_of, string_from_range};

verus! {

/// Two paths are equal when their components are.
pub open spec fn same_path(a: Seq<String>, b: Seq<String>) -> bool {
    &&& a.len() == b.len()
    &&& forall|i: int| 0 <= i < a.len() ==> (#[trigger] a[i])@ == b[i]@
}

/// `base` is a leading part of `path`, component by component.
pub open spec fn path_starts_with(path: Seq<String>, base: Seq<String>) -> bool {
    &&& base.len() <= path.len()
    &&& forall|i: int| 0 <= i < base.len() ==> (#[trigger] base[i])@ == path[i]@
}

/// Some component of the path is named `target`.
pub open spec fn has_target_component(path: Seq<String>) -> bool {
    exists|i: int| 0 <= i < path.len() && (#[trigger] path[i])@ == "target"@
}

/// The number of leading components of the deepest ancestor of a path
/// (the path itself included) whose name is `maangframe`; 0 if none is.
pub open spec fn maang_root_len(path: Seq<String>) -> nat
    decreases path.len(),
{
    if path.len() == 0 {
        0
    } else if path.last()@ == "maangframe"@ {
        path.len()
    } else {
        maang_root_len(path.drop_last())
    }
}

proof fn lemma_maang_root_len(path: Seq<String>)
    ensures
        maang_root_len(path) <= path.len(),
        maang_root_len(path) > 0 ==> path[maang_root_len(path) - 1]@ == "maangframe"@,
        forall|i: int| maang_root_len(path) <= i < path.len() ==> (#[trigger] path[i])@ != "maangframe"@,
    decreases path.len(),
{
    if path.len() > 0 && path.last()@ != "maangframe"@ {
        lemma_maang_root_len(path.drop_last());
        assert forall|i: int| maang_root_len(path) <= i < path.len() implies (#[trigger] path[i])@ != "maangframe"@ by {
            if i < path.len() - 1 {
                assert(path[i] == path.drop_last()[i]);
            }
        }
    }
}

/// The project root above `start`: its deepest ancestor (itself included)
/// named `maangframe`, if any.
pub fn find_maang_root(start: &Vec<String>) -> (res: Option<Vec<String>>)
    ensures
        maang_root_len(start@) == 0 ==> res is None,
        maang_root_len(start@) > 0 ==> (res matches Some(r) && r@ == start@.take(maang_root_len(start@) as int)),
{
    proof {
        lemma_maang_root_len(start@);
    }
    let mut k: usize = start.len();
    while k > 0
        invariant
            k <= start@.len(),
            maang_root_len(start@) <= k,
            maang_root_len(start@) <= start@.len(),
            forall|i: int| maang_root_len(start@) <= i < start@.len() ==> (#[trigger] start@[i])@ != "maangframe"@,
            maang_root_len(start@) > 0 ==> start@[maang_root_len(start@) - 1]@ == "maangframe"@,
        decreases k,
    {
        if str_eq(start[k - 1].as_str(), "maangframe") {
            let mut root: Vec<String> = Vec::new();
            let mut j: usize = 0;
            while j < k
                invariant
                    j <= k,
                    k <= start@.len(),
                    root@ == start@.take(j as int),
                decreases k - j,
            {
                root.push(start[j].clone());
                assert(root@ =~= start@.take(j + 1)) by {
                    assert(start@[j as int] == start@.take(j + 1)[j as int]);
                }
                j = j + 1;
            }
            return Some(root);
        }
        k = k - 1;
    }
    None
}

/// The directory the archives are written to: `<root>/var/archives`.
pub fn archives_dir(maang_root: &Vec<String>) -> (res: Vec<String>)
    ensures
        res@.len() == maang_root@.len() + 2,
        forall|i: int| 0 <= i < maang_root@.len() ==> res@[i] == maang_root@[i],
        res@[maang_root@.len() as int]@ == "var"@,
        res@[maang_root@.len() as int + 1]@ == "archives"@,
{
    let mut res: Vec<String> = Vec::new();
    let mut j: usize = 0;
    while j < maang_root.len()
        invariant
            j <= maang_root@.len(),
            res@ == maang_root@.take(j as int),
        decreases maang_root@.len() - j,
    {
        res.push(maang_root[j].clone());
        assert(res@ =~= maang_root@.take(j + 1)) by {
            assert(maang_root@[j as int] == maang_root@.take(j + 1)[j as int]);
        }
        j = j + 1;
    }
    res.push(to_owned_string("var"));
    res.push(to_owned_string("archives"));
    res
}

/// Whether two paths are equal.
pub fn paths_equal(a: &Vec<String>, b: &Vec<String>) -> (res: bool)
    ensures
        res == same_path(a@, b@),
{
    if a.len() != b.len() {
        return false;
    }
    let mut i: usize = 0;
    while i < a.len()
        invariant
            a@.len() == b@.len(),
            i <= a@.len(),
            forall|j: int| 0 <= j < i ==> (#[trigger] a@[j])@ == b@[j]@,
        decreases a@.len() - i,
    {
        if !str_eq(a[i].as_str(), b[i].as_str()) {
            return false;
        }
        i = i + 1;
    }
    true
}

/// Whether `base` leads `path`, component by component.
pub fn starts_with_path(path: &Vec<String>, base: &Vec<String>) -> (res: bool)
    ensures
        res == path_starts_with(path@, base@),
{
    if base.len() > path.len() {
        return false;
    }
    let mut i: usize = 0;
    while i < base.len()
        invariant
            base@.len() <= path@.len(),
            i <= base@.len(),
            forall|j: int| 0 <= j < i ==> (#[trigger] base@[j])@ == path@[j]@,
        decreases base@.len() - i,
    {
        if !str_eq(base[i].as_str(), path[i].as_str()) {
            return false;
        }
        i = i + 1;
    }
    true
}

/// Whether some component of the path is named `target`.
pub fn contains_target(path: &Vec<String>) -> (res: bool)
    ensures
        res == has_target_component(path@),
{
    let mut i: usize = 0;
    while i < path.len()
        invariant
            i <= path@.len(),
            forall|j: int| 0 <= j < i ==> (#[trigger] path@[j])@ != "target"@,
        decreases path@.len() - i,
    {
        if str_eq(path[i].as_str(), "target") {
            return true;
        }
        i = i + 1;
    }
    false
}

/// A path left out of the type-specific archives: anything under a `target`
/// directory, anything under the archives directory, and the root itself.
pub open spec fn excluded(path: Seq<String>, maang_root: Seq<String>, archives: Seq<String>) -> bool {
    has_target_component(path) || path_starts_with(path, archives) || same_path(path, maang_root)
}

/// Whether the walk leaves a path out of the type-specific archives.
pub fn is_excluded(path: &Vec<String>, maang_root: &Vec<String>, archives_dir: &Vec<String>) -> (res: bool)
    ensures
        res == excluded(path@, maang_root@, archives_dir@),
{
    if contains_target(path) {
        return true;
    }
    if starts_with_path(path, archives_dir) {
        return true;
    }
    paths_equal(path, maang_root)
}

/// Why an archive run stopped.
#[derive(Debug)]
pub enum ArchiveError {
    Io(String),
    Walkdir(String),
    /// A walked path did not lie under the project root.
    StripPrefix { path: Vec<String> },
    Finish(String),
}

/// The three type-specific archives.
#[derive(Debug, Clone, Copy, PartialEq, Eq, Structural)]
pub enum Slice {
    /// All `*.md` files.
    Markdown,
    /// All `*.rs` files.
    Rust,
    /// All files named `Cargo.toml`.
    CargoToml,
}

/// The index of the last `.` in `name`, or -1.
pub open spec fn last_dot(name: Seq<char>) -> int
    decreases name.len(),
{
    if name.len() == 0 {
        -1
    } else if name.last() == '.' {
        name.len() - 1
    } else {
        last_dot(name.drop_last())
    }
}

/// `Path::extension` of a file name: the text after its last `.`, unless
/// the name is `..`, has no `.`, or has its only leading `.` first.
pub open spec fn extension_of(name: Seq<char>) -> Option<Seq<char>> {
    if name == ".."@ || last_dot(name) <= 0 {
        None
    } else {
        Some(name.skip(last_dot(name) + 1))
    }
}

proof fn lemma_last_dot(name: Seq<char>)
    ensures
        -1 <= last_dot(name) < name.len(),
        last_dot(name) >= 0 ==> name[last_dot(name)] == '.',
        forall|i: int| last_dot(name) < i < name.len() ==> name[i] != '.',
    decreases name.len(),
{
    if name.len() > 0 && name.last() != '.' {
        lemma_last_dot(name.drop_last());
        assert forall|i: int| last_dot(name) < i < name.len() implies name[i] != '.' by {
            if i < name.len() - 1 {
                assert(name[i] == name.drop_last()[i]);
            }
        }
    }
}

/// The extension of a file name.
pub fn extension(name: &str) -> (res: Option<String>)
    ensures
        match extension_of(name@) {
            None => res is None,
            Some(e) => res matches Some(r) && r@ == e,
        },
{
    proof {
        reveal_strlit("..");
        lemma_last_dot(name@);
    }
    if str_eq(name, "..") {
        return None;
    }
    assert(name@ != ".."@);
    let cs = chars_of(name);
    let mut i: usize = cs.len();
    while i > 0
        invariant
            i <= cs@.len(),
            cs@ == name@,
            name@ != ".."@,
            forall|j: int| i <= j < cs@.len() ==> cs@[j] != '.',
            -1 <= last_dot(name@) < name@.len(),
            last_dot(name@) >= 0 ==> name@[last_dot(name@)] == '.',
            forall|j: int| last_dot(name@) < j < name@.len() ==> name@[j] != '.',
        decreases i,
    {
        if cs[i - 1] == '.' {
            assert(last_dot(name@) == i - 1);
            if i - 1 == 0 {
                return None;
            }
            let e = string_from_range(&cs, i, cs.len());
            assert(e@ =~= name@.skip(last_dot(name@) + 1));
            assert(extension_of(name@) == Some(name@.skip(last_dot(name@) + 1)));
            return Some(e);
        }
        i = i - 1;
    }
    assert(last_dot(name@) == -1);
    None
}

impl Slice {
    /// The archive file of the slice.
    pub fn out_name(&self) -> (res: &'static str)
        ensures
            res@ == match self {
                Slice::Markdown => "maang_md.tar.gz"@,
                Slice::Rust => "maang_rs.tar.gz"@,
                Slice::CargoToml => "maang_cargotoml.tar.gz"@,
            },
    {
        match self {
            Slice::Markdown => "maang_md.tar.gz",
            Slice::Rust => "maang_rs.tar.gz",
            Slice::CargoToml => "maang_cargotoml.tar.gz",
        }
    }

    /// Whether a file of this name belongs to the slice.
    pub fn includes(&self, file_name: &str) -> (res: bool)
        ensures
            res == match self {
                Slice::Markdown => extension_of(file_name@) == Some("md"@),
                Slice::Rust => extension_of(file_name@) == Some("rs"@),
                Slice::CargoToml => file_name@ == "Cargo.toml"@,
            },
    {
        match self {
            Slice::Markdown => match extension(file_name) {
                Some(e) => str_eq(e.as_str(), "md"),
                None => false,
            },
            Slice::Rust => match extension(file_name) {
                Some(e) => str_eq(e.as_str(), "rs"),
                None => false,
            },
            Slice::CargoToml => str_eq(file_name, "Cargo.toml"),
        }
    }
}

/// The components of `path` after those of `base`.
pub fn strip_prefix(path: &Vec<String>, base: &Vec<String>) -> (res: Option<Vec<String>>)
    ensures
        path_starts_with(path@, base@) ==> (res matches Some(r) && r@ == path@.skip(base@.len() as int)),
        !path_starts_with(path@, base@) ==> res is None,
{
    if !starts_with_path(path, base) {
        return None;
    }
    let mut rel: Vec<String> = Vec::new();
    let mut j: usize = base.len();
    while j < path.len()
        invariant
            base@.len() <= j <= path@.len(),
            rel@ == path@.subrange(base@.len() as int, j as int),
        decreases path@.len() - j,
    {
        rel.push(path[j].clone());
        assert(rel@ =~= path@.subrange(base@.len() as int, j + 1));
        j = j + 1;
    }
    assert(rel@ =~= path@.skip(base@.len() as int));
    Some(rel)
}

/// What the type-specific archiver does with a walked entry: skip it
/// (excluded, not a regular file, or not of the slice), or add it under its
/// path relative to the root; a path outside the root is an error.
pub fn slice_member(
    slice: Slice,
    path: &Vec<String>,
    is_file: bool,
    maang_root: &Vec<String>,
    archives: &Vec<String>,
) -> (res: Result<Option<Vec<String>>, ArchiveError>)
    ensures
        (excluded(path@, maang_root@, archives@) || !is_file) ==> (res matches Ok(None)),
        !excluded(path@, maang_root@, archives@) && is_file && path@.len() > 0 ==> {
            let name = path@.last()@;
            let wanted = match slice {
                Slice::Markdown => extension_of(name) == Some("md"@),
                Slice::Rust => extension_of(name) == Some("rs"@),
                Slice::CargoToml => name == "Cargo.toml"@,
            };
            &&& !wanted ==> (res matches Ok(None))
            &&& wanted && path_starts_with(path@, maang_root@)
                ==> (res matches Ok(Some(r)) && r@ == path@.skip(maang_root@.len() as int))
            &&& wanted && !path_starts_with(path@, maang_root@)
                ==> (res matches Err(ArchiveError::StripPrefix { path: p }) && p@ == path@)
        },
        !excluded(path@, maang_root@, archives@) && is_file && path@.len() == 0 ==> (res matches Ok(None)),
{
    if is_excluded(path, maang_root, archives) || !is_file {
        return Ok(None);
    }
    if path.len() == 0 {
        return Ok(None);
    }
    let name = path[path.len() - 1].as_str();
    if !slice.includes(name) {
        return Ok(None);
    }
    match strip_prefix(path, maang_root) {
        Some(rel) => Ok(Some(rel)),
        None => Err(ArchiveError::StripPrefix { path: path.clone() }),
    }
}

} // verus!
