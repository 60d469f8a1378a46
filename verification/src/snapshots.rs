//! Snapshots of the project tree under the home directory: the copy, tar
//! and rsync backup tools.
//!
//! The tools stamp each snapshot with the UTC time in the form
//! `YYYY-MM-DD_HH-MM`; the paths and command lines are computed here from
//! the home directory and that stamp.
use vstd::prelude::*;
use crate::text::{to_owned_string, push_str, chars_of};

verus! {

/// `PathBuf::push` on Unix: an absolute path (one starting with `/`)
/// replaces the base; otherwise a `/` is put between the two parts unless
/// the base is empty or already ends with one.
pub open spec fn join_path(base: Seq<char>, rel: Seq<char>) -> Seq<char> {
    if rel.len() > 0 && rel[0] == '/' {
        rel
    } else if base.len() == 0 || base.last() == '/' {
        base + rel
    } else {
        base + "/"@ + rel
    }
}

/// Join a relative path onto a base path.
pub fn join(base: &str, rel: &str) -> (res: String)
    ensures
        res@ == join_path(base@, rel@),
{
    let rs = chars_of(rel);
    if rs.len() > 0 && rs[0] == '/' {
        return to_owned_string(rel);
    }
    let cs = chars_of(base);
    let mut s = to_owned_string(base);
    if cs.len() > 0 && cs[cs.len() - 1] != '/' {
        push_str(&mut s, "/");
    }
    push_str(&mut s, rel);
    s
}

/// The paths of a snapshot.
pub struct SnapshotPlan {
    /// `<home>/maangframe`, the tree copied.
    pub source: String,
    /// `<home>/DevBackups/maang_backups`.
    pub dest_root: String,
    /// `<dest_root>/maang_<stamp>`.
    pub dest: String,
    /// `<dest_root>/maang_<stamp>.tar.gz`.
    pub archive: String,
}

/// The snapshot name: `maang_<stamp>`.
pub open spec fn snapshot_name(stamp: Seq<char>) -> Seq<char> {
    "maang_"@ + stamp
}

/// The copy and tar tools' paths for a home directory and a stamp.
pub fn snapshot_plan(home: &str, stamp: &str) -> (res: SnapshotPlan)
    ensures
        res.source@ == join_path(home@, "maangframe"@),
        res.dest_root@ == join_path(home@, "DevBackups/maang_backups"@),
        res.dest@ == join_path(res.dest_root@, snapshot_name(stamp@)),
        res.archive@ == join_path(res.dest_root@, snapshot_name(stamp@) + ".tar.gz"@),
{
    let source = join(home, "maangframe");
    let dest_root = join(home, "DevBackups/maang_backups");
    let mut name = to_owned_string("maang_");
    push_str(&mut name, stamp);
    let dest = join(dest_root.as_str(), name.as_str());
    let mut archive_name = to_owned_string(name.as_str());
    push_str(&mut archive_name, ".tar.gz");
    let archive = join(dest_root.as_str(), archive_name.as_str());
    SnapshotPlan { source, dest_root, dest, archive }
}

/// The rsync tool's destination:
/// `<home>/maangframe/DevBackups/maang_backups/maang_<stamp>`.
pub fn rsync_destination(home: &str, stamp: &str) -> (res: String)
    ensures
        res@ == join_path(join_path(join_path(join_path(home@, "maangframe"@), "DevBackups"@), "maang_backups"@),
            snapshot_name(stamp@)),
{
    let a = join(home, "maangframe");
    let b = join(a.as_str(), "DevBackups");
    let c = join(b.as_str(), "maang_backups");
    let mut name = to_owned_string("maang_");
    push_str(&mut name, stamp);
    join(c.as_str(), name.as_str())
}

/// The shell script the tar tool runs to clear build output out of a
/// snapshot: it removes every `target` directory and every `*.d` file.
pub fn cleanup_script(dest: &str) -> (res: String)
    ensures
        res@ == "find '"@ + dest@ + "' -type d -name target -prune -exec rm -rf {} +; find '"@ + dest@
            + "' -type f -name '*.d' -delete"@,
{
    let mut s = to_owned_string("find '");
    push_str(&mut s, dest);
    push_str(&mut s, "' -type d -name target -prune -exec rm -rf {} +; find '");
    push_str(&mut s, dest);
    push_str(&mut s, "' -type f -name '*.d' -delete");
    s
}

/// Why a snapshot tool stopped.
#[derive(Debug)]
pub enum SnapshotError {
    HomeDir,
    Io(String),
    TimeFmt(String),
    Copy(Option<i32>),
    Cleanup(String),
    Archive(String),
    Rsync(Option<i32>),
}

/// The format description of a snapshot stamp, in the syntax of the
/// `time` crate: `[year]-[month]-[day]_[hour]-[minute]`.
pub open spec fn stamp_format_text() -> Seq<char> {
    "[year]-[month]-[day]_[hour]-[minute]"@
}

/// The format description of a snapshot stamp.
pub fn stamp_format() -> (res: &'static str)
    ensures
        res@ == stamp_format_text(),
{
    "[year]-[month]-[day]_[hour]-[minute]"
}

pub open spec fn is_digit(c: char) -> bool {
    '0' <= c && c <= '9'
}

/// `YYYY-MM-DD_HH-MM`: sixteen characters, digits except for the
/// separators at 4, 7, 10 and 13.
pub open spec fn unsigned_stamp(s: Seq<char>) -> bool {
    &&& s.len() == 16
    &&& s[4] == '-' && s[7] == '-' && s[10] == '_' && s[13] == '-'
    &&& forall|i: int| 0 <= i < 16 && i != 4 && i != 7 && i != 10 && i != 13 ==> is_digit(#[trigger] s[i])
}

/// The shape of a stamp: `YYYY-MM-DD_HH-MM` for the years 0 to 9999, and
/// the same after a `-` for the years before 0.
pub open spec fn stamp_shaped(s: Seq<char>) -> bool {
    unsigned_stamp(s) || (s.len() == 17 && s[0] == '-' && unsigned_stamp(s.skip(1)))
}

/// The current UTC time formatted with a `time` format description
/// (`format_description::parse`, `OffsetDateTime::now_utc`, `format`); a
/// failure comes back as the crate's message. The reading depends on the
/// clock. With the stamp description the result is always `Ok` and shaped
/// like a stamp: the description is well formed, an `OffsetDateTime` has
/// every component it asks for, and `time` writes `[year]` as four
/// zero-padded digits with a `-` only before negative years (its years lie
/// within -9999 to 9999) and the other components as two zero-padded
/// digits.
#[verifier::external_body]
fn utc_now_formatted(description: &str) -> (res: Result<String, String>)
    ensures
        description@ == stamp_format_text() ==> (res is Ok && stamp_shaped(res->Ok_0@)),
{
    let fmt = time::format_description::parse(description).map_err(|e| e.to_string())?;
    time::OffsetDateTime::now_utc().format(&fmt).map_err(|e| e.to_string())
}

/// The snapshot tools' reading of a formatted clock: the stamp itself, or
/// `TimeFmt` with the formatter's message.
pub fn stamp_from_reading(reading: Result<String, String>) -> (res: Result<String, SnapshotError>)
    ensures
        match reading {
            Ok(s) => res == Ok::<String, SnapshotError>(s),
            Err(e) => res matches Err(SnapshotError::TimeFmt(m)) && m == e,
        },
{
    match reading {
        Ok(s) => Ok(s),
        Err(e) => Err(SnapshotError::TimeFmt(e)),
    }
}

/// The stamp of a snapshot taken now: the current UTC time formatted with
/// `stamp_format`, which always succeeds.
pub fn snapshot_stamp() -> (res: Result<String, SnapshotError>)
    ensures
        res matches Ok(s) && stamp_shaped(s@),
{
    stamp_from_reading(utc_now_formatted(stamp_format()))
}

/// The plan of a snapshot of `home` taken now: the stamp, then the paths of
/// `snapshot_plan` for it.
pub fn snapshot_now(home: &str) -> (res: Result<(String, SnapshotPlan), SnapshotError>)
    ensures
        res matches Ok((stamp, p)) && {
            &&& stamp_shaped(stamp@)
            &&& p.source@ == join_path(home@, "maangframe"@)
            &&& p.dest_root@ == join_path(home@, "DevBackups/maang_backups"@)
            &&& p.dest@ == join_path(p.dest_root@, snapshot_name(stamp@))
            &&& p.archive@ == join_path(p.dest_root@, snapshot_name(stamp@) + ".tar.gz"@)
        },
{
    let stamp = snapshot_stamp()?;
    let plan = snapshot_plan(home, stamp.as_str());
    Ok((stamp, plan))
}

} // verus!
