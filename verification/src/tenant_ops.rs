//! The operations tools for single tenants: backing up, retiring and moving
//! a tenant, and the workspace task runner.
//!
//! Each tool's commands, paths and messages are computed here; the tools run
//! the commands.
use vstd::prelude::*;
use crate::text::{to_owned_string, push_str, push_decimal, decimal, replace_all, replace_str};
use crate::clock::system_epoch_secs;
use crate::provision::tenant_root;

verus! {

// ---------------------------------------------------------------------------
// Clock
// ---------------------------------------------------------------------------

/// Why the backup tool stopped.
#[derive(Debug)]
pub enum OpsError {
    MissingArg(&'static str),
    Io(String),
    Time,
    CommandFailed { cmd: &'static str, code: Option<i32> },
}

/// Why the retirement tool stopped.
#[derive(Debug)]
pub enum DelError {
    Missing(&'static str),
    Io(String),
    Cmd { cmd: &'static str, code: Option<i32> },
    State(&'static str),
}

/// Why the migration tool stopped.
#[derive(Debug)]
pub enum MigError {
    Missing(&'static str),
    Io(String),
    Cmd { cmd: &'static str, code: Option<i32> },
    State(&'static str),
}

/// The backup tool's reading of a clock reading: seconds since the epoch,
/// or `Time` for a clock set before it.
pub fn epoch_from_reading(reading: Option<u64>) -> (res: Result<u64, OpsError>)
    ensures
        match reading {
            Some(s) => res == Ok::<u64, OpsError>(s),
            None => res matches Err(OpsError::Time),
        },
{
    match reading {
        Some(s) => Ok(s),
        None => Err(OpsError::Time),
    }
}

/// Seconds since the Unix epoch by the system clock; `Time` when the clock
/// reads a time before the epoch.
pub fn epoch_secs() -> (res: Result<u64, OpsError>)
    ensures
        res is Err ==> (res matches Err(OpsError::Time)),
{
    epoch_from_reading(system_epoch_secs())
}

/// The retirement tool's reading of a clock reading: seconds since the
/// epoch, or `State("clock")` for a clock set before it.
pub fn epoch_reading(reading: Option<u64>) -> (res: Result<u64, DelError>)
    ensures
        match reading {
            Some(s) => res == Ok::<u64, DelError>(s),
            None => res matches Err(DelError::State(m)) && m@ == "clock"@,
        },
{
    match reading {
        Some(s) => Ok(s),
        None => Err(DelError::State("clock")),
    }
}

/// Seconds since the Unix epoch by the system clock; `State("clock")` when
/// the clock reads a time before the epoch.
pub fn epoch() -> (res: Result<u64, DelError>)
    ensures
        res is Err ==> (res matches Err(DelError::State(m)) && m@ == "clock"@),
{
    epoch_reading(system_epoch_secs())
}

/// The first argument after the program name, if any.
pub fn first_arg(argv: &Vec<String>) -> (res: Option<String>)
    ensures
        argv@.len() < 2 ==> res is None,
        argv@.len() >= 2 ==> (res matches Some(a) && a@ == argv@[1]@),
{
    if argv.len() < 2 {
        None
    } else {
        Some(to_owned_string(argv[1].as_str()))
    }
}

/// The `<name>-<seconds>` stem shared by a tenant's dump and archive names.
pub open spec fn stamped(name: Seq<char>, ts: nat) -> Seq<char> {
    name + "-"@ + decimal(ts)
}

fn push_stamped(out: &mut String, name: &str, ts: u64)
    ensures
        final(out)@ == old(out)@ + stamped(name@, ts as nat),
{
    push_str(out, name);
    push_str(out, "-");
    push_decimal(out, ts);
    assert(final(out)@ =~= old(out)@ + stamped(name@, ts as nat));
}

// ---------------------------------------------------------------------------
// Backing up a tenant
// ---------------------------------------------------------------------------

/// The paths and commands of a tenant backup taken at `ts`.
pub struct BackupPlan {
    /// The tenant's database namespace (its domain with `.` made `_`).
    pub namespace: String,
    /// `/srv/lillpepe/tenants/<tenant>`.
    pub tenant_root: String,
    /// `/tmp/<tenant>-<ts>.surql`, the database dump.
    pub dump_path: String,
    /// `/backups/<tenant>-<ts>.tar.zst`.
    pub archive_path: String,
    /// `surreal export <dump> --ns <namespace> --db site`.
    pub export_args: Vec<String>,
    /// `tar -I zstd -cf <archive> <tenant_root> <dump>`.
    pub tar_args: Vec<String>,
}

/// The backup tool's plan for `tenant` at `ts` seconds.
pub fn backup_plan(tenant: &str, ts: u64) -> (res: BackupPlan)
    ensures
        res.namespace@ == replace_all(tenant@, "."@, "_"@),
        res.tenant_root@ == "/srv/lillpepe/tenants/"@ + tenant@,
        res.dump_path@ == "/tmp/"@ + stamped(tenant@, ts as nat) + ".surql"@,
        res.archive_path@ == "/backups/"@ + stamped(tenant@, ts as nat) + ".tar.zst"@,
        res.export_args@.len() == 6,
        res.export_args@[0]@ == "export"@,
        res.export_args@[1]@ == res.dump_path@,
        res.export_args@[2]@ == "--ns"@,
        res.export_args@[3]@ == res.namespace@,
        res.export_args@[4]@ == "--db"@,
        res.export_args@[5]@ == "site"@,
        res.tar_args@.len() == 6,
        res.tar_args@[0]@ == "-I"@,
        res.tar_args@[1]@ == "zstd"@,
        res.tar_args@[2]@ == "-cf"@,
        res.tar_args@[3]@ == res.archive_path@,
        res.tar_args@[4]@ == res.tenant_root@,
        res.tar_args@[5]@ == res.dump_path@,
{
    proof {
        reveal_strlit(".");
    }
    let namespace = replace_str(tenant, ".", "_");
    let root = tenant_root(tenant);
    let mut dump_path = to_owned_string("/tmp/");
    push_stamped(&mut dump_path, tenant, ts);
    push_str(&mut dump_path, ".surql");
    let mut archive_path = to_owned_string("/backups/");
    push_stamped(&mut archive_path, tenant, ts);
    push_str(&mut archive_path, ".tar.zst");
    let export_args = vec![
        to_owned_string("export"),
        to_owned_string(dump_path.as_str()),
        to_owned_string("--ns"),
        to_owned_string(namespace.as_str()),
        to_owned_string("--db"),
        to_owned_string("site"),
    ];
    let tar_args = vec![
        to_owned_string("-I"),
        to_owned_string("zstd"),
        to_owned_string("-cf"),
        to_owned_string(archive_path.as_str()),
        to_owned_string(root.as_str()),
        to_owned_string(dump_path.as_str()),
    ];
    BackupPlan { namespace, tenant_root: root, dump_path, archive_path, export_args, tar_args }
}

/// The backup tool's argument: the tenant domain, or
/// `MissingArg("tenant domain")`.
pub fn backup_tenant_arg(argv: &Vec<String>) -> (res: Result<String, OpsError>)
    ensures
        argv@.len() < 2 ==> (res matches Err(OpsError::MissingArg(m)) && m@ == "tenant domain"@),
        argv@.len() >= 2 ==> (res matches Ok(t) && t@ == argv@[1]@),
{
    match first_arg(argv) {
        Some(t) => Ok(t),
        None => Err(OpsError::MissingArg("tenant domain")),
    }
}

// ---------------------------------------------------------------------------
// Retiring a tenant
// ---------------------------------------------------------------------------

/// The names of a tenant retirement at `ts`.
pub struct DeletePlan {
    /// `/srv/lillpepe/tenants/<domain>`.
    pub root: String,
    /// `lillpepe@<domain>.service`.
    pub unit: String,
    /// `backup-tenant@<domain>.timer`.
    pub timer: String,
    /// `/backups/<domain>-<ts>.tar.zst`.
    pub archive: String,
    /// `/etc/caddy/tenants/<domain>.caddy`.
    pub vhost: String,
    /// `<vhost>.disabled-<ts>`.
    pub disabled_vhost: String,
    /// `/srv/lillpepe/archived/<domain>-<ts>`.
    pub archived_target: String,
}

/// The backup timer of a tenant: `backup-tenant@<domain>.timer`.
pub fn backup_timer(domain: &str) -> (res: String)
    ensures
        res@ == "backup-tenant@"@ + domain@ + ".timer"@,
{
    let mut timer = to_owned_string("backup-tenant@");
    push_str(&mut timer, domain);
    push_str(&mut timer, ".timer");
    timer
}

/// The retirement tool's plan for `domain` at `ts` seconds.
pub fn delete_plan(domain: &str, ts: u64) -> (res: DeletePlan)
    ensures
        res.root@ == "/srv/lillpepe/tenants/"@ + domain@,
        res.unit@ == "lillpepe@"@ + domain@ + ".service"@,
        res.timer@ == "backup-tenant@"@ + domain@ + ".timer"@,
        res.archive@ == "/backups/"@ + stamped(domain@, ts as nat) + ".tar.zst"@,
        res.vhost@ == "/etc/caddy/tenants/"@ + domain@ + ".caddy"@,
        res.disabled_vhost@ == res.vhost@ + ".disabled-"@ + decimal(ts as nat),
        res.archived_target@ == "/srv/lillpepe/archived/"@ + stamped(domain@, ts as nat),
{
    let root = tenant_root(domain);
    let unit = crate::release::tenant_unit(domain);
    let timer = backup_timer(domain);
    let mut archive = to_owned_string("/backups/");
    push_stamped(&mut archive, domain, ts);
    push_str(&mut archive, ".tar.zst");
    let mut vhost = to_owned_string("/etc/caddy/tenants/");
    push_str(&mut vhost, domain);
    push_str(&mut vhost, ".caddy");
    let mut disabled_vhost = to_owned_string(vhost.as_str());
    push_str(&mut disabled_vhost, ".disabled-");
    push_decimal(&mut disabled_vhost, ts);
    let mut archived_target = to_owned_string("/srv/lillpepe/archived/");
    push_stamped(&mut archived_target, domain, ts);
    DeletePlan { root, unit, timer, archive, vhost, disabled_vhost, archived_target }
}

/// The retirement tool's argument: the domain, or `Missing("domain")`.
pub fn delete_tenant_arg(argv: &Vec<String>) -> (res: Result<String, DelError>)
    ensures
        argv@.len() < 2 ==> (res matches Err(DelError::Missing(m)) && m@ == "domain"@),
        argv@.len() >= 2 ==> (res matches Ok(t) && t@ == argv@[1]@),
{
    match first_arg(argv) {
        Some(t) => Ok(t),
        None => Err(DelError::Missing("domain")),
    }
}

// ---------------------------------------------------------------------------
// Moving a tenant to another host
// ---------------------------------------------------------------------------

/// The migration tool's arguments.
pub struct MigrateArgs {
    pub domain: String,
    pub dest_host: String,
    pub dest_root: String,
}

/// Read `migrate_tenant <domain> <dest_host> [dest_root]`; the destination
/// root defaults to `/srv/lillpepe/tenants`.
pub fn parse_migrate_args(argv: &Vec<String>) -> (res: Result<MigrateArgs, MigError>)
    ensures
        argv@.len() < 2 ==> (res matches Err(MigError::Missing(m)) && m@ == "domain"@),
        argv@.len() == 2 ==> (res matches Err(MigError::Missing(m)) && m@ == "dest_host (ssh host)"@),
        argv@.len() >= 3 ==> (res matches Ok(a) && a.domain@ == argv@[1]@ && a.dest_host@ == argv@[2]@
            && a.dest_root@ == if argv@.len() >= 4 { argv@[3]@ } else { "/srv/lillpepe/tenants"@ }),
{
    if argv.len() < 2 {
        return Err(MigError::Missing("domain"));
    }
    if argv.len() < 3 {
        return Err(MigError::Missing("dest_host (ssh host)"));
    }
    let dest_root = if argv.len() >= 4 {
        to_owned_string(argv[3].as_str())
    } else {
        to_owned_string("/srv/lillpepe/tenants")
    };
    Ok(MigrateArgs {
        domain: to_owned_string(argv[1].as_str()),
        dest_host: to_owned_string(argv[2].as_str()),
        dest_root,
    })
}

/// The names and remote commands of a migration.
pub struct MigratePlan {
    /// The tenant's database namespace.
    pub namespace: String,
    /// `/srv/lillpepe/tenants/<domain>` on this host.
    pub src_root: String,
    /// `/tmp/<domain>.surql`, on both hosts.
    pub dump: String,
    /// `<dest_root>/<domain>` on the destination.
    pub dest_dir: String,
    /// `<dest_host>:<dest_dir>`, the rsync target.
    pub dest_path: String,
    /// `<src_root>/`, the rsync source.
    pub rsync_source: String,
    /// `<dest_host>:<dump>`, the scp target.
    pub remote_dump: String,
    /// The import run on the destination.
    pub import_cmd: String,
    /// The service start run on the destination.
    pub enable_cmd: String,
    /// `lillpepe@<domain>.service`, stopped here afterwards.
    pub unit: String,
}

/// The migration tool's plan.
pub fn migrate_plan(args: &MigrateArgs) -> (res: MigratePlan)
    ensures
        res.namespace@ == replace_all(args.domain@, "."@, "_"@),
        res.src_root@ == "/srv/lillpepe/tenants/"@ + args.domain@,
        res.dump@ == "/tmp/"@ + args.domain@ + ".surql"@,
        res.dest_dir@ == args.dest_root@ + "/"@ + args.domain@,
        res.dest_path@ == args.dest_host@ + ":"@ + res.dest_dir@,
        res.rsync_source@ == res.src_root@ + "/"@,
        res.remote_dump@ == args.dest_host@ + ":"@ + res.dump@,
        res.import_cmd@ == "sudo surreal import --ns "@ + res.namespace@ + " --db site /tmp/"@ + args.domain@
            + ".surql && sudo rm -f /tmp/"@ + args.domain@ + ".surql"@,
        res.enable_cmd@ == "sudo systemctl enable --now lillpepe@"@ + args.domain@ + ".service"@,
        res.unit@ == "lillpepe@"@ + args.domain@ + ".service"@,
{
    proof {
        reveal_strlit(".");
    }
    let domain = args.domain.as_str();
    let namespace = replace_str(domain, ".", "_");
    let src_root = tenant_root(domain);
    let mut dump = to_owned_string("/tmp/");
    push_str(&mut dump, domain);
    push_str(&mut dump, ".surql");
    let mut dest_dir = to_owned_string(args.dest_root.as_str());
    push_str(&mut dest_dir, "/");
    push_str(&mut dest_dir, domain);
    let mut dest_path = to_owned_string(args.dest_host.as_str());
    push_str(&mut dest_path, ":");
    push_str(&mut dest_path, dest_dir.as_str());
    let mut rsync_source = to_owned_string(src_root.as_str());
    push_str(&mut rsync_source, "/");
    let mut remote_dump = to_owned_string(args.dest_host.as_str());
    push_str(&mut remote_dump, ":");
    push_str(&mut remote_dump, dump.as_str());
    let mut import_cmd = to_owned_string("sudo surreal import --ns ");
    push_str(&mut import_cmd, namespace.as_str());
    push_str(&mut import_cmd, " --db site /tmp/");
    push_str(&mut import_cmd, domain);
    push_str(&mut import_cmd, ".surql && sudo rm -f /tmp/");
    push_str(&mut import_cmd, domain);
    push_str(&mut import_cmd, ".surql");
    let mut enable_cmd = to_owned_string("sudo systemctl enable --now lillpepe@");
    push_str(&mut enable_cmd, domain);
    push_str(&mut enable_cmd, ".service");
    let unit = crate::release::tenant_unit(domain);
    MigratePlan {
        namespace,
        src_root,
        dump,
        dest_dir,
        dest_path,
        rsync_source,
        remote_dump,
        import_cmd,
        enable_cmd,
        unit,
    }
}

// ---------------------------------------------------------------------------
// Workspace tasks
// ---------------------------------------------------------------------------

/// Why a workspace task failed.
#[derive(Debug)]
pub enum XtaskError {
    Command(String),
}

/// Build a tenant. There is nothing to build yet: this succeeds for every
/// name.
pub fn build_tenant(name: &str) -> (res: Result<(), XtaskError>)
    ensures
        res is Ok,
{
    Ok(())
}

} // verus!
