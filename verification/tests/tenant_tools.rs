use maangframe::snapshots::{cleanup_script, join, rsync_destination, snapshot_plan, stamp_from_reading, SnapshotError};
use maangframe::tenant_ops::{
    DelError, MigError, OpsError, backup_plan, backup_tenant_arg, build_tenant, delete_plan, delete_tenant_arg,
    epoch_from_reading, epoch_reading, epoch_secs, first_arg, migrate_plan, parse_migrate_args,
};

fn v(parts: &[&str]) -> Vec<String> {
    parts.iter().map(|s| s.to_string()).collect()
}

#[test]
fn clock_readings() {
    assert_eq!(epoch_from_reading(Some(42)).unwrap(), 42);
    assert!(matches!(epoch_from_reading(None), Err(OpsError::Time)));
    assert_eq!(epoch_reading(Some(7)).unwrap(), 7);
    assert!(matches!(epoch_reading(None), Err(DelError::State("clock"))));
    assert!(epoch_secs().unwrap() > 1_600_000_000);
}

#[test]
fn backup_plan_names() {
    let b = backup_plan("shop.example.com", 1700000000);
    assert_eq!(b.namespace, "shop_example_com");
    assert_eq!(b.tenant_root, "/srv/lillpepe/tenants/shop.example.com");
    assert_eq!(b.dump_path, "/tmp/shop.example.com-1700000000.surql");
    assert_eq!(b.archive_path, "/backups/shop.example.com-1700000000.tar.zst");
    assert_eq!(b.export_args, v(&["export", "/tmp/shop.example.com-1700000000.surql", "--ns", "shop_example_com", "--db", "site"]));
    assert_eq!(
        b.tar_args,
        v(&[
            "-I",
            "zstd",
            "-cf",
            "/backups/shop.example.com-1700000000.tar.zst",
            "/srv/lillpepe/tenants/shop.example.com",
            "/tmp/shop.example.com-1700000000.surql"
        ])
    );
}

#[test]
fn arguments() {
    assert!(matches!(backup_tenant_arg(&v(&["b"])), Err(OpsError::MissingArg("tenant domain"))));
    assert_eq!(backup_tenant_arg(&v(&["b", "x.io"])).unwrap(), "x.io");
    assert!(matches!(delete_tenant_arg(&v(&["d"])), Err(DelError::Missing("domain"))));
    assert_eq!(first_arg(&v(&["p", "a", "b"])), Some("a".to_string()));
}

#[test]
fn delete_plan_names() {
    let d = delete_plan("x.io", 5);
    assert_eq!(d.root, "/srv/lillpepe/tenants/x.io");
    assert_eq!(d.unit, "lillpepe@x.io.service");
    assert_eq!(d.timer, "backup-tenant@x.io.timer");
    assert_eq!(d.archive, "/backups/x.io-5.tar.zst");
    assert_eq!(d.vhost, "/etc/caddy/tenants/x.io.caddy");
    assert_eq!(d.disabled_vhost, "/etc/caddy/tenants/x.io.caddy.disabled-5");
    assert_eq!(d.archived_target, "/srv/lillpepe/archived/x.io-5");
}

#[test]
fn migrate_arguments_and_plan() {
    assert!(matches!(parse_migrate_args(&v(&["m"])), Err(MigError::Missing("domain"))));
    assert!(matches!(parse_migrate_args(&v(&["m", "a.io"])), Err(MigError::Missing("dest_host (ssh host)"))));
    let a = parse_migrate_args(&v(&["m", "a.io", "host2"])).unwrap();
    assert_eq!(a.dest_root, "/srv/lillpepe/tenants");
    let b = parse_migrate_args(&v(&["m", "a.io", "host2", "/data/t"])).unwrap();
    assert_eq!(b.dest_root, "/data/t");
    let p = migrate_plan(&a);
    assert_eq!(p.namespace, "a_io");
    assert_eq!(p.src_root, "/srv/lillpepe/tenants/a.io");
    assert_eq!(p.dump, "/tmp/a.io.surql");
    assert_eq!(p.dest_dir, "/srv/lillpepe/tenants/a.io");
    assert_eq!(p.dest_path, "host2:/srv/lillpepe/tenants/a.io");
    assert_eq!(p.rsync_source, "/srv/lillpepe/tenants/a.io/");
    assert_eq!(p.remote_dump, "host2:/tmp/a.io.surql");
    assert_eq!(p.import_cmd, "sudo surreal import --ns a_io --db site /tmp/a.io.surql && sudo rm -f /tmp/a.io.surql");
    assert_eq!(p.enable_cmd, "sudo systemctl enable --now lillpepe@a.io.service");
    assert_eq!(p.unit, "lillpepe@a.io.service");
}

#[test]
fn building_a_tenant_succeeds() {
    assert!(build_tenant("anything").is_ok());
}

#[test]
fn snapshot_paths() {
    assert_eq!(join("/home/u", "x"), "/home/u/x");
    assert_eq!(join("/home/u/", "x"), "/home/u/x");
    assert_eq!(join("", "x"), "x");
    assert_eq!(join("/home/u", "/etc"), "/etc");
    let s = snapshot_plan("/home/u", "2025-10-17_21-00");
    assert_eq!(s.source, "/home/u/maangframe");
    assert_eq!(s.dest_root, "/home/u/DevBackups/maang_backups");
    assert_eq!(s.dest, "/home/u/DevBackups/maang_backups/maang_2025-10-17_21-00");
    assert_eq!(s.archive, "/home/u/DevBackups/maang_backups/maang_2025-10-17_21-00.tar.gz");
    assert_eq!(
        rsync_destination("/home/u", "2025-10-17_19-03"),
        "/home/u/maangframe/DevBackups/maang_backups/maang_2025-10-17_19-03"
    );
    assert_eq!(
        cleanup_script("/d"),
        "find '/d' -type d -name target -prune -exec rm -rf {} +; find '/d' -type f -name '*.d' -delete"
    );
}

#[test]
fn stamp_readings() {
    assert_eq!(stamp_from_reading(Ok("2025-10-17_21-00".to_string())).unwrap(), "2025-10-17_21-00");
    assert!(matches!(stamp_from_reading(Err("bad".to_string())), Err(SnapshotError::TimeFmt(ref m)) if m == "bad"));
}
