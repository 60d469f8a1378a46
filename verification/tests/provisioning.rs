use maangframe::labels::Customization;
use maangframe::provision::{
    colors_of, database_setup_args, generate_custom_css, license_placeholder, provisioned_message, service_unit_path,
    shared_binary_path, systemd_unit_text, tenant_config_for, tenant_config_text, tenant_dir, tenant_dir_layout,
    tenant_env_text, tenant_subdirs, ProvisionConfig, TenantColors,
};

fn colors() -> TenantColors {
    TenantColors {
        primary: "#111".to_string(),
        secondary: "#222".to_string(),
        accent: "#333".to_string(),
        background: "#fff".to_string(),
        text: "#000".to_string(),
    }
}

#[test]
fn dedicated_tenant_layout() {
    let cfg = ProvisionConfig::default();
    assert_eq!(tenant_dir(&cfg, "shop.io"), "/opt/lillpepe/tenants/shop.io");
    assert_eq!(tenant_dir_layout(), vec!["static", "media", "config", "logs"]);
    assert_eq!(shared_binary_path(&cfg), "/opt/lillpepe/bin/tenant_app");
    let args = database_setup_args(&cfg, "tenant_shop_io");
    assert_eq!(args.len(), 13);
    assert_eq!(args[2], "127.0.0.1:8000");
    assert_eq!(args[8], "tenant_shop_io");
    assert_eq!(args[11], "--");
    assert_eq!(args[12], "DEFINE NAMESPACE IF NOT EXISTS tenant; USE NS tenant; DEFINE DATABASE IF NOT EXISTS main;");
}

#[test]
fn tenant_configuration() {
    let c = Customization {
        primary_color: "#a".to_string(),
        secondary_color: "#b".to_string(),
        accent_color: "#c".to_string(),
        background_color: "#d".to_string(),
        text_color: "#e".to_string(),
        logo_url: None,
        background_media_url: None,
        custom_css_url: None,
    };
    let t = colors_of(&c);
    assert_eq!((t.primary.as_str(), t.text.as_str()), ("#a", "#e"));
    let cfg = tenant_config_for("Shop-One.io", "wl1", colors(), 9123);
    assert_eq!(cfg.database_namespace, "tenant_shop_one_io");
    assert_eq!(cfg.database_name, "main");
    assert_eq!(cfg.port, 9123);
    assert_eq!(cfg.colors.accent, "#333");
}

#[test]
fn generated_files() {
    let css = generate_custom_css("a.io", &colors());
    assert!(css.starts_with("/* Auto-generated custom CSS for a.io */\n:root {\n    --primary-color: #111;\n"));
    assert!(css.ends_with("a {\n    color: var(--accent-color);\n}\n"));
    let unit = systemd_unit_text("a.io", "/t/a.io", "/bin/app");
    assert!(unit.contains("ExecStart=/bin/app --config /t/a.io/config/tenant.toml\n"));
    assert_eq!(service_unit_path("lillpepe-a_io"), "/etc/systemd/system/lillpepe-a_io.service");
    let env = tenant_env_text("a.io", "/srv/lillpepe/tenants/a.io", 16598, "a_io");
    assert_eq!(
        env,
        "TENANT_ID=a.io\nDOMAIN=a.io\nHOST=127.0.0.1\nPORT=16598\nSURREAL_URL=http://127.0.0.1:8000\nSURREAL_NS=a_io\nSURREAL_DB=site\nLOG_DIR=/srv/lillpepe/tenants/a.io/logs\nDATA_DIR=/srv/lillpepe/tenants/a.io/data\n"
    );
    let toml = tenant_config_text("a.io", "a_io", "/r");
    assert!(toml.starts_with("[tenant]\nid = \"a.io\"\n"));
    assert!(toml.contains("namespace = \"a_io\"\ndatabase  = \"site\"\npath      = \"/r/data/surreal.db\""));
    assert_eq!(tenant_subdirs(), vec!["", "/static", "/media", "/logs", "/data", "/cache", "/backups", "/tmp"]);
    assert_eq!(license_placeholder(), r#"{"status":"pending"}"#);
    assert_eq!(provisioned_message("a.io", "/r", 10001, "a_io"), "✅ provisioned a.io at /r (PORT 10001, NS a_io)");
}
