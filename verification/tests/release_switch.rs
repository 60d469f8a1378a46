use maangframe::release::{
    Args, SwitchError, health_url, parse_args, previous_release, release_binary, rollback_target, switch_target,
    tenant_unit, text_less,
};

fn v(parts: &[&str]) -> Vec<String> {
    parts.iter().map(|s| s.to_string()).collect()
}

#[test]
fn options_in_any_order() {
    let a = parse_args(&v(&["switch", "--all", "2025.10.16+001", "--rollback", "shop.example", "extra"])).unwrap();
    assert_eq!(a.version.as_deref(), Some("2025.10.16+001"));
    assert_eq!(a.canary_domain.as_deref(), Some("shop.example"));
    assert!(a.restart_all && a.rollback);
    let b = parse_args(&v(&["switch"])).unwrap();
    assert!(b.version.is_none() && b.canary_domain.is_none() && !b.restart_all && !b.rollback);
    let c = parse_args(&v(&[])).unwrap();
    assert!(c.version.is_none());
}

#[test]
fn lexicographic_order() {
    assert!(text_less("2025.10.16+001", "2025.10.16+002"));
    assert!(text_less("a", "ab"));
    assert!(!text_less("b", "ab"));
    assert!(!text_less("x", "x"));
    assert!(text_less("", "a"));
}

#[test]
fn previous_release_is_second_newest() {
    assert_eq!(previous_release(&v(&["2025.01", "2025.03", "2025.02"])), Some("2025.02".to_string()));
    assert_eq!(previous_release(&v(&["b", "a"])), Some("a".to_string()));
    assert_eq!(previous_release(&v(&["only"])), None);
    assert_eq!(previous_release(&v(&["z", "z", "a"])), Some("z".to_string()));
}

#[test]
fn rollback_needs_two_releases() {
    assert_eq!(rollback_target(&v(&["1", "2"])).unwrap(), "/opt/lillpepe/releases/1/lillpepe");
    match rollback_target(&v(&["1"])) {
        Err(SwitchError::InvalidState(m)) => assert_eq!(m, "no previous release found"),
        _ => panic!(),
    }
}

#[test]
fn switch_needs_version_and_canary() {
    let mut a = Args { version: None, canary_domain: None, restart_all: false, rollback: false };
    assert!(matches!(switch_target(&a), Err(SwitchError::MissingArg("version (e.g. 2025.10.16+001)"))));
    a.version = Some("v1".to_string());
    assert!(matches!(switch_target(&a), Err(SwitchError::MissingArg("canary domain"))));
    a.canary_domain = Some("c.io".to_string());
    assert_eq!(switch_target(&a).unwrap(), ("v1".to_string(), "c.io".to_string()));
}

#[test]
fn names() {
    assert_eq!(tenant_unit("a.io"), "lillpepe@a.io.service");
    assert_eq!(health_url("a.io"), "https://a.io/health");
    assert_eq!(release_binary("/r", "v"), "/r/v/lillpepe");
}
