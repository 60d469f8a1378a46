use maangframe::archive_files::{
    ArchiveError, Slice, archives_dir, extension, find_maang_root, is_excluded, slice_member, strip_prefix,
};
use maangframe::archive_maang;

fn p(parts: &[&str]) -> Vec<String> {
    parts.iter().map(|s| s.to_string()).collect()
}

#[test]
fn root_is_the_deepest_maangframe_ancestor() {
    assert_eq!(find_maang_root(&p(&["/", "home", "maangframe", "target", "release"])), Some(p(&["/", "home", "maangframe"])));
    assert_eq!(
        find_maang_root(&p(&["/", "maangframe", "x", "maangframe", "y"])),
        Some(p(&["/", "maangframe", "x", "maangframe"]))
    );
    assert_eq!(find_maang_root(&p(&["/", "home", "other"])), None);
    assert_eq!(find_maang_root(&p(&[])), None);
    assert_eq!(archive_maang::find_maang_root(&p(&["maangframe"])), Some(p(&["maangframe"])));
}

#[test]
fn archives_live_under_var() {
    assert_eq!(archives_dir(&p(&["/", "m"])), p(&["/", "m", "var", "archives"]));
}

#[test]
fn slice_exclusions() {
    let root = p(&["/", "m"]);
    let arch = archives_dir(&root);
    assert!(is_excluded(&p(&["/", "m", "crates", "target", "x.rs"]), &root, &arch));
    assert!(is_excluded(&p(&["/", "m", "var", "archives", "maang_rs.tar.gz"]), &root, &arch));
    assert!(is_excluded(&root, &root, &arch));
    assert!(!is_excluded(&p(&["/", "m", "src", "lib.rs"]), &root, &arch));
    assert!(!is_excluded(&p(&["/", "m", "targets", "a.md"]), &root, &arch));
}

#[test]
fn full_archive_exclusions() {
    let root = p(&["/", "m"]);
    let arch = archives_dir(&root);
    assert!(archive_maang::is_excluded(&p(&["/", "m", "var", "archives", "archive_maang.tar.gz"]), &root, &arch));
    assert!(archive_maang::is_excluded(&p(&["/", "m", "a", "target"]), &root, &arch));
    assert!(!archive_maang::is_excluded(&root, &root, &arch));
    assert_eq!(archive_maang::archive_file(&arch), p(&["/", "m", "var", "archives", "archive_maang.tar.gz"]));
}

#[test]
fn extensions_follow_path_rules() {
    assert_eq!(extension("README.md"), Some("md".to_string()));
    assert_eq!(extension("a.tar.gz"), Some("gz".to_string()));
    assert_eq!(extension(".md"), None);
    assert_eq!(extension("Makefile"), None);
    assert_eq!(extension(".."), None);
    assert_eq!(extension("x."), Some(String::new()));
}

#[test]
fn slices_pick_their_files() {
    assert!(Slice::Markdown.includes("notes.md"));
    assert!(!Slice::Markdown.includes("notes.mdx"));
    assert!(Slice::Rust.includes("main.rs"));
    assert!(Slice::CargoToml.includes("Cargo.toml"));
    assert!(!Slice::CargoToml.includes("cargo.toml"));
    assert_eq!(Slice::Markdown.out_name(), "maang_md.tar.gz");
    assert_eq!(Slice::Rust.out_name(), "maang_rs.tar.gz");
    assert_eq!(Slice::CargoToml.out_name(), "maang_cargotoml.tar.gz");
}

#[test]
fn members_are_relative_to_the_root() {
    let root = p(&["/", "m"]);
    let arch = archives_dir(&root);
    let got = slice_member(Slice::Rust, &p(&["/", "m", "src", "lib.rs"]), true, &root, &arch).unwrap();
    assert_eq!(got, Some(p(&["src", "lib.rs"])));
    assert_eq!(slice_member(Slice::Rust, &p(&["/", "m", "README.md"]), true, &root, &arch).unwrap(), None);
    assert_eq!(slice_member(Slice::Rust, &p(&["/", "m", "src"]), false, &root, &arch).unwrap(), None);
    match slice_member(Slice::Rust, &p(&["/", "elsewhere", "a.rs"]), true, &root, &arch) {
        Err(ArchiveError::StripPrefix { path }) => assert_eq!(path, p(&["/", "elsewhere", "a.rs"])),
        _ => panic!("expected a strip-prefix error"),
    }
    let got = archive_maang::full_member(&p(&["/", "m", "docs", "a.txt"]), true, &root, &arch).unwrap();
    assert_eq!(got, Some(p(&["docs", "a.txt"])));
    assert_eq!(strip_prefix(&p(&["/", "x"]), &root), None);
}
