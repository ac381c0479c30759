use pacinfo::details::{
    print_dep_list, print_local_pkg_info, print_package_details, print_title_line, reason_str,
};
use pacinfo::output::{Output, Span, Style};
use pacinfo::package::{Db, Dep, Package, PackageReason};
use pacinfo::resolve::{find_pkg_with_name, Database, PackageExtra};

fn dep(name: &str, satisfier: Option<&str>) -> Dep {
    Dep {
        name: name.to_string(),
        version: None,
        desc: None,
        satisfier: satisfier.map(|s| s.to_string()),
    }
}

fn full_dep(name: &str, version: Option<&str>, desc: Option<&str>, satisfier: Option<&str>) -> Dep {
    Dep {
        name: name.to_string(),
        version: version.map(|s| s.to_string()),
        desc: desc.map(|s| s.to_string()),
        satisfier: satisfier.map(|s| s.to_string()),
    }
}

fn pkg(name: &str, version: &str, db: Option<&str>) -> Package {
    Package {
        name: name.to_string(),
        version: version.to_string(),
        desc: None,
        reason: PackageReason::Explicit,
        depends: Vec::new(),
        optdepends: Vec::new(),
        db: db.map(|d| d.to_string()),
    }
}

fn screen(pkg: &PackageExtra, width: usize) -> String {
    let mut out = Output::new(width);
    print_package_details(&mut out, pkg);
    out.text()
}

#[test]
fn a_dependency_that_another_package_provides() {
    let mut foo = pkg("foo", "2.0", Some("extra"));
    foo.depends = vec![dep("bar", Some("baz"))];
    let all = Database {
        local: Db { pkgs: vec![pkg("baz", "1.0", None)] },
        syncs: vec![Db { pkgs: vec![foo] }],
    };
    let found = find_pkg_with_name("foo", &all).unwrap();
    let mut out = Output::new(80);
    print_package_details(&mut out, &found);
    let text = out.text();
    assert_eq!(text, "extra/foo 2.0 \n\n\nOpt Depends:\nDepends:\n  bar [satisfied by baz]\n");
    assert!(text.contains("Depends:\n  bar [satisfied by baz]\n"));
    let badge = Span { style: Style::Green, text: "[satisfied by baz]".to_string() };
    assert!(out.spans().contains(&badge));
}

#[test]
fn the_screen_of_a_package_that_is_not_installed() {
    let mut foo = pkg("foo", "2.0", Some("extra"));
    foo.desc = Some("A tool that does foo".to_string());
    foo.depends = vec![dep("glibc", Some("glibc")), dep("bar", None)];
    foo.optdepends = vec![full_dep("python", None, Some("for the scripts"), None)];
    let all = Database { local: Db { pkgs: Vec::new() }, syncs: vec![Db { pkgs: vec![foo] }] };
    let found = find_pkg_with_name("foo", &all).unwrap();
    let text = screen(&found, 80);
    assert_eq!(
        text,
        "extra/foo 2.0 \n\
         \n\
         A tool that does foo\n\
         \n\
         Opt Depends:\n\
         \x20 python: for the scripts \n\
         Depends:\n\
         \x20 glibc [installed]\n\
         \x20 bar \n"
    );
    assert!(!text.contains("Installed Version"));
    assert!(!text.contains("Installed Reason"));
}

#[test]
fn the_screen_of_an_installed_package() {
    let mut sync = pkg("foo", "2.0", Some("extra"));
    sync.desc = Some("A tool that does foo".to_string());
    let mut local = pkg("foo", "2.0", None);
    local.reason = PackageReason::Depend;
    let all = Database { local: Db { pkgs: vec![local] }, syncs: vec![Db { pkgs: vec![sync] }] };
    let found = find_pkg_with_name("foo", &all).unwrap();
    let text = screen(&found, 80);
    assert_eq!(
        text,
        "extra/foo 2.0 [installed]\n\
         \n\
         A tool that does foo\n\
         \n\
         Installed Reason: dependency\n\
         Opt Depends:\n\
         Depends:\n"
    );
    assert!(!text.contains("Installed Version"));
}

#[test]
fn the_screen_of_an_outdated_package_shows_the_installed_version() {
    let sync = pkg("foo", "2.0", Some("extra"));
    let local = pkg("foo", "1.9", None);
    let all = Database { local: Db { pkgs: vec![local] }, syncs: vec![Db { pkgs: vec![sync] }] };
    let found = find_pkg_with_name("foo", &all).unwrap();
    let text = screen(&found, 80);
    assert_eq!(
        text,
        "extra/foo 2.0 [~installed]\n\
         \n\
         \n\
         Installed Version: 1.9\n\
         Installed Reason: explicit\n\
         Opt Depends:\n\
         Depends:\n"
    );
    assert!(!text.contains("Installed Version: 2.0"));
}

#[test]
fn the_screen_of_a_package_that_only_the_local_database_holds() {
    let mut local = pkg("foo", "0.1", None);
    local.depends = vec![dep("bar", Some("bar"))];
    let all = Database { local: Db { pkgs: vec![local] }, syncs: vec![Db { pkgs: Vec::new() }] };
    let found = find_pkg_with_name("foo", &all).unwrap();
    assert_eq!(
        screen(&found, 80),
        "local/foo 0.1 [installed]\n\
         \n\
         \n\
         Installed Reason: explicit\n\
         Opt Depends:\n\
         Depends:\n\
         \x20 bar [installed]\n"
    );
}

#[test]
fn a_package_without_description_shows_two_empty_lines() {
    let foo = pkg("foo", "2.0", Some("extra"));
    let found = PackageExtra { sync_pkg: &foo, local_pkg: None };
    assert_eq!(screen(&found, 80), "extra/foo 2.0 \n\n\nOpt Depends:\nDepends:\n");

    let local = pkg("foo", "2.0", None);
    let found = PackageExtra { sync_pkg: &foo, local_pkg: Some(&local) };
    assert_eq!(
        screen(&found, 80),
        "extra/foo 2.0 [installed]\n\n\nInstalled Reason: explicit\nOpt Depends:\nDepends:\n"
    );
}

#[test]
fn an_empty_description_is_shown_as_an_empty_line() {
    let mut foo = pkg("foo", "2.0", Some("extra"));
    foo.desc = Some(String::new());
    let found = PackageExtra { sync_pkg: &foo, local_pkg: None };
    assert_eq!(screen(&found, 80), "extra/foo 2.0 \n\n\n\nOpt Depends:\nDepends:\n");
}

#[test]
fn the_description_is_wrapped_at_the_width_of_the_screen() {
    let mut foo = pkg("foo", "2.0", Some("extra"));
    foo.desc = Some("Memory safety without garbage collection.".to_string());
    let found = PackageExtra { sync_pkg: &foo, local_pkg: None };
    assert_eq!(
        screen(&found, 15),
        "extra/foo 2.0 \n\
         \n\
         Memory safety\n\
         without garbage\n\
         collection.\n\
         \n\
         Opt Depends:\n\
         Depends:\n"
    );
    assert_eq!(
        screen(&found, 80),
        "extra/foo 2.0 \n\
         \n\
         Memory safety without garbage collection.\n\
         \n\
         Opt Depends:\n\
         Depends:\n"
    );
}

#[test]
fn dependencies_keep_the_order_of_their_declaration() {
    let deps = vec![
        dep("zlib", None),
        dep("acl", Some("acl")),
        dep("m4", None),
        dep("bash", Some("bash")),
        dep("acl", Some("acl")),
    ];
    let mut out = Output::new(80);
    print_dep_list(&mut out, &deps, "Depends");
    assert_eq!(
        out.text(),
        "Depends:\n\
         \x20 zlib \n\
         \x20 acl [installed]\n\
         \x20 m4 \n\
         \x20 bash [installed]\n\
         \x20 acl [installed]\n"
    );
}

#[test]
fn optional_dependencies_keep_their_order_and_come_first() {
    let mut foo = pkg("foo", "2.0", Some("extra"));
    foo.optdepends = vec![dep("z", None), dep("a", None), dep("m", None)];
    foo.depends = vec![dep("y", None), dep("b", None)];
    let found = PackageExtra { sync_pkg: &foo, local_pkg: None };
    assert_eq!(
        screen(&found, 80),
        "extra/foo 2.0 \n\
         \n\
         \n\
         Opt Depends:\n\
         \x20 z \n\
         \x20 a \n\
         \x20 m \n\
         Depends:\n\
         \x20 y \n\
         \x20 b \n"
    );
}

#[test]
fn an_empty_list_shows_its_header_only() {
    let mut out = Output::new(80);
    print_dep_list(&mut out, &Vec::new(), "Opt Depends");
    assert_eq!(out.text(), "Opt Depends:\n");
}

#[test]
fn a_dependency_line_shows_version_description_and_badge() {
    let deps = vec![
        full_dep("glibc", Some("2.38"), Some("the C library"), Some("glibc")),
        full_dep("sh", None, Some(""), Some("bash")),
        full_dep("perl", Some("5"), None, None),
    ];
    let mut out = Output::new(80);
    print_dep_list(&mut out, &deps, "Depends");
    assert_eq!(
        out.text(),
        "Depends:\n\
         \x20 glibc 2.38: the C library [installed]\n\
         \x20 sh [satisfied by bash]\n\
         \x20 perl 5 \n"
    );
}

#[test]
fn the_title_names_the_repository_or_local() {
    let sync = pkg("foo", "2.0", Some("community"));
    let mut out = Output::new(80);
    print_title_line(&mut out, &PackageExtra { sync_pkg: &sync, local_pkg: None });
    assert_eq!(out.text(), "community/foo 2.0 \n");

    let local = pkg("foo", "2.0", None);
    let mut out = Output::new(80);
    print_title_line(&mut out, &PackageExtra { sync_pkg: &local, local_pkg: Some(&local) });
    assert_eq!(out.text(), "local/foo 2.0 [installed]\n");

    let older = pkg("foo", "1.0", None);
    let mut out = Output::new(80);
    print_title_line(&mut out, &PackageExtra { sync_pkg: &sync, local_pkg: Some(&older) });
    assert_eq!(out.text(), "community/foo 2.0 [~installed]\n");
    assert!(out.spans().contains(&Span { style: Style::Yellow, text: "[~installed]".to_string() }));
}

#[test]
fn the_local_lines() {
    let sync = pkg("foo", "2.0", Some("extra"));
    let mut same = pkg("foo", "2.0", None);
    same.reason = PackageReason::Depend;
    let older = pkg("foo", "1.0", None);

    let mut out = Output::new(80);
    print_local_pkg_info(&mut out, &sync, &same);
    assert_eq!(out.text(), "Installed Reason: dependency\n");

    let mut out = Output::new(80);
    print_local_pkg_info(&mut out, &sync, &older);
    assert_eq!(out.text(), "Installed Version: 1.0\nInstalled Reason: explicit\n");
}

#[test]
fn the_words_for_the_reasons() {
    assert_eq!(reason_str(PackageReason::Explicit), "explicit");
    assert_eq!(reason_str(PackageReason::Depend), "dependency");
}

#[test]
fn printing_appends_to_what_the_screen_holds() {
    let foo = pkg("foo", "2.0", Some("extra"));
    let found = PackageExtra { sync_pkg: &foo, local_pkg: None };
    let mut out = Output::new(80);
    out.print_line("before");
    print_package_details(&mut out, &found);
    assert_eq!(out.text(), format!("before\n{}", screen(&found, 80)));
    assert_eq!(out.width(), 80);
}
