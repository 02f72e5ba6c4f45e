use rust_chatbot::options::SiteOptions;
use rust_chatbot::routes::{favicon_file, pkg_dir, static_mounts, StaticMount};

#[test]
fn pkg_dir_is_pkg_below_the_site_root() {
    assert_eq!(pkg_dir("target/site"), "target/site/pkg");
}

#[test]
fn pkg_dir_of_an_empty_root_is_the_bare_suffix() {
    assert_eq!(pkg_dir(""), "/pkg");
}

#[test]
fn pkg_dir_keeps_a_trailing_slash_of_the_root() {
    assert_eq!(pkg_dir("site/"), "site//pkg");
}

#[test]
fn favicon_file_is_the_icon_below_the_site_root() {
    assert_eq!(favicon_file("target/site"), "target/site/favicon.ico");
}

#[test]
fn favicon_file_of_an_empty_root_is_the_bare_suffix() {
    assert_eq!(favicon_file(""), "/favicon.ico");
}

#[test]
fn favicon_file_keeps_non_ascii_roots() {
    assert_eq!(favicon_file("sitio/añil"), "sitio/añil/favicon.ico");
}

#[test]
fn static_mounts_are_the_bundle_then_the_assets() {
    let mounts = static_mounts("target/site");
    assert_eq!(
        mounts,
        vec![
            StaticMount { mount: String::from("/pkg"), dir: String::from("target/site/pkg") },
            StaticMount { mount: String::from("/assets"), dir: String::from("target/site") },
        ]
    );
}

#[test]
fn static_mounts_serve_from_below_the_site_root() {
    let root = "public";
    for mount in static_mounts(root) {
        assert!(mount.dir.starts_with(root));
    }
    assert!(pkg_dir(root).starts_with(root));
    assert!(favicon_file(root).starts_with(root));
}

#[test]
fn static_mounts_have_distinct_routes() {
    let mounts = static_mounts("site");
    assert_eq!(mounts.len(), 2);
    assert_ne!(mounts[0].mount, mounts[1].mount);
    assert_ne!(mounts[0].mount, "/favicon.ico");
    assert_ne!(mounts[1].mount, "/favicon.ico");
}

#[test]
fn assets_are_served_from_the_site_root_itself() {
    let mounts = static_mounts("static");
    assert_eq!(mounts[1].mount, "/assets");
    assert_eq!(mounts[1].dir, "static");
}

#[test]
fn options_keep_what_they_were_made_with() {
    let options = SiteOptions::new("127.0.0.1:3000", "target/site");
    assert_eq!(options.site_addr(), "127.0.0.1:3000");
    assert_eq!(options.site_root(), "target/site");
    assert_eq!(options.site_addr, "127.0.0.1:3000");
    assert_eq!(options.site_root, "target/site");
}

#[test]
fn duplicate_options_are_equal_to_the_first() {
    let options = SiteOptions::new("[::1]:8080", "www");
    let copy = options.duplicate();
    assert_eq!(copy, options);
    assert_eq!(copy.site_addr(), "[::1]:8080");
    assert_eq!(copy.site_root(), "www");
}
