//! The static routes of the site and the files behind them.

use vstd::prelude::*;

verus! {

/// The route under which the compiled client bundle is served.
pub open spec fn pkg_mount() -> Seq<char> {
    "/pkg"@
}

/// The route under which the other static files are served.
pub open spec fn assets_mount() -> Seq<char> {
    "/assets"@
}

/// The route of the site's icon.
pub open spec fn favicon_route() -> Seq<char> {
    "/favicon.ico"@
}

/// The directory of the compiled client bundle: `pkg` below the site root.
pub open spec fn pkg_dir_of(site_root: Seq<char>) -> Seq<char> {
    site_root + "/pkg"@
}

/// The file of the site's icon: `favicon.ico` below the site root.
pub open spec fn favicon_file_of(site_root: Seq<char>) -> Seq<char> {
    site_root + "/favicon.ico"@
}

/// `path` is `root` followed by something.
pub open spec fn lies_under(path: Seq<char>, root: Seq<char>) -> bool {
    root.len() <= path.len() && path.subrange(0, root.len() as int) == root
}

/// A directory served under a route: a request for `mount` followed by a
/// relative path is answered with the file at that path below `dir`.
#[derive(Clone, Debug, PartialEq, Eq)]
pub struct StaticMount {
    pub mount: String,
    pub dir: String,
}

/// The mathematical content of a [`StaticMount`].
pub ghost struct StaticMountView {
    pub mount: Seq<char>,
    pub dir: Seq<char>,
}

impl View for StaticMount {
    type V = StaticMountView;

    open spec fn view(&self) -> StaticMountView {
        StaticMountView { mount: self.mount@, dir: self.dir@ }
    }
}

/// The static mounts of a site rooted at `site_root`, in the order in which
/// they are registered: the client bundle first, then the other assets.
pub open spec fn static_mounts_of(site_root: Seq<char>) -> Seq<StaticMountView> {
    seq![
        StaticMountView { mount: pkg_mount(), dir: pkg_dir_of(site_root) },
        StaticMountView { mount: assets_mount(), dir: site_root },
    ]
}

/// The views of a vector of mounts, in order.
pub open spec fn mount_views(mounts: Seq<StaticMount>) -> Seq<StaticMountView> {
    mounts.map_values(|m: StaticMount| m@)
}

/// The directory of the compiled client bundle.
pub fn pkg_dir(site_root: &str) -> (dir: String)
    ensures
        dir@ == pkg_dir_of(site_root@),
{
    String::from_str(site_root).concat("/pkg")
}

/// The file that answers a request for the site's icon.
pub fn favicon_file(site_root: &str) -> (file: String)
    ensures
        file@ == favicon_file_of(site_root@),
{
    String::from_str(site_root).concat("/favicon.ico")
}

/// The static mounts of a site rooted at `site_root`.
pub fn static_mounts(site_root: &str) -> (mounts: Vec<StaticMount>)
    ensures
        mount_views(mounts@) == static_mounts_of(site_root@),
{
    let mut mounts: Vec<StaticMount> = Vec::new();
    mounts.push(StaticMount { mount: String::from_str("/pkg"), dir: pkg_dir(site_root) });
    mounts.push(StaticMount { mount: String::from_str("/assets"), dir: String::from_str(site_root) });
    assert(mount_views(mounts@) =~= static_mounts_of(site_root@));
    mounts
}

/// The bundle directory and the icon's file both lie below the site root, and
/// the asset directory is the site root itself.
pub proof fn lemma_served_files_lie_under_root(site_root: Seq<char>)
    ensures
        lies_under(pkg_dir_of(site_root), site_root),
        lies_under(favicon_file_of(site_root), site_root),
        forall|i: int|
            0 <= i < static_mounts_of(site_root).len() ==> lies_under(
                #[trigger] static_mounts_of(site_root)[i].dir,
                site_root,
            ),
{
    assert(pkg_dir_of(site_root).subrange(0, site_root.len() as int) =~= site_root);
    assert(favicon_file_of(site_root).subrange(0, site_root.len() as int) =~= site_root);
    assert(site_root.subrange(0, site_root.len() as int) =~= site_root);
}

/// No two static routes are the same: a request path names at most one of
/// the bundle mount, the asset mount and the icon.
pub proof fn lemma_static_routes_differ()
    ensures
        pkg_mount() != assets_mount(),
        pkg_mount() != favicon_route(),
        assets_mount() != favicon_route(),
{
    reveal_strlit("/pkg");
    reveal_strlit("/assets");
    reveal_strlit("/favicon.ico");
    assert(pkg_mount().len() == 4);
    assert(assets_mount().len() == 7);
    assert(favicon_route().len() == 12);
}

} // verus!
