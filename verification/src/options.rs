//! The options a site runs with.

use vstd::prelude::*;

verus! {

/// What the site is started with: the address it listens on, written as text
/// (`127.0.0.1:3000`), and the directory its files are served from.
///
/// The value is built once at startup and only read afterwards.
#[derive(Clone, Debug, PartialEq, Eq)]
pub struct SiteOptions {
    pub site_addr: String,
    pub site_root: String,
}

/// The mathematical content of a [`SiteOptions`].
pub ghost struct SiteOptionsView {
    pub site_addr: Seq<char>,
    pub site_root: Seq<char>,
}

impl View for SiteOptions {
    type V = SiteOptionsView;

    open spec fn view(&self) -> SiteOptionsView {
        SiteOptionsView { site_addr: self.site_addr@, site_root: self.site_root@ }
    }
}

impl SiteOptions {
    /// Options with the given listening address and site root.
    pub fn new(site_addr: &str, site_root: &str) -> (options: SiteOptions)
        ensures
            options@.site_addr == site_addr@,
            options@.site_root == site_root@,
    {
        SiteOptions {
            site_addr: String::from_str(site_addr),
            site_root: String::from_str(site_root),
        }
    }

    /// The address the site listens on.
    pub fn site_addr(&self) -> (addr: &str)
        ensures
            addr@ == self@.site_addr,
    {
        self.site_addr.as_str()
    }

    /// The directory the site's files are served from.
    pub fn site_root(&self) -> (root: &str)
        ensures
            root@ == self@.site_root,
    {
        self.site_root.as_str()
    }

    /// A second value with the same content, for a context that needs its own.
    pub fn duplicate(&self) -> (copy: SiteOptions)
        ensures
            copy@ == self@,
    {
        SiteOptions { site_addr: self.site_addr.clone(), site_root: self.site_root.clone() }
    }
}

} // verus!
