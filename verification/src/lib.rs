//! Startup rules of a site that is rendered on the server and attached to in
//! the browser: the options it runs with, the static routes it serves, and the
//! order in which each entry point does its work.

pub mod options;
pub mod routes;
pub mod boot;
