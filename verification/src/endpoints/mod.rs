//! The HTTP endpoints: the REST authentication API and the CalDAV tree.

pub mod rest;
pub mod webdav;
