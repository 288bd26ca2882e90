//! Serialization of WebDAV documents.

pub mod xml;
