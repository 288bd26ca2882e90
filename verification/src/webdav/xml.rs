//! The namespaces of the WebDAV documents the collection endpoints write.

use vstd::prelude::*;

verus! {

/// The namespaces of a WebDAV document, as attributes of its root element.
pub open spec fn webdav_namespace_attrs() -> Seq<(Seq<char>, Seq<char>)> {
    seq![("xmlns:d"@, "DAV:"@), ("xmlns:cal"@, "urn:ietf:params:xml:ns:caldav"@)]
}

/// A collection of namespaces used when serializing to XML.
pub fn webdav_namespaces() -> (r: Vec<(&'static str, &'static str)>)
    ensures
        r@.map_values(|a: (&str, &str)| (a.0@, a.1@)) == webdav_namespace_attrs(),
{
    let r = vec![("xmlns:d", "DAV:"), ("xmlns:cal", "urn:ietf:params:xml:ns:caldav")];
    assert(r@.map_values(|a: (&str, &str)| (a.0@, a.1@)) =~= webdav_namespace_attrs());
    r
}

} // verus!
