//! The root of the CalDAV tree: its `PROPFIND` answer.

use vstd::prelude::*;
use vstd::string::*;

use crate::http::{depth_of, opt_bytes, read_depth, BAD_REQUEST, OK};
use crate::logic::response::{
    multistatus_nodes, permissions_nodes, propstat_nodes, response_nodes, responses_nodes,
    root_nodes, MultiStatusResponse, PropStat, Property, ResourceType, Response, RootProperty,
    WebDavPermissions,
};
use crate::serialization::xml::{
    attrs_of, empty_node, end_node, start_node, xml_document, SerializeXml, XmlNode, XmlWriter,
};
use crate::time::{chrono_parse_utc, in_rfc2822_range, parse_utc, UtcTime, RFC2822_MAX_TIMESTAMP,
    RFC2822_MIN_TIMESTAMP};
use crate::uid::{uid_hyphenated, uid_text};
use crate::util::{depth_error, spec_depth_error, status_error, EndpointError};
use crate::webdav::users::{lemma_ok_propstats_cons, ok_propstats};
use crate::webdav::xml::{webdav_namespace_attrs, webdav_namespaces};

verus! {

broadcast use vstd::seq::group_seq_axioms;

/// The principal of a user: `/caldav/principals/users/<id>/`.
pub open spec fn user_principal_path(user_id: u128) -> Seq<char> {
    "/caldav/principals/users/"@ + uid_hyphenated(user_id) + "/"@
}

/// The events of the root collection's multistatus document.
pub open spec fn root_document(user_id: u128, created_at: int, last_modified: int) -> Seq<XmlNode> {
    multistatus_nodes(
        webdav_namespace_attrs(),
        response_nodes(
            "/caldav/"@,
            propstat_nodes(
                OK,
                root_nodes(
                    seq![empty_node("d:collection"@)],
                    "CalDAV"@,
                    last_modified,
                    created_at,
                    user_principal_path(user_id),
                    permissions_nodes(true, true, true),
                ),
            ),
        ),
    )
}

/// The multistatus answer for the root collection, as seen by the user
/// `user_id`: one response for `/caldav/` with the collection's properties
/// and full privileges.
pub fn root_body(user_id: u128, created_at: UtcTime, last_modified: UtcTime) -> (b:
    MultiStatusResponse)
    ensures
        b.writable() == in_rfc2822_range(last_modified@),
        multistatus_nodes(webdav_namespace_attrs(), responses_nodes(b.responses@)) == root_document(
            user_id,
            created_at@,
            last_modified@,
        ),
{
    let mut principal = String::new();
    principal.append("/caldav/principals/users/");
    principal.append(uid_text(user_id).as_str());
    principal.append("/");
    assert(principal@ =~= user_principal_path(user_id));
    let mut display_name = String::new();
    display_name.append("CalDAV");
    let mut href = String::new();
    href.append("/caldav/");
    let root = RootProperty {
        resource_type: ResourceType::Collection,
        display_name,
        created_at,
        last_modified,
        current_user_principal: principal,
        permissions: WebDavPermissions { read: true, write: true, write_content: true },
        ctag: String::new(),
    };
    let propstat = PropStat { status_code: OK, prop: Property::Root(root) };
    let mut properties: Vec<PropStat> = Vec::new();
    properties.push(propstat);
    let response = Response { href, properties };
    let mut responses: Vec<Response> = Vec::new();
    responses.push(response);
    let b = MultiStatusResponse { responses };
    proof {
        reveal_with_fuel(crate::logic::response::propstats_nodes, 2);
        reveal_with_fuel(crate::logic::response::responses_nodes, 2);
        assert(b.responses@[0].properties@.drop_last() =~= Seq::<PropStat>::empty());
        assert(b.responses@.drop_last() =~= Seq::<Response>::empty());
        assert(propstats_nodes_single(b.responses@[0].properties@));
        assert(responses_nodes(b.responses@) =~= b.responses@[0].xml_nodes());
        assert(b.responses@[0].properties@[0].xml_writable() == in_rfc2822_range(last_modified@));
        assert(b.responses@[0].xml_writable() == in_rfc2822_range(last_modified@));
    }
    b
}

spec fn propstats_nodes_single(s: Seq<PropStat>) -> bool {
    s.len() == 1 ==> crate::logic::response::propstats_nodes(s) =~= s[0].xml_nodes()
}

/// Writes a multistatus document with the collection namespaces, without
/// indentation.
pub fn render_multistatus(body: MultiStatusResponse) -> (r: Result<Vec<u8>, EndpointError>)
    requires
        body.writable(),
    ensures
        r is Ok,
        r matches Ok(b) ==> b@ == xml_document(
            false,
            multistatus_nodes(webdav_namespace_attrs(), responses_nodes(body.responses@)),
        ),
{
    let namespaces = webdav_namespaces();
    let ns = namespaces.as_slice();
    assert(attrs_of(ns@) == webdav_namespace_attrs());
    let mut writer = XmlWriter::new();
    body.write_xml_with_namespaces(&mut writer, ns);
    match writer.into_bytes() {
        Ok(bytes) => Ok(bytes),
        Err(_) => Err(EndpointError::Report("Could not write the XML document".to_owned())),
    }
}

/// The creation date of the root collection, as text.
pub open spec fn root_created_text() -> Seq<char> {
    "2025-11-02 14:30:00Z"@
}

/// The last-modified date of the root collection, as text.
pub open spec fn root_modified_text() -> Seq<char> {
    "2025-11-01 10:00:00Z"@
}

/// Whether a `Depth` header reads as a depth of zero or more.
pub open spec fn depth_nonnegative(header: Option<Seq<u8>>) -> bool {
    match depth_of(header) {
        Ok(d) => d >= 0,
        Err(_) => false,
    }
}

/// Whether chrono reads both built-in dates and the last-modified date can
/// be written in RFC 2822.
pub open spec fn root_dates_usable() -> bool {
    &&& chrono_parse_utc(root_created_text()) is Some
    &&& chrono_parse_utc(root_modified_text()) matches Some(m) && in_rfc2822_range(m)
}

/// Whether `bytes` is the root document for the user, dated by chrono's
/// reading of the built-in dates.
pub open spec fn is_root_answer(user_id: u128, bytes: Seq<u8>) -> bool {
    match (chrono_parse_utc(root_created_text()), chrono_parse_utc(root_modified_text())) {
        (Some(c), Some(m)) => bytes == xml_document(false, root_document(user_id, c, m)),
        _ => false,
    }
}

/// Whether a document's events describe a plain collection: one of them
/// opens `d:resourcetype`, and the next two are the empty element
/// `d:collection` and the closing of `d:resourcetype`.
pub open spec fn declares_collection(events: Seq<XmlNode>) -> bool {
    exists|i: int|
        0 <= i && i + 2 < events.len() && #[trigger] events[i] == start_node("d:resourcetype"@)
            && events[i + 1] == empty_node("d:collection"@) && events[i + 2] == end_node(
            "d:resourcetype"@,
        )
}

/// The root collection is a plain collection: every answer to `PROPFIND` on
/// it is a document whose `d:resourcetype` holds exactly the empty element
/// `d:collection`.
pub proof fn lemma_root_answer_is_collection(user_id: u128, bytes: Seq<u8>)
    requires
        is_root_answer(user_id, bytes),
    ensures
        exists|events: Seq<XmlNode>| #[trigger] xml_document(false, events) == bytes && declares_collection(events),
{
    let c = chrono_parse_utc(root_created_text())->Some_0;
    let m = chrono_parse_utc(root_modified_text())->Some_0;
    let events = root_document(user_id, c, m);
    let prop = root_nodes(
        seq![empty_node("d:collection"@)],
        "CalDAV"@,
        m,
        c,
        user_principal_path(user_id),
        permissions_nodes(true, true, true),
    );
    let ps = propstat_nodes(OK, prop);
    let resp = response_nodes("/caldav/"@, ps);
    assert(prop[1] == start_node("d:resourcetype"@));
    assert(prop[2] == empty_node("d:collection"@));
    assert(prop[3] == end_node("d:resourcetype"@));
    assert(ps[2] == prop[1] && ps[3] == prop[2] && ps[4] == prop[3]);
    assert(resp[6] == ps[2] && resp[7] == ps[3] && resp[8] == ps[4]);
    assert(events[7] == resp[6] && events[8] == resp[7] && events[9] == resp[8]);
    assert(declares_collection(events));
    assert(xml_document(false, events) == bytes);
}

/// The property group of the root collection's `PROPFIND` document carries
/// the status `200 OK`: its single response holds one group, of status 200.
pub proof fn lemma_root_status_ok(user_id: u128, created_at: int, last_modified: int)
    ensures
        exists|p: Seq<XmlNode>|
            #[trigger] multistatus_nodes(
                webdav_namespace_attrs(),
                response_nodes("/caldav/"@, ok_propstats(seq![p])),
            ) == root_document(user_id, created_at, last_modified),
{
    let p = root_nodes(
        seq![empty_node("d:collection"@)],
        "CalDAV"@,
        last_modified,
        created_at,
        user_principal_path(user_id),
        permissions_nodes(true, true, true),
    );
    lemma_ok_propstats_cons(p, Seq::empty());
    assert(seq![p] + Seq::<Seq<XmlNode>>::empty() =~= seq![p]);
    assert(ok_propstats(Seq::<Seq<XmlNode>>::empty()) == Seq::<XmlNode>::empty());
    assert(propstat_nodes(OK, p) + Seq::<XmlNode>::empty() =~= propstat_nodes(OK, p));
    assert(multistatus_nodes(webdav_namespace_attrs(), response_nodes("/caldav/"@, ok_propstats(seq![p])))
        == root_document(user_id, created_at, last_modified));
}

/// Answers `PROPFIND` on the root collection for the user `user_id`, given
/// the request's `Depth` header: an unreadable header is refused (403 when
/// it is missing), a negative depth with 400, otherwise the root document is
/// written. Failing to read the built-in dates, or a last-modified date
/// that RFC 2822 cannot express, is reported as an error.
pub fn handle_propfind(depth: Option<&[u8]>, user_id: u128) -> (r: Result<Vec<u8>, EndpointError>)
    ensures
        depth_of(opt_bytes(depth)) matches Err(e) ==> r == Err::<Vec<u8>, EndpointError>(
            spec_depth_error(e),
        ),
        depth_of(opt_bytes(depth)) matches Ok(d) && d < 0 ==> r == Err::<Vec<u8>, EndpointError>(
            EndpointError::StatusCode(BAD_REQUEST),
        ),
        depth_nonnegative(opt_bytes(depth)) && root_dates_usable() ==> r is Ok,
        r matches Ok(b) ==> depth_nonnegative(opt_bytes(depth)) && is_root_answer(user_id, b@),
{
    let depth = match read_depth(depth) {
        Ok(d) => d,
        Err(e) => return Err(depth_error(e)),
    };
    if depth < 0 {
        return Err(status_error(BAD_REQUEST));
    }
    let created_at = match parse_utc("2025-11-02 14:30:00Z") {
        Some(t) => t,
        None => return Err(EndpointError::Report("Could not parse string".to_owned())),
    };
    let last_modified = match parse_utc("2025-11-01 10:00:00Z") {
        Some(t) => t,
        None => return Err(EndpointError::Report("Could not parse string".to_owned())),
    };
    let secs = last_modified.timestamp();
    if secs < RFC2822_MIN_TIMESTAMP || secs > RFC2822_MAX_TIMESTAMP {
        return Err(EndpointError::Report("date cannot be represented by RFC 2822".to_owned()));
    }
    let body = root_body(user_id, created_at, last_modified);
    render_multistatus(body)
}

} // verus!
