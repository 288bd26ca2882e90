//! A first CalDAV endpoint: a fixed `PROPFIND` answer for the root
//! collection and an authorization check on a fixed header value.

use vstd::prelude::*;
use vstd::string::*;

use crate::http::{opt_bytes, status_display, status_text, valid_status, OK};
use crate::logic::response::{creation_date_text, propstat_nodes, response_nodes};
use crate::serialization::xml::{
    empty_node, end_node, xml_document, start_node, start_node_with_attrs, text_element,
    SerializeXml, XmlNode, XmlWriter,
};
use crate::time::{
    chrono_format_utc, chrono_parse_utc, chrono_rfc2822, in_rfc2822_range, parse_utc, rfc2822,
    UtcTime, RFC2822_MAX_TIMESTAMP, RFC2822_MIN_TIMESTAMP,
};
use crate::webdav::caldav::declares_collection;
use crate::webdav::xml::{webdav_namespace_attrs, webdav_namespaces};

verus! {

broadcast use vstd::seq::group_seq_axioms;

/// A multistatus document: one response per resource.
#[derive(Debug)]
pub struct MultiStatusResponse {
    pub responses: Vec<Response>,
}

/// The properties of one resource.
#[derive(Debug)]
pub struct Response {
    pub href: String,
    pub properties: Vec<PropStat>,
}

/// A group of properties that share a status.
#[derive(Debug)]
pub struct PropStat {
    /// The status code this property represents, written as
    /// `HTTP/1.1 200 OK`.
    pub status_code: u16,
    pub prop: Property,
}

/// The properties of a collection.
#[derive(Debug)]
pub struct Property {
    pub resource_type: ResourceType,
    pub display_name: String,
    pub last_modified: UtcTime,
    pub created_at: UtcTime,
    pub current_user_principal: String,
}

/// The kind of a resource.
#[derive(Debug)]
pub enum ResourceType {
    Collection,
    ResourceType,
    Calendar,
}

impl ResourceType {
    /// The content of the `d:resourcetype` element.
    pub open spec fn nodes(&self) -> Seq<XmlNode> {
        match self {
            ResourceType::Collection => seq![empty_node("d:collection"@)],
            ResourceType::ResourceType => Seq::empty(),
            ResourceType::Calendar => seq![empty_node("cal:calendar"@)],
        }
    }

    /// Writes the content of the `d:resourcetype` element.
    pub fn write_content(&self, writer: &mut XmlWriter)
        ensures
            final(writer)@ == old(writer)@ + self.nodes(),
            final(writer).indented() == old(writer).indented(),
    {
        match self {
            ResourceType::Collection => {
                writer.empty_element("d:collection");
            },
            ResourceType::ResourceType => {},
            ResourceType::Calendar => {
                writer.empty_element("cal:calendar");
            },
        }
        assert(final(writer)@ =~= old(writer)@ + self.nodes());
    }
}

impl SerializeXml for Property {
    open spec fn xml_nodes(&self) -> Seq<XmlNode> {
        seq![start_node("d:prop"@), start_node("d:resourcetype"@)] + self.resource_type.nodes()
            + seq![end_node("d:resourcetype"@)] + text_element("d:displayname"@, self.display_name@)
            + text_element("d:getlastmodified"@, chrono_rfc2822(self.last_modified@))
            + text_element(
            "d:creationdate"@,
            chrono_format_utc(self.created_at@, "%Y-%m-%dT%H:%M:%SZ"@),
        ) + seq![start_node("d:current-user-principal"@)] + text_element(
            "d:href"@,
            self.current_user_principal@,
        ) + seq![end_node("d:current-user-principal"@), end_node("d:prop"@)]
    }

    /// RFC 2822 dates exist for the years 0 through 9999 only.
    open spec fn xml_writable(&self) -> bool {
        in_rfc2822_range(self.last_modified@)
    }

    fn write_xml(self, writer: &mut XmlWriter) {
        writer.start_element("d:prop");
        writer.start_element("d:resourcetype");
        self.resource_type.write_content(writer);
        writer.end_element("d:resourcetype");
        writer.text_element("d:displayname", self.display_name.as_str());
        let modified = rfc2822(self.last_modified);
        writer.text_element("d:getlastmodified", modified.as_str());
        let created = creation_date_text(self.created_at);
        writer.text_element("d:creationdate", created.as_str());
        writer.start_element("d:current-user-principal");
        writer.text_element("d:href", self.current_user_principal.as_str());
        writer.end_element("d:current-user-principal");
        writer.end_element("d:prop");
        assert(final(writer)@ =~= old(writer)@ + self.xml_nodes());
    }
}

/// The text of a status line, `HTTP/1.1 200 OK`.
pub open spec fn status_line(code: u16) -> Seq<char> {
    "HTTP/1.1 "@ + status_display(code as int)
}

/// Renders the status line of a status code.
pub fn status_line_text(code: u16) -> (s: String)
    requires
        valid_status(code as int),
    ensures
        s@ == status_line(code),
{
    let mut s = String::new();
    s.append("HTTP/1.1 ");
    s.append(status_text(code).as_str());
    assert(s@ =~= status_line(code));
    s
}

impl SerializeXml for PropStat {
    open spec fn xml_nodes(&self) -> Seq<XmlNode> {
        seq![start_node("d:propstat"@)] + self.prop.xml_nodes() + text_element(
            "d:status"@,
            status_line(self.status_code),
        ) + seq![end_node("d:propstat"@)]
    }

    open spec fn xml_writable(&self) -> bool {
        &&& self.prop.xml_writable()
        &&& valid_status(self.status_code as int)
    }

    fn write_xml(self, writer: &mut XmlWriter) {
        writer.start_element("d:propstat");
        let code = self.status_code;
        self.prop.write_xml(writer);
        let status = status_line_text(code);
        writer.text_element("d:status", status.as_str());
        writer.end_element("d:propstat");
        assert(final(writer)@ =~= old(writer)@ + self.xml_nodes());
    }
}

/// The events of a sequence of property groups, in order.
pub open spec fn propstats_nodes(s: Seq<PropStat>) -> Seq<XmlNode>
    decreases s.len(),
{
    if s.len() == 0 {
        Seq::empty()
    } else {
        propstats_nodes(s.drop_last()) + s.last().xml_nodes()
    }
}

impl SerializeXml for Response {
    open spec fn xml_nodes(&self) -> Seq<XmlNode> {
        seq![start_node("d:response"@)] + text_element("d:href"@, self.href@) + propstats_nodes(
            self.properties@,
        ) + seq![end_node("d:response"@)]
    }

    open spec fn xml_writable(&self) -> bool {
        forall|i: int| 0 <= i < self.properties@.len() ==> #[trigger] self.properties@[i].xml_writable()
    }

    fn write_xml(self, writer: &mut XmlWriter) {
        writer.start_element("d:response");
        writer.text_element("d:href", self.href.as_str());
        let ghost props = self.properties@;
        let ghost start = writer@;
        let mut rest = self.properties;
        let ghost mut taken: Seq<PropStat> = Seq::empty();
        assert(props =~= Seq::<PropStat>::empty() + props);
        while rest.len() > 0
            invariant
                props == taken + rest@,
                writer@ == start + propstats_nodes(taken),
                writer.indented() == old(writer).indented(),
                forall|j: int| 0 <= j < props.len() ==> #[trigger] props[j].xml_writable(),
            decreases rest@.len(),
        {
            let p = rest.remove(0);
            let ghost before = taken;
            assert(props[before.len() as int] == p);
            p.write_xml(writer);
            proof {
                let t = before.push(p);
                assert(t.drop_last() =~= before);
                taken = t;
            }
            assert(props =~= taken + rest@);
        }
        assert(taken =~= props);
        writer.end_element("d:response");
        assert(final(writer)@ =~= old(writer)@ + self.xml_nodes());
    }
}

/// The events of a sequence of responses, in order.
pub open spec fn responses_nodes(s: Seq<Response>) -> Seq<XmlNode>
    decreases s.len(),
{
    if s.len() == 0 {
        Seq::empty()
    } else {
        responses_nodes(s.drop_last()) + s.last().xml_nodes()
    }
}

impl SerializeXml for MultiStatusResponse {
    open spec fn xml_nodes(&self) -> Seq<XmlNode> {
        seq![start_node_with_attrs("d:multistatus"@, webdav_namespace_attrs())] + responses_nodes(
            self.responses@,
        ) + seq![end_node("d:multistatus"@)]
    }

    open spec fn xml_writable(&self) -> bool {
        forall|i: int| 0 <= i < self.responses@.len() ==> #[trigger] self.responses@[i].xml_writable()
    }

    fn write_xml(self, writer: &mut XmlWriter) {
        let namespaces = webdav_namespaces();
        writer.start_element_with_attrs("d:multistatus", namespaces.as_slice());
        let ghost resps = self.responses@;
        let ghost start = writer@;
        let mut rest = self.responses;
        let ghost mut taken: Seq<Response> = Seq::empty();
        assert(resps =~= Seq::<Response>::empty() + resps);
        while rest.len() > 0
            invariant
                resps == taken + rest@,
                writer@ == start + responses_nodes(taken),
                writer.indented() == old(writer).indented(),
                forall|j: int| 0 <= j < resps.len() ==> #[trigger] resps[j].xml_writable(),
            decreases rest@.len(),
        {
            let r = rest.remove(0);
            let ghost before = taken;
            assert(resps[before.len() as int] == r);
            r.write_xml(writer);
            proof {
                let t = before.push(r);
                assert(t.drop_last() =~= before);
                taken = t;
            }
            assert(resps =~= taken + rest@);
        }
        assert(taken =~= resps);
        writer.end_element("d:multistatus");
        assert(final(writer)@ =~= old(writer)@ + self.xml_nodes());
    }
}

/// The creation date of the root collection, as text.
pub open spec fn created_text() -> Seq<char> {
    "2025-11-02 14:30:00Z"@
}

/// The last-modified date of the root collection, as text.
pub open spec fn modified_text() -> Seq<char> {
    "2025-11-01 10:00:00Z"@
}

/// The events of the root collection's document.
pub open spec fn root_document(created_at: int, last_modified: int) -> Seq<XmlNode> {
    seq![start_node_with_attrs("d:multistatus"@, webdav_namespace_attrs())] + response_nodes(
        "/caldav/"@,
        propstat_nodes(
            OK,
            seq![start_node("d:prop"@), start_node("d:resourcetype"@), empty_node("d:collection"@), end_node("d:resourcetype"@)]
                + text_element("d:displayname"@, "CalDAV"@) + text_element(
                "d:getlastmodified"@,
                chrono_rfc2822(last_modified),
            ) + text_element(
                "d:creationdate"@,
                chrono_format_utc(created_at, "%Y-%m-%dT%H:%M:%SZ"@),
            ) + seq![start_node("d:current-user-principal"@)] + text_element(
                "d:href"@,
                "/caldav/principals/user123/"@,
            ) + seq![end_node("d:current-user-principal"@), end_node("d:prop"@)],
        ),
    ) + seq![end_node("d:multistatus"@)]
}

/// Whether `bytes` is the root document dated by chrono's reading of the
/// built-in dates.
pub open spec fn is_root_answer(bytes: Seq<u8>) -> bool {
    match (chrono_parse_utc(created_text()), chrono_parse_utc(modified_text())) {
        (Some(c), Some(m)) => bytes == xml_document(false, root_document(c, m)),
        _ => false,
    }
}

/// The root collection is a plain collection: every answer to `PROPFIND` on
/// it is a document whose `d:resourcetype` holds exactly the empty element
/// `d:collection`.
pub proof fn lemma_root_answer_is_collection(bytes: Seq<u8>)
    requires
        is_root_answer(bytes),
    ensures
        exists|events: Seq<XmlNode>| #[trigger] xml_document(false, events) == bytes && declares_collection(events),
{
    let c = chrono_parse_utc(created_text())->Some_0;
    let m = chrono_parse_utc(modified_text())->Some_0;
    let events = root_document(c, m);
    let prop = seq![
        start_node("d:prop"@),
        start_node("d:resourcetype"@),
        empty_node("d:collection"@),
        end_node("d:resourcetype"@),
    ] + text_element("d:displayname"@, "CalDAV"@) + text_element(
        "d:getlastmodified"@,
        chrono_rfc2822(m),
    ) + text_element("d:creationdate"@, chrono_format_utc(c, "%Y-%m-%dT%H:%M:%SZ"@)) + seq![
        start_node("d:current-user-principal"@),
    ] + text_element("d:href"@, "/caldav/principals/user123/"@) + seq![
        end_node("d:current-user-principal"@),
        end_node("d:prop"@),
    ];
    let ps = propstat_nodes(OK, prop);
    let resp = response_nodes("/caldav/"@, ps);
    assert(events == seq![start_node_with_attrs("d:multistatus"@, webdav_namespace_attrs())] + resp
        + seq![end_node("d:multistatus"@)]);
    assert(prop[1] == start_node("d:resourcetype"@));
    assert(prop[2] == empty_node("d:collection"@));
    assert(prop[3] == end_node("d:resourcetype"@));
    assert(ps[2] == prop[1] && ps[3] == prop[2] && ps[4] == prop[3]);
    assert(resp[6] == ps[2] && resp[7] == ps[3] && resp[8] == ps[4]);
    assert(events[7] == resp[6] && events[8] == resp[7] && events[9] == resp[8]);
    assert(declares_collection(events));
    assert(xml_document(false, events) == bytes);
}

/// Whether chrono reads both built-in dates and the last-modified date can
/// be written in RFC 2822.
pub open spec fn root_dates_usable() -> bool {
    &&& chrono_parse_utc(created_text()) is Some
    &&& chrono_parse_utc(modified_text()) matches Some(m) && in_rfc2822_range(m)
}

/// The answer to `PROPFIND` on the root collection: a fixed document for
/// the principal `/caldav/principals/user123/`. `None` exactly when chrono
/// rejects a built-in date or the last-modified date lies outside RFC 2822;
/// those cases abort the request.
pub fn handle_propfind() -> (r: Option<Vec<u8>>)
    ensures
        r is Some <==> root_dates_usable(),
        r matches Some(b) ==> is_root_answer(b@),
{
    let created_at = match parse_utc("2025-11-02 14:30:00Z") {
        Some(t) => t,
        None => return None,
    };
    let last_modified = match parse_utc("2025-11-01 10:00:00Z") {
        Some(t) => t,
        None => return None,
    };
    let secs = last_modified.timestamp();
    if secs < RFC2822_MIN_TIMESTAMP || secs > RFC2822_MAX_TIMESTAMP {
        return None;
    }
    let mut display_name = String::new();
    display_name.append("CalDAV");
    let mut principal = String::new();
    principal.append("/caldav/principals/user123/");
    let mut href = String::new();
    href.append("/caldav/");
    let prop = Property {
        resource_type: ResourceType::Collection,
        display_name,
        created_at,
        last_modified,
        current_user_principal: principal,
    };
    let mut properties: Vec<PropStat> = Vec::new();
    properties.push(PropStat { status_code: OK, prop });
    let mut responses: Vec<Response> = Vec::new();
    responses.push(Response { href, properties });
    let body = MultiStatusResponse { responses };
    proof {
        reveal_with_fuel(propstats_nodes, 2);
        reveal_with_fuel(responses_nodes, 2);
        assert(body.responses@[0].properties@.drop_last() =~= Seq::<PropStat>::empty());
        assert(body.responses@.drop_last() =~= Seq::<Response>::empty());
        assert(body.responses@[0].properties@[0].xml_writable());
        assert(body.responses@[0].xml_writable());
        assert(body.xml_nodes() =~= root_document(created_at@, last_modified@));
    }
    let mut writer = XmlWriter::new();
    body.write_xml(&mut writer);
    assert(writer@ =~= root_document(created_at@, last_modified@));
    match writer.into_bytes() {
        Ok(b) => Some(b),
        Err(_) => None,
    }
}

/// The bytes of `Authorized`.
pub open spec fn authorized_value() -> Seq<u8> {
    seq![65u8, 117u8, 116u8, 104u8, 111u8, 114u8, 105u8, 122u8, 101u8, 100u8]
}

/// Whether a request's `Authorization` header is the value `Authorized`.
pub open spec fn spec_is_authorized(header: Option<Seq<u8>>) -> bool {
    header == Some(authorized_value())
}

/// Whether a request's `Authorization` header is the value `Authorized`.
pub fn is_authorized(header: Option<&[u8]>) -> (b: bool)
    ensures
        b == spec_is_authorized(opt_bytes(header)),
{
    match header {
        None => false,
        Some(h) => {
            let expected: [u8; 10] = [65, 117, 116, 104, 111, 114, 105, 122, 101, 100];
            assert(expected@ =~= authorized_value());
            if h.len() != 10 {
                return false;
            }
            let mut i: usize = 0;
            while i < 10
                invariant
                    i <= 10,
                    h@.len() == 10,
                    opt_bytes(header) == Some(h@),
                    expected@ == authorized_value(),
                    forall|j: int| 0 <= j < i ==> h@[j] == authorized_value()[j],
                decreases 10 - i,
            {
                if h[i] != expected[i] {
                    assert(h@[i as int] != authorized_value()[i as int]);
                    assert(h@ != authorized_value());
                    return false;
                }
                i = i + 1;
            }
            assert(h@ =~= authorized_value());
            true
        },
    }
}

/// The factory of the authorization middleware.
#[derive(Default)]
pub struct CalDavAuth {}

/// The authorization middleware around a service.
#[derive(Default)]
pub struct CalDavAuthMiddleware<S> {
    pub service: S,
}

impl CalDavAuth {
    /// Wraps a service in the authorization middleware.
    pub fn new_transform<S>(&self, service: S) -> (m: CalDavAuthMiddleware<S>)
        ensures
            m.service == service,
    {
        CalDavAuthMiddleware { service }
    }
}

impl<S> CalDavAuthMiddleware<S> {
    /// Whether a request goes on to the service; otherwise it is answered
    /// with 401 and a `WWW-Authenticate` challenge.
    pub fn admits(&self, authorization: Option<&[u8]>) -> (b: bool)
        ensures
            b == spec_is_authorized(opt_bytes(authorization)),
    {
        is_authorized(authorization)
    }
}

} // verus!
