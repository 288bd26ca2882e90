//! WebDAV multistatus responses (RFC 4918 section 13) and the XML they are
//! written as.

use vstd::prelude::*;
use vstd::string::*;

use crate::http::{status_display, status_text, valid_status};
use crate::serialization::xml::{
    empty_node, empty_node_with_attrs, end_node, start_node, start_node_with_attrs,
    text_element, webdav_namespace_attrs, webdav_namespaces, attrs_of, SerializeXml, XmlNode, XmlWriter,
};
use crate::time::{chrono_format_utc, format_utc, in_rfc2822_range, numeric_pattern, rfc2822,
    chrono_rfc2822, UtcTime};

verus! {

broadcast use vstd::seq::group_seq_axioms;

/// A multistatus document: one response per resource.
#[derive(Debug)]
pub struct MultiStatusResponse {
    pub responses: Vec<Response>,
}

/// The properties of one resource.
#[derive(Debug)]
pub struct Response {
    pub href: String,
    pub properties: Vec<PropStat>,
}

/// A group of properties that share a status.
#[derive(Debug)]
pub struct PropStat {
    /// The status code this property represents, written as
    /// `HTTP/1.1 200 OK`.
    pub status_code: u16,
    pub prop: Property,
}

/// The properties of a resource, by kind of resource.
#[derive(Debug)]
pub enum Property {
    Root(RootProperty),
    User(UserProperty),
    NameOnly(NameOnlyProperty),
    Calendar(CalendarProperty),
}

/// The properties of the root collection.
#[derive(Debug)]
pub struct RootProperty {
    pub resource_type: ResourceType,
    pub display_name: String,
    pub last_modified: UtcTime,
    pub created_at: UtcTime,
    pub current_user_principal: String,
    pub permissions: WebDavPermissions,
    pub ctag: String,
}

/// The privileges of the current user.
#[derive(Debug)]
pub struct WebDavPermissions {
    pub read: bool,
    pub write: bool,
    pub write_content: bool,
}

/// The properties of a user principal.
#[derive(Debug)]
pub struct UserProperty {
    pub display_name: String,
    pub calendar_home_set: String,
    pub principal: String,
    pub current_user_principal: String,
}

/// A resource described by its type and name only.
#[derive(Debug)]
pub struct NameOnlyProperty {
    pub resource_type: ResourceType,
    pub display_name: String,
}

/// The properties of a calendar collection.
#[derive(Debug)]
pub struct CalendarProperty {
    pub display_name: String,
    pub description: String,
}

/// The kind of a resource.
#[derive(Debug)]
pub enum ResourceType {
    Collection,
    Empty,
    Calendar,
}

impl ResourceType {
    /// The content of the `d:resourcetype` element.
    pub open spec fn nodes(&self) -> Seq<XmlNode> {
        match self {
            ResourceType::Collection => seq![empty_node("d:collection"@)],
            ResourceType::Empty => Seq::empty(),
            ResourceType::Calendar => seq![empty_node("cal:calendar"@)],
        }
    }

    /// Writes the content of the `d:resourcetype` element.
    pub fn write_content(&self, writer: &mut XmlWriter)
        ensures
            final(writer)@ == old(writer)@ + self.nodes(),
            final(writer).indented() == old(writer).indented(),
    {
        match self {
            ResourceType::Collection => {
                writer.empty_element("d:collection");
            },
            ResourceType::Empty => {},
            ResourceType::Calendar => {
                writer.empty_element("cal:calendar");
            },
        }
        assert(final(writer)@ =~= old(writer)@ + self.nodes());
    }
}

/// The events of one privilege, when it is granted.
pub open spec fn privilege_nodes(granted: bool, name: Seq<char>) -> Seq<XmlNode> {
    if granted {
        seq![start_node("d:privilege"@), empty_node(name), end_node("d:privilege"@)]
    } else {
        Seq::empty()
    }
}

/// The `d:current-user-privilege-set` element of the given privileges.
pub open spec fn permissions_nodes(read: bool, write: bool, write_content: bool) -> Seq<XmlNode> {
    seq![start_node("d:current-user-privilege-set"@)] + privilege_nodes(read, "d:read"@)
        + privilege_nodes(write, "d:write"@) + privilege_nodes(write_content, "d:write-content"@)
        + seq![end_node("d:current-user-privilege-set"@)]
}

impl SerializeXml for WebDavPermissions {
    open spec fn xml_nodes(&self) -> Seq<XmlNode> {
        permissions_nodes(self.read, self.write, self.write_content)
    }

    open spec fn xml_writable(&self) -> bool {
        true
    }

    fn write_xml(self, writer: &mut XmlWriter) {
        writer.start_element("d:current-user-privilege-set");
        if self.read {
            writer.start_element("d:privilege");
            writer.empty_element("d:read");
            writer.end_element("d:privilege");
        }
        if self.write {
            writer.start_element("d:privilege");
            writer.empty_element("d:write");
            writer.end_element("d:privilege");
        }
        if self.write_content {
            writer.start_element("d:privilege");
            writer.empty_element("d:write-content");
            writer.end_element("d:privilege");
        }
        writer.end_element("d:current-user-privilege-set");
        assert(final(writer)@ =~= old(writer)@ + self.xml_nodes());
    }
}

/// The `d:prop` element of a resource described by type and name.
pub open spec fn name_only_nodes(resource_type: Seq<XmlNode>, display_name: Seq<char>) -> Seq<XmlNode> {
    seq![start_node("d:prop"@), start_node("d:resourcetype"@)] + resource_type + seq![
        end_node("d:resourcetype"@),
    ] + text_element("d:displayname"@, display_name) + seq![end_node("d:prop"@)]
}

impl SerializeXml for NameOnlyProperty {
    open spec fn xml_nodes(&self) -> Seq<XmlNode> {
        name_only_nodes(self.resource_type.nodes(), self.display_name@)
    }

    open spec fn xml_writable(&self) -> bool {
        true
    }

    fn write_xml(self, writer: &mut XmlWriter) {
        writer.start_element("d:prop");
        writer.start_element("d:resourcetype");
        self.resource_type.write_content(writer);
        writer.end_element("d:resourcetype");
        writer.text_element("d:displayname", self.display_name.as_str());
        writer.end_element("d:prop");
        assert(final(writer)@ =~= old(writer)@ + self.xml_nodes());
    }
}

/// The attributes of the supported component: `name="VEVENT"`.
pub open spec fn vevent_component_attrs() -> Seq<(Seq<char>, Seq<char>)> {
    seq![("name"@, "VEVENT"@)]
}

/// The `d:prop` element of a calendar collection.
pub open spec fn calendar_nodes(display_name: Seq<char>, description: Seq<char>) -> Seq<XmlNode> {
        seq![
            start_node("d:prop"@),
            start_node("d:resourcetype"@),
            empty_node("d:collection"@),
            empty_node("cal:calendar"@),
            end_node("d:resourcetype"@),
        ] + text_element("d:displayname"@, display_name) + text_element(
            "cal:calendar-description"@,
            description,
        ) + seq![
            start_node("cal:supported-calendar-component-set"@),
            empty_node_with_attrs("cal:comp"@, vevent_component_attrs()),
            end_node("cal:supported-calendar-component-set"@),
            end_node("d:prop"@),
        ]
}

impl SerializeXml for CalendarProperty {
    open spec fn xml_nodes(&self) -> Seq<XmlNode> {
        calendar_nodes(self.display_name@, self.description@)
    }

    open spec fn xml_writable(&self) -> bool {
        true
    }

    fn write_xml(self, writer: &mut XmlWriter) {
        writer.start_element("d:prop");
        writer.start_element("d:resourcetype");
        writer.empty_element("d:collection");
        writer.empty_element("cal:calendar");
        writer.end_element("d:resourcetype");
        writer.text_element("d:displayname", self.display_name.as_str());
        writer.text_element("cal:calendar-description", self.description.as_str());
        writer.start_element("cal:supported-calendar-component-set");
        let attrs = [("name", "VEVENT")];
        assert(attrs@.map_values(|a: (&str, &str)| (a.0@, a.1@)) =~= vevent_component_attrs());
        writer.empty_element_with_attrs("cal:comp", &attrs);
        writer.end_element("cal:supported-calendar-component-set");
        writer.end_element("d:prop");
        assert(final(writer)@ =~= old(writer)@ + self.xml_nodes());
    }
}

/// The chrono pattern of a creation date, `YYYY-MM-DDTHH:MM:SSZ`.
pub open spec fn creation_date_pattern() -> Seq<char> {
    "%Y-%m-%dT%H:%M:%SZ"@
}

/// Renders a creation date in UTC.
pub fn creation_date_text(t: UtcTime) -> (s: String)
    ensures
        s@ == chrono_format_utc(t@, creation_date_pattern()),
{
    proof {
        reveal_strlit("%Y-%m-%dT%H:%M:%SZ");
        assert(numeric_pattern("%Y-%m-%dT%H:%M:%SZ"@));
    }
    format_utc(t, "%Y-%m-%dT%H:%M:%SZ")
}

/// The `d:prop` element of the root collection.
pub open spec fn root_nodes(
    resource_type: Seq<XmlNode>,
    display_name: Seq<char>,
    last_modified: int,
    created_at: int,
    current_user_principal: Seq<char>,
    permissions: Seq<XmlNode>,
) -> Seq<XmlNode> {
    seq![start_node("d:prop"@), start_node("d:resourcetype"@)] + resource_type + seq![
        end_node("d:resourcetype"@),
    ] + text_element("d:displayname"@, display_name) + text_element(
        "d:getlastmodified"@,
        chrono_rfc2822(last_modified),
    ) + text_element("d:creationdate"@, chrono_format_utc(created_at, creation_date_pattern()))
        + seq![start_node("d:current-user-principal"@)] + text_element(
        "d:href"@,
        current_user_principal,
    ) + seq![end_node("d:current-user-principal"@)] + permissions + seq![end_node("d:prop"@)]
}

impl SerializeXml for RootProperty {
    open spec fn xml_nodes(&self) -> Seq<XmlNode> {
        root_nodes(
            self.resource_type.nodes(),
            self.display_name@,
            self.last_modified@,
            self.created_at@,
            self.current_user_principal@,
            self.permissions.xml_nodes(),
        )
    }

    /// RFC 2822 dates exist for the years 0 through 9999 only.
    open spec fn xml_writable(&self) -> bool {
        in_rfc2822_range(self.last_modified@)
    }

    fn write_xml(self, writer: &mut XmlWriter) {
        writer.start_element("d:prop");
        writer.start_element("d:resourcetype");
        self.resource_type.write_content(writer);
        writer.end_element("d:resourcetype");
        writer.text_element("d:displayname", self.display_name.as_str());
        let modified = rfc2822(self.last_modified);
        writer.text_element("d:getlastmodified", modified.as_str());
        let created = creation_date_text(self.created_at);
        writer.text_element("d:creationdate", created.as_str());
        writer.start_element("d:current-user-principal");
        writer.text_element("d:href", self.current_user_principal.as_str());
        writer.end_element("d:current-user-principal");
        self.permissions.write_xml(writer);
        writer.end_element("d:prop");
        assert(final(writer)@ =~= old(writer)@ + self.xml_nodes());
    }
}

/// The `d:prop` element of a user principal.
pub open spec fn user_nodes(
    display_name: Seq<char>,
    calendar_home_set: Seq<char>,
    principal: Seq<char>,
    current_user_principal: Seq<char>,
) -> Seq<XmlNode> {
    seq![start_node("d:prop"@)] + text_element("d:displayname"@, display_name) + seq![
        start_node("cal:calendar-home-set"@),
    ] + text_element("d:href"@, calendar_home_set) + seq![
        end_node("cal:calendar-home-set"@),
        start_node("d:principal-URL"@),
    ] + text_element("d:href"@, principal) + seq![
        end_node("d:principal-URL"@),
        start_node("d:current-user-principal"@),
    ] + text_element("d:href"@, current_user_principal) + seq![
        end_node("d:current-user-principal"@),
        end_node("d:prop"@),
    ]
}

impl SerializeXml for UserProperty {
    open spec fn xml_nodes(&self) -> Seq<XmlNode> {
        user_nodes(
            self.display_name@,
            self.calendar_home_set@,
            self.principal@,
            self.current_user_principal@,
        )
    }

    open spec fn xml_writable(&self) -> bool {
        true
    }

    fn write_xml(self, writer: &mut XmlWriter) {
        writer.start_element("d:prop");
        writer.text_element("d:displayname", self.display_name.as_str());
        writer.start_element("cal:calendar-home-set");
        writer.text_element("d:href", self.calendar_home_set.as_str());
        writer.end_element("cal:calendar-home-set");
        writer.start_element("d:principal-URL");
        writer.text_element("d:href", self.principal.as_str());
        writer.end_element("d:principal-URL");
        writer.start_element("d:current-user-principal");
        writer.text_element("d:href", self.current_user_principal.as_str());
        writer.end_element("d:current-user-principal");
        writer.end_element("d:prop");
        assert(final(writer)@ =~= old(writer)@ + self.xml_nodes());
    }
}

impl SerializeXml for Property {
    open spec fn xml_nodes(&self) -> Seq<XmlNode> {
        match self {
            Property::Root(v) => v.xml_nodes(),
            Property::User(v) => v.xml_nodes(),
            Property::NameOnly(v) => v.xml_nodes(),
            Property::Calendar(v) => v.xml_nodes(),
        }
    }

    open spec fn xml_writable(&self) -> bool {
        match self {
            Property::Root(v) => v.xml_writable(),
            _ => true,
        }
    }

    fn write_xml(self, writer: &mut XmlWriter) {
        match self {
            Property::Root(v) => v.write_xml(writer),
            Property::User(v) => v.write_xml(writer),
            Property::NameOnly(v) => v.write_xml(writer),
            Property::Calendar(v) => v.write_xml(writer),
        }
    }
}

/// The text of a status line, `HTTP/1.1 200 OK`.
pub open spec fn status_line(code: u16) -> Seq<char> {
    "HTTP/1.1 "@ + status_display(code as int)
}

/// Renders the status line of a status code.
pub fn status_line_text(code: u16) -> (s: String)
    requires
        valid_status(code as int),
    ensures
        s@ == status_line(code),
{
    let mut s = String::new();
    s.append("HTTP/1.1 ");
    s.append(status_text(code).as_str());
    assert(s@ =~= status_line(code));
    s
}

/// The `d:propstat` element of properties with a status.
pub open spec fn propstat_nodes(status_code: u16, prop: Seq<XmlNode>) -> Seq<XmlNode> {
    seq![start_node("d:propstat"@)] + prop + text_element("d:status"@, status_line(status_code))
        + seq![end_node("d:propstat"@)]
}

impl SerializeXml for PropStat {
    open spec fn xml_nodes(&self) -> Seq<XmlNode> {
        propstat_nodes(self.status_code, self.prop.xml_nodes())
    }

    open spec fn xml_writable(&self) -> bool {
        &&& self.prop.xml_writable()
        &&& valid_status(self.status_code as int)
    }

    fn write_xml(self, writer: &mut XmlWriter) {
        writer.start_element("d:propstat");
        let code = self.status_code;
        self.prop.write_xml(writer);
        let status = status_line_text(code);
        writer.text_element("d:status", status.as_str());
        writer.end_element("d:propstat");
        assert(final(writer)@ =~= old(writer)@ + self.xml_nodes());
    }
}

/// The events of a sequence of property groups, in order.
pub open spec fn propstats_nodes(s: Seq<PropStat>) -> Seq<XmlNode>
    decreases s.len(),
{
    if s.len() == 0 {
        Seq::empty()
    } else {
        propstats_nodes(s.drop_last()) + s.last().xml_nodes()
    }
}

/// The `d:response` element of a resource.
pub open spec fn response_nodes(href: Seq<char>, propstats: Seq<XmlNode>) -> Seq<XmlNode> {
    seq![start_node("d:response"@)] + text_element("d:href"@, href) + propstats + seq![
        end_node("d:response"@),
    ]
}

impl SerializeXml for Response {
    open spec fn xml_nodes(&self) -> Seq<XmlNode> {
        response_nodes(self.href@, propstats_nodes(self.properties@))
    }

    open spec fn xml_writable(&self) -> bool {
        forall|i: int| 0 <= i < self.properties@.len() ==> #[trigger] self.properties@[i].xml_writable()
    }

    fn write_xml(self, writer: &mut XmlWriter) {
        writer.start_element("d:response");
        writer.text_element("d:href", self.href.as_str());
        let ghost props = self.properties@;
        let ghost start = writer@;
        let mut rest = self.properties;
        let ghost mut taken: Seq<PropStat> = Seq::empty();
        assert(props =~= Seq::<PropStat>::empty() + props);
        while rest.len() > 0
            invariant
                props == taken + rest@,
                writer@ == start + propstats_nodes(taken),
                writer.indented() == old(writer).indented(),
                forall|j: int| 0 <= j < props.len() ==> #[trigger] props[j].xml_writable(),
            decreases rest@.len(),
        {
            let p = rest.remove(0);
            let ghost before = taken;
            assert(props[before.len() as int] == p);
            p.write_xml(writer);
            proof {
                let t = before.push(p);
                assert(t.drop_last() =~= before);
                taken = t;
            }
            assert(props =~= taken + rest@);
        }
        assert(taken =~= props);
        writer.end_element("d:response");
        assert(final(writer)@ =~= old(writer)@ + self.xml_nodes());
    }
}

/// The events of a sequence of responses, in order.
pub open spec fn responses_nodes(s: Seq<Response>) -> Seq<XmlNode>
    decreases s.len(),
{
    if s.len() == 0 {
        Seq::empty()
    } else {
        responses_nodes(s.drop_last()) + s.last().xml_nodes()
    }
}

/// The `d:multistatus` element with the given namespace attributes.
pub open spec fn multistatus_nodes(
    namespaces: Seq<(Seq<char>, Seq<char>)>,
    responses: Seq<XmlNode>,
) -> Seq<XmlNode> {
    seq![start_node_with_attrs("d:multistatus"@, namespaces)] + responses + seq![
        end_node("d:multistatus"@),
    ]
}

impl MultiStatusResponse {
    /// Whether every property of every response can be written.
    pub open spec fn writable(&self) -> bool {
        forall|i: int|
            0 <= i < self.responses@.len() ==> #[trigger] self.responses@[i].xml_writable()
    }

    /// Writes the document with the namespaces `namespaces` on its root.
    pub fn write_xml_with_namespaces(self, writer: &mut XmlWriter, namespaces: &[(&str, &str)])
        requires
            self.writable(),
        ensures
            final(writer)@ == old(writer)@ + multistatus_nodes(
                attrs_of(namespaces@),
                responses_nodes(self.responses@),
            ),
            final(writer).indented() == old(writer).indented(),
    {
        writer.start_element_with_attrs("d:multistatus", namespaces);
        let ghost resps = self.responses@;
        let ghost start = writer@;
        let mut rest = self.responses;
        let ghost mut taken: Seq<Response> = Seq::empty();
        assert(resps =~= Seq::<Response>::empty() + resps);
        while rest.len() > 0
            invariant
                resps == taken + rest@,
                writer@ == start + responses_nodes(taken),
                writer.indented() == old(writer).indented(),
                forall|j: int| 0 <= j < resps.len() ==> #[trigger] resps[j].xml_writable(),
            decreases rest@.len(),
        {
            let r = rest.remove(0);
            let ghost before = taken;
            assert(resps[before.len() as int] == r);
            r.write_xml(writer);
            proof {
                let t = before.push(r);
                assert(t.drop_last() =~= before);
                taken = t;
            }
            assert(resps =~= taken + rest@);
        }
        assert(taken =~= resps);
        writer.end_element("d:multistatus");
        assert(final(writer)@ =~= old(writer)@ + multistatus_nodes(
            attrs_of(namespaces@),
            responses_nodes(resps),
        ));
    }
}

impl SerializeXml for MultiStatusResponse {
    open spec fn xml_nodes(&self) -> Seq<XmlNode> {
        multistatus_nodes(webdav_namespace_attrs(), responses_nodes(self.responses@))
    }

    open spec fn xml_writable(&self) -> bool {
        self.writable()
    }

    fn write_xml(self, writer: &mut XmlWriter) {
        let namespaces = webdav_namespaces();
        let ns = namespaces.as_slice();
        assert(attrs_of(ns@) == webdav_namespace_attrs());
        self.write_xml_with_namespaces(writer, ns);
    }
}

} // verus!
