//! WebDAV multistatus responses whose property is the collection itself.

use vstd::prelude::*;
use vstd::string::*;

use crate::http::{status_display, status_text, valid_status};
use crate::logic::response::creation_date_text;
use crate::serialization::xml::{
    empty_node, end_node, start_node, start_node_with_attrs, text_element, SerializeXml, XmlNode,
    XmlWriter,
};
use crate::time::{chrono_format_utc, chrono_rfc2822, in_rfc2822_range, rfc2822, UtcTime};
use crate::webdav::xml::{webdav_namespace_attrs, webdav_namespaces};

verus! {

broadcast use vstd::seq::group_seq_axioms;

/// A multistatus document: one response per resource.
#[derive(Debug)]
pub struct MultiStatusResponse {
    pub responses: Vec<Response>,
}

/// The properties of one resource.
#[derive(Debug)]
pub struct Response {
    pub href: String,
    pub properties: Vec<PropStat>,
}

/// A group of properties that share a status.
#[derive(Debug)]
pub struct PropStat {
    /// The status code this property represents, written as
    /// `HTTP/1.1 200 OK`.
    pub status_code: u16,
    pub prop: Property,
}

/// The properties of a collection.
#[derive(Debug)]
pub struct Property {
    pub resource_type: ResourceType,
    pub display_name: String,
    pub last_modified: UtcTime,
    pub created_at: UtcTime,
    pub current_user_principal: String,
}

/// The kind of a resource.
#[derive(Debug)]
pub enum ResourceType {
    Collection,
    Empty,
    Calendar,
}

impl ResourceType {
    /// The content of the `d:resourcetype` element.
    pub open spec fn nodes(&self) -> Seq<XmlNode> {
        match self {
            ResourceType::Collection => seq![empty_node("d:collection"@)],
            ResourceType::Empty => Seq::empty(),
            ResourceType::Calendar => seq![empty_node("cal:calendar"@)],
        }
    }

    /// Writes the content of the `d:resourcetype` element.
    pub fn write_content(&self, writer: &mut XmlWriter)
        ensures
            final(writer)@ == old(writer)@ + self.nodes(),
            final(writer).indented() == old(writer).indented(),
    {
        match self {
            ResourceType::Collection => {
                writer.empty_element("d:collection");
            },
            ResourceType::Empty => {},
            ResourceType::Calendar => {
                writer.empty_element("cal:calendar");
            },
        }
        assert(final(writer)@ =~= old(writer)@ + self.nodes());
    }
}

impl SerializeXml for Property {
    open spec fn xml_nodes(&self) -> Seq<XmlNode> {
        seq![start_node("d:prop"@), start_node("d:resourcetype"@)] + self.resource_type.nodes()
            + seq![end_node("d:resourcetype"@)] + text_element("d:displayname"@, self.display_name@)
            + text_element("d:getlastmodified"@, chrono_rfc2822(self.last_modified@))
            + text_element(
            "d:creationdate"@,
            chrono_format_utc(self.created_at@, "%Y-%m-%dT%H:%M:%SZ"@),
        ) + seq![start_node("d:current-user-principal"@)] + text_element(
            "d:href"@,
            self.current_user_principal@,
        ) + seq![end_node("d:current-user-principal"@), end_node("d:prop"@)]
    }

    /// RFC 2822 dates exist for the years 0 through 9999 only.
    open spec fn xml_writable(&self) -> bool {
        in_rfc2822_range(self.last_modified@)
    }

    fn write_xml(self, writer: &mut XmlWriter) {
        writer.start_element("d:prop");
        writer.start_element("d:resourcetype");
        self.resource_type.write_content(writer);
        writer.end_element("d:resourcetype");
        writer.text_element("d:displayname", self.display_name.as_str());
        let modified = rfc2822(self.last_modified);
        writer.text_element("d:getlastmodified", modified.as_str());
        let created = creation_date_text(self.created_at);
        writer.text_element("d:creationdate", created.as_str());
        writer.start_element("d:current-user-principal");
        writer.text_element("d:href", self.current_user_principal.as_str());
        writer.end_element("d:current-user-principal");
        writer.end_element("d:prop");
        assert(final(writer)@ =~= old(writer)@ + self.xml_nodes());
    }
}

/// The text of a status line, `HTTP/1.1 200 OK`.
pub open spec fn status_line(code: u16) -> Seq<char> {
    "HTTP/1.1 "@ + status_display(code as int)
}

/// Renders the status line of a status code.
pub fn status_line_text(code: u16) -> (s: String)
    requires
        valid_status(code as int),
    ensures
        s@ == status_line(code),
{
    let mut s = String::new();
    s.append("HTTP/1.1 ");
    s.append(status_text(code).as_str());
    assert(s@ =~= status_line(code));
    s
}

impl SerializeXml for PropStat {
    open spec fn xml_nodes(&self) -> Seq<XmlNode> {
        seq![start_node("d:propstat"@)] + self.prop.xml_nodes() + text_element(
            "d:status"@,
            status_line(self.status_code),
        ) + seq![end_node("d:propstat"@)]
    }

    open spec fn xml_writable(&self) -> bool {
        &&& self.prop.xml_writable()
        &&& valid_status(self.status_code as int)
    }

    fn write_xml(self, writer: &mut XmlWriter) {
        writer.start_element("d:propstat");
        let code = self.status_code;
        self.prop.write_xml(writer);
        let status = status_line_text(code);
        writer.text_element("d:status", status.as_str());
        writer.end_element("d:propstat");
        assert(final(writer)@ =~= old(writer)@ + self.xml_nodes());
    }
}

/// The events of a sequence of property groups, in order.
pub open spec fn propstats_nodes(s: Seq<PropStat>) -> Seq<XmlNode>
    decreases s.len(),
{
    if s.len() == 0 {
        Seq::empty()
    } else {
        propstats_nodes(s.drop_last()) + s.last().xml_nodes()
    }
}

impl SerializeXml for Response {
    open spec fn xml_nodes(&self) -> Seq<XmlNode> {
        seq![start_node("d:response"@)] + text_element("d:href"@, self.href@) + propstats_nodes(
            self.properties@,
        ) + seq![end_node("d:response"@)]
    }

    open spec fn xml_writable(&self) -> bool {
        forall|i: int| 0 <= i < self.properties@.len() ==> #[trigger] self.properties@[i].xml_writable()
    }

    fn write_xml(self, writer: &mut XmlWriter) {
        writer.start_element("d:response");
        writer.text_element("d:href", self.href.as_str());
        let ghost props = self.properties@;
        let ghost start = writer@;
        let mut rest = self.properties;
        let ghost mut taken: Seq<PropStat> = Seq::empty();
        assert(props =~= Seq::<PropStat>::empty() + props);
        while rest.len() > 0
            invariant
                props == taken + rest@,
                writer@ == start + propstats_nodes(taken),
                writer.indented() == old(writer).indented(),
                forall|j: int| 0 <= j < props.len() ==> #[trigger] props[j].xml_writable(),
            decreases rest@.len(),
        {
            let p = rest.remove(0);
            let ghost before = taken;
            assert(props[before.len() as int] == p);
            p.write_xml(writer);
            proof {
                let t = before.push(p);
                assert(t.drop_last() =~= before);
                taken = t;
            }
            assert(props =~= taken + rest@);
        }
        assert(taken =~= props);
        writer.end_element("d:response");
        assert(final(writer)@ =~= old(writer)@ + self.xml_nodes());
    }
}

/// The events of a sequence of responses, in order.
pub open spec fn responses_nodes(s: Seq<Response>) -> Seq<XmlNode>
    decreases s.len(),
{
    if s.len() == 0 {
        Seq::empty()
    } else {
        responses_nodes(s.drop_last()) + s.last().xml_nodes()
    }
}

impl SerializeXml for MultiStatusResponse {
    open spec fn xml_nodes(&self) -> Seq<XmlNode> {
        seq![start_node_with_attrs("d:multistatus"@, webdav_namespace_attrs())] + responses_nodes(
            self.responses@,
        ) + seq![end_node("d:multistatus"@)]
    }

    open spec fn xml_writable(&self) -> bool {
        forall|i: int| 0 <= i < self.responses@.len() ==> #[trigger] self.responses@[i].xml_writable()
    }

    fn write_xml(self, writer: &mut XmlWriter) {
        let namespaces = webdav_namespaces();
        writer.start_element_with_attrs("d:multistatus", namespaces.as_slice());
        let ghost resps = self.responses@;
        let ghost start = writer@;
        let mut rest = self.responses;
        let ghost mut taken: Seq<Response> = Seq::empty();
        assert(resps =~= Seq::<Response>::empty() + resps);
        while rest.len() > 0
            invariant
                resps == taken + rest@,
                writer@ == start + responses_nodes(taken),
                writer.indented() == old(writer).indented(),
                forall|j: int| 0 <= j < resps.len() ==> #[trigger] resps[j].xml_writable(),
            decreases rest@.len(),
        {
            let r = rest.remove(0);
            let ghost before = taken;
            assert(resps[before.len() as int] == r);
            r.write_xml(writer);
            proof {
                let t = before.push(r);
                assert(t.drop_last() =~= before);
                taken = t;
            }
            assert(resps =~= taken + rest@);
        }
        assert(taken =~= resps);
        writer.end_element("d:multistatus");
        assert(final(writer)@ =~= old(writer)@ + self.xml_nodes());
    }
}

} // verus!
