//! An XML writer that records the events of a document and hands them to
//! quick-xml when the document is complete.

use vstd::prelude::*;
use vstd::string::*;

use quick_xml::events::{BytesDecl, BytesEnd, BytesStart, BytesText, Event};
use quick_xml::Writer;

verus! {

broadcast use vstd::seq::group_seq_axioms;

/// Kind of an element start event.
pub const XML_START: u8 = 0;

/// Kind of an empty element event.
pub const XML_EMPTY: u8 = 1;

/// Kind of an element end event.
pub const XML_END: u8 = 2;

/// Kind of a text event.
pub const XML_TEXT: u8 = 3;

/// An XML event as plain values: its kind, the element name (or the text of
/// a text event), and the attributes of a start or empty element.
pub type XmlNode = (u8, Seq<char>, Seq<(Seq<char>, Seq<char>)>);

/// `<name>`.
pub open spec fn start_node(name: Seq<char>) -> XmlNode {
    (XML_START, name, Seq::empty())
}

/// `<name attr="value" ...>`.
pub open spec fn start_node_with_attrs(name: Seq<char>, attrs: Seq<(Seq<char>, Seq<char>)>) -> XmlNode {
    (XML_START, name, attrs)
}

/// `<name/>`.
pub open spec fn empty_node(name: Seq<char>) -> XmlNode {
    (XML_EMPTY, name, Seq::empty())
}

/// `<name attr="value" .../>`.
pub open spec fn empty_node_with_attrs(name: Seq<char>, attrs: Seq<(Seq<char>, Seq<char>)>) -> XmlNode {
    (XML_EMPTY, name, attrs)
}

/// `</name>`.
pub open spec fn end_node(name: Seq<char>) -> XmlNode {
    (XML_END, name, Seq::empty())
}

/// Character data, escaped when written.
pub open spec fn text_node(content: Seq<char>) -> XmlNode {
    (XML_TEXT, content, Seq::empty())
}

/// `<name>content</name>`.
pub open spec fn text_element(name: Seq<char>, content: Seq<char>) -> Seq<XmlNode> {
    seq![start_node(name), text_node(content), end_node(name)]
}

/// The kind of a recorded event.
#[derive(Clone, Copy, Debug, PartialEq, Eq)]
pub enum XmlKind {
    Start,
    Empty,
    End,
    Text,
}

impl XmlKind {
    /// The kind as the number an [`XmlNode`] carries.
    pub open spec fn code(self) -> u8 {
        match self {
            XmlKind::Start => XML_START,
            XmlKind::Empty => XML_EMPTY,
            XmlKind::End => XML_END,
            XmlKind::Text => XML_TEXT,
        }
    }
}

/// One recorded event of a document.
pub struct XmlEvent {
    kind: XmlKind,
    name: String,
    attrs: Vec<(String, String)>,
}

impl View for XmlEvent {
    type V = XmlNode;

    closed spec fn view(&self) -> XmlNode {
        (self.kind.code(), self.name@, self.attrs@.map_values(|a: (String, String)| (a.0@, a.1@)))
    }
}

/// The events of a sequence, as plain values.
pub open spec fn nodes_of(events: Seq<XmlEvent>) -> Seq<XmlNode> {
    events.map_values(|e: XmlEvent| e@)
}

/// The bytes quick-xml's `Writer` writes for the declaration
/// `BytesDecl::new(version, encoding, standalone)` followed by `events`,
/// indented by `indent.1` copies of the byte `indent.0` per level when
/// `indent` holds a value, and not indented otherwise.
pub uninterp spec fn quick_xml_document(
    version: Seq<char>,
    encoding: Option<Seq<char>>,
    standalone: Option<Seq<char>>,
    indent: Option<(u8, nat)>,
    events: Seq<XmlNode>,
) -> Seq<u8>;

/// The view of an optional text.
pub open spec fn opt_str_view(s: Option<&str>) -> Option<Seq<char>> {
    match s {
        Some(t) => Some(t@),
        None => None,
    }
}

/// The byte an indented document is indented with: a space.
pub const INDENT_CHAR: u8 = 32u8;

/// The number of indent bytes per level of an indented document.
pub const INDENT_SIZE: usize = 4usize;

/// The document of `events` as the library writes it: declared as XML 1.0 in
/// UTF-8, and indented by four spaces per level when `indent` holds.
pub open spec fn xml_document(indent: bool, events: Seq<XmlNode>) -> Seq<u8> {
    quick_xml_document(
        "1.0"@,
        Some("utf-8"@),
        None,
        if indent {
            Some((INDENT_CHAR, INDENT_SIZE as nat))
        } else {
            None
        },
        events,
    )
}

/// The namespaces of a WebDAV document, as attributes of its root element.
pub open spec fn webdav_namespace_attrs() -> Seq<(Seq<char>, Seq<char>)> {
    seq![("xmlns:d"@, "DAV:"@), ("xmlns:cal"@, "urn:ietf:params:xml:ns:caldav"@)]
}

/// A collection of namespaces used when serializing to XML.
pub fn webdav_namespaces() -> (r: Vec<(&'static str, &'static str)>)
    ensures
        r@.map_values(|a: (&str, &str)| (a.0@, a.1@)) == webdav_namespace_attrs(),
{
    let r = vec![("xmlns:d", "DAV:"), ("xmlns:cal", "urn:ietf:params:xml:ns:caldav")];
    assert(r@.map_values(|a: (&str, &str)| (a.0@, a.1@)) =~= webdav_namespace_attrs());
    r
}

/// Failure to write a document.
#[derive(Debug)]
pub enum XmlError {
    /// The underlying writer reported an error.
    Io,
}

#[verifier::external_type_specification]
#[verifier::external_body]
pub struct ExIoError(std::io::Error);

/// Writes the declaration `BytesDecl::new(version, encoding, standalone)`
/// and the events with a quick-xml `Writer::new` over a `Vec<u8>`, returning
/// its bytes. The contract claims that the result is `Ok` and is the named
/// document without indentation: `Writer::write_event` fails only when the
/// underlying writer's `write_all` fails, and writing to a `Vec<u8>` appends
/// to the vector.
#[verifier::external_body]
fn render_document(
    version: &str,
    encoding: Option<&str>,
    standalone: Option<&str>,
    events: &Vec<XmlEvent>,
) -> (r: Result<Vec<u8>, std::io::Error>)
    ensures
        r is Ok,
        r matches Ok(b) ==> b@ == quick_xml_document(
            version@,
            opt_str_view(encoding),
            opt_str_view(standalone),
            None,
            nodes_of(events@),
        ),
{
    let mut writer = Writer::new(Vec::new());
    writer.write_event(Event::Decl(BytesDecl::new(version, encoding, standalone)))?;
    for e in events.iter() {
        let (n, a) = (e.name.as_str(), e.attrs.iter().map(|(k, v)| (k.as_str(), v.as_str())));
        writer.write_event(match e.kind {
            XmlKind::Start => Event::Start(BytesStart::new(n).with_attributes(a)),
            XmlKind::Empty => Event::Empty(BytesStart::new(n).with_attributes(a)),
            XmlKind::End => Event::End(BytesEnd::new(n)),
            XmlKind::Text => Event::Text(BytesText::new(n)),
        })?;
    }
    Ok(writer.into_inner())
}

/// Writes the declaration `BytesDecl::new(version, encoding, standalone)`
/// and the events with a quick-xml
/// `Writer::new_with_indent(.., indent_char, indent_size)` over a `Vec<u8>`,
/// returning its bytes. The contract claims that the result is `Ok` and is
/// the named indented document, for the reason [`render_document`] gives.
#[verifier::external_body]
fn render_indented_document(
    version: &str,
    encoding: Option<&str>,
    standalone: Option<&str>,
    indent_char: u8,
    indent_size: usize,
    events: &Vec<XmlEvent>,
) -> (r: Result<Vec<u8>, std::io::Error>)
    ensures
        r is Ok,
        r matches Ok(b) ==> b@ == quick_xml_document(
            version@,
            opt_str_view(encoding),
            opt_str_view(standalone),
            Some((indent_char, indent_size as nat)),
            nodes_of(events@),
        ),
{
    let mut writer = Writer::new_with_indent(Vec::new(), indent_char, indent_size);
    writer.write_event(Event::Decl(BytesDecl::new(version, encoding, standalone)))?;
    for e in events.iter() {
        let (n, a) = (e.name.as_str(), e.attrs.iter().map(|(k, v)| (k.as_str(), v.as_str())));
        writer.write_event(match e.kind {
            XmlKind::Start => Event::Start(BytesStart::new(n).with_attributes(a)),
            XmlKind::Empty => Event::Empty(BytesStart::new(n).with_attributes(a)),
            XmlKind::End => Event::End(BytesEnd::new(n)),
            XmlKind::Text => Event::Text(BytesText::new(n)),
        })?;
    }
    Ok(writer.into_inner())
}

/// Builds an XML document event by event.
pub struct XmlWriter {
    events: Vec<XmlEvent>,
    indent: bool,
}

impl View for XmlWriter {
    type V = Seq<XmlNode>;

    /// The events written so far, after the declaration.
    closed spec fn view(&self) -> Seq<XmlNode> {
        nodes_of(self.events@)
    }
}

/// Copies attribute pairs into owned strings.
fn owned_attrs(attrs: &[(&str, &str)]) -> (r: Vec<(String, String)>)
    ensures
        r@.map_values(|a: (String, String)| (a.0@, a.1@)) == attrs@.map_values(
            |a: (&str, &str)| (a.0@, a.1@),
        ),
{
    let mut r: Vec<(String, String)> = Vec::new();
    let mut i: usize = 0;
    while i < attrs.len()
        invariant
            i <= attrs@.len(),
            r@.map_values(|a: (String, String)| (a.0@, a.1@)) == attrs@.take(i as int).map_values(
                |a: (&str, &str)| (a.0@, a.1@),
            ),
        decreases attrs@.len() - i,
    {
        let (k, v) = attrs[i];
        let ghost old_r = r@;
        r.push((k.to_owned(), v.to_owned()));
        assert(attrs@.take(i + 1) =~= attrs@.take(i as int).push(attrs@[i as int]));
        assert(r@.map_values(|a: (String, String)| (a.0@, a.1@)) =~= old_r.map_values(
            |a: (String, String)| (a.0@, a.1@),
        ).push((k@, v@)));
        assert(r@.map_values(|a: (String, String)| (a.0@, a.1@)) =~= attrs@.take(
            (i + 1) as int,
        ).map_values(|a: (&str, &str)| (a.0@, a.1@)));
        i = i + 1;
    }
    assert(attrs@.take(attrs@.len() as int) =~= attrs@);
    r
}

/// The attributes of a slice of pairs, as plain values.
pub open spec fn attrs_of(attrs: Seq<(&str, &str)>) -> Seq<(Seq<char>, Seq<char>)> {
    attrs.map_values(|a: (&str, &str)| (a.0@, a.1@))
}

impl XmlWriter {
    /// Whether the document is written with indentation.
    pub closed spec fn indented(self) -> bool {
        self.indent
    }

    fn push_event(&mut self, kind: XmlKind, name: &str, attrs: Vec<(String, String)>)
        ensures
            final(self)@ == old(self)@.push(
                (kind.code(), name@, attrs@.map_values(|a: (String, String)| (a.0@, a.1@))),
            ),
            final(self).indented() == old(self).indented(),
    {
        let e = XmlEvent { kind, name: name.to_owned(), attrs };
        self.events.push(e);
        assert(nodes_of(self.events@) =~= nodes_of(old(self).events@).push(e@));
    }

    /// A writer for a document without indentation.
    pub fn new() -> (w: XmlWriter)
        ensures
            w@ == Seq::<XmlNode>::empty(),
            !w.indented(),
    {
        let w = XmlWriter { events: Vec::new(), indent: false };
        assert(w@ =~= Seq::<XmlNode>::empty());
        w
    }

    /// A writer for a document indented by four spaces per level.
    pub fn new_with_indent() -> (w: XmlWriter)
        ensures
            w@ == Seq::<XmlNode>::empty(),
            w.indented(),
    {
        let w = XmlWriter { events: Vec::new(), indent: true };
        assert(w@ =~= Seq::<XmlNode>::empty());
        w
    }

    /// Opens the element `name`.
    pub fn start_element(&mut self, name: &str)
        ensures
            final(self)@ == old(self)@.push(start_node(name@)),
            final(self).indented() == old(self).indented(),
    {
        let attrs: Vec<(String, String)> = Vec::new();
        proof {
            assert(attrs@.map_values(|a: (String, String)| (a.0@, a.1@)) =~= Seq::empty());
        }
        self.push_event(XmlKind::Start, name, attrs);
    }

    /// Opens the element `name` with the attributes `attrs`.
    pub fn start_element_with_attrs(&mut self, name: &str, attrs: &[(&str, &str)])
        ensures
            final(self)@ == old(self)@.push(start_node_with_attrs(name@, attrs_of(attrs@))),
            final(self).indented() == old(self).indented(),
    {
        let owned = owned_attrs(attrs);
        self.push_event(XmlKind::Start, name, owned);
    }

    /// Writes the empty element `name`.
    pub fn empty_element(&mut self, name: &str)
        ensures
            final(self)@ == old(self)@.push(empty_node(name@)),
            final(self).indented() == old(self).indented(),
    {
        let attrs: Vec<(String, String)> = Vec::new();
        proof {
            assert(attrs@.map_values(|a: (String, String)| (a.0@, a.1@)) =~= Seq::empty());
        }
        self.push_event(XmlKind::Empty, name, attrs);
    }

    /// Writes the empty element `name` with the attributes `attrs`.
    pub fn empty_element_with_attrs(&mut self, name: &str, attrs: &[(&str, &str)])
        ensures
            final(self)@ == old(self)@.push(empty_node_with_attrs(name@, attrs_of(attrs@))),
            final(self).indented() == old(self).indented(),
    {
        let owned = owned_attrs(attrs);
        self.push_event(XmlKind::Empty, name, owned);
    }

    /// Closes the element `name`.
    pub fn end_element(&mut self, name: &str)
        ensures
            final(self)@ == old(self)@.push(end_node(name@)),
            final(self).indented() == old(self).indented(),
    {
        let attrs: Vec<(String, String)> = Vec::new();
        proof {
            assert(attrs@.map_values(|a: (String, String)| (a.0@, a.1@)) =~= Seq::empty());
        }
        self.push_event(XmlKind::End, name, attrs);
    }

    /// Writes character data.
    pub fn add_text(&mut self, content: &str)
        ensures
            final(self)@ == old(self)@.push(text_node(content@)),
            final(self).indented() == old(self).indented(),
    {
        let attrs: Vec<(String, String)> = Vec::new();
        proof {
            assert(attrs@.map_values(|a: (String, String)| (a.0@, a.1@)) =~= Seq::empty());
        }
        self.push_event(XmlKind::Text, content, attrs);
    }

    /// Writes `<name>content</name>`.
    pub fn text_element(&mut self, name: &str, content: &str)
        ensures
            final(self)@ == old(self)@ + text_element(name@, content@),
            final(self).indented() == old(self).indented(),
    {
        self.start_element(name);
        self.add_text(content);
        self.end_element(name);
        assert(final(self)@ =~= old(self)@ + text_element(name@, content@));
    }

    /// The bytes of the document: the declaration followed by the events
    /// written, as quick-xml writes them into memory, which always succeeds.
    pub fn into_bytes(self) -> (r: Result<Vec<u8>, XmlError>)
        ensures
            r is Ok,
            r matches Ok(b) ==> b@ == xml_document(self.indented(), self@),
    {
        let written = if self.indent {
            render_indented_document(
                "1.0",
                Some("utf-8"),
                None,
                INDENT_CHAR,
                INDENT_SIZE,
                &self.events,
            )
        } else {
            render_document("1.0", Some("utf-8"), None, &self.events)
        };
        match written {
            Ok(b) => Ok(b),
            Err(_) => Err(XmlError::Io),
        }
    }
}

/// A value that can be written as XML events.
pub trait SerializeXml: Sized {
    /// The events the value writes.
    spec fn xml_nodes(&self) -> Seq<XmlNode>;

    /// Whether the value can be written; values whose text cannot be
    /// rendered are excluded.
    spec fn xml_writable(&self) -> bool;

    /// Appends the value's events to the writer.
    fn write_xml(self, writer: &mut XmlWriter)
        requires
            self.xml_writable(),
        ensures
            final(writer)@ == old(writer)@ + self.xml_nodes(),
            final(writer).indented() == old(writer).indented(),
    ;
}

} // verus!
