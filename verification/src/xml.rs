//! The events of an XML document, read one by one with `quick_xml`.

use vstd::prelude::*;
use quick_xml::events::Event;

verus! {

/// A start, end or empty-element tag.
#[derive(Debug)]
pub struct XmlTag {
    /// The namespace that the tag's name resolves to, if any.
    pub namespace: Option<Vec<u8>>,
    /// The qualified name.
    pub name: Vec<u8>,
    /// The tag's bytes: the name, then the attributes; of an end tag, the
    /// name alone.
    pub content: Vec<u8>,
}

/// One event of a document.
#[derive(Debug)]
pub enum XmlEvent {
    /// The start tag of an element.
    Start(XmlTag),
    /// The end tag of an element.
    End(XmlTag),
    /// An element without content, written as one tag.
    Empty(XmlTag),
    /// The end of the document.
    Eof,
    /// Text, a comment, a declaration and the like.
    Other,
}

/// One attribute of a tag: its key, and its value unescaped and decoded as
/// UTF-8, or `None` where the value cannot be.
#[derive(Debug)]
pub struct XmlAttribute {
    pub key: Vec<u8>,
    pub value: Option<String>,
}

/// The mathematical value of an `XmlTag`.
pub struct XmlTagView {
    pub namespace: Option<Seq<u8>>,
    pub name: Seq<u8>,
    pub content: Seq<u8>,
}

impl View for XmlTag {
    type V = XmlTagView;

    open spec fn view(&self) -> XmlTagView {
        XmlTagView {
            namespace: match self.namespace {
                Some(ns) => Some(ns@),
                None => None,
            },
            name: self.name@,
            content: self.content@,
        }
    }
}

/// The mathematical value of an `XmlEvent`.
pub enum XmlEventView {
    Start(XmlTagView),
    End(XmlTagView),
    Empty(XmlTagView),
    Eof,
    Other,
}

impl View for XmlEvent {
    type V = XmlEventView;

    open spec fn view(&self) -> XmlEventView {
        match self {
            XmlEvent::Start(tag) => XmlEventView::Start(tag@),
            XmlEvent::End(tag) => XmlEventView::End(tag@),
            XmlEvent::Empty(tag) => XmlEventView::Empty(tag@),
            XmlEvent::Eof => XmlEventView::Eof,
            XmlEvent::Other => XmlEventView::Other,
        }
    }
}

/// The mathematical value of an `XmlAttribute`.
pub struct XmlAttributeView {
    pub key: Seq<u8>,
    pub value: Option<Seq<char>>,
}

impl View for XmlAttribute {
    type V = XmlAttributeView;

    open spec fn view(&self) -> XmlAttributeView {
        XmlAttributeView {
            key: self.key@,
            value: match self.value {
                Some(v) => Some(v@),
                None => None,
            },
        }
    }
}

/// The value of what one reading gave: an event, or `None` for an error.
pub open spec fn reading_view(reading: Option<XmlEvent>) -> Option<XmlEventView> {
    match reading {
        Some(event) => Some(event@),
        None => None,
    }
}

/// The values of a list of readings, in order.
pub open spec fn events_view(events: Seq<Option<XmlEvent>>) -> Seq<Option<XmlEventView>> {
    Seq::new(events.len(), |i: int| reading_view(events[i]))
}

/// The values of a list of attributes, in order; `None` stands for a
/// malformed one.
pub open spec fn attributes_view(attrs: Seq<Option<XmlAttribute>>) -> Seq<Option<XmlAttributeView>> {
    Seq::new(
        attrs.len(),
        |i: int|
            match attrs[i] {
                Some(a) => Some(a@),
                None => None,
            },
    )
}

/// The events that a namespace-resolving reader with trimmed text gives for
/// a document, up to and including the end of the document or the first
/// error; an error stands as `None`.
pub uninterp spec fn document_events(xml: Seq<char>) -> Seq<Option<XmlEventView>>;

/// The events that a scanner has yet to give, up to and including the end
/// of the document or the first error.
pub uninterp spec fn pending_events(scanner: XmlScanner) -> Seq<Option<XmlEventView>>;

/// The attributes that `quick_xml` reads in a tag's content from a position
/// on, in order; a malformed attribute stands as `None` and ends the list.
pub uninterp spec fn tag_attributes(content: Seq<u8>, at: int) -> Seq<Option<XmlAttributeView>>;

/// Whether the event ends a reader's events.
pub open spec fn is_last(event: Option<XmlEventView>) -> bool {
    event is None || event == Some(XmlEventView::Eof)
}

/// A `quick_xml::Reader` over a document, with the buffer in which it keeps
/// the namespaces that are in scope. Verus cannot take the reader's type, so
/// the two are held here out of its sight.
#[verifier::external_body]
pub struct XmlScanner<'a> {
    reader: quick_xml::Reader<&'a [u8]>,
    namespaces: Vec<u8>,
}

/// Makes the reader of a document with `quick_xml::Reader::from_str` and
/// sets it, with `trim_text(true)`, to trim the text between tags, before
/// anything is read. `document_events` stands for what a reader made and set
/// so gives for the document.
#[verifier::external_body]
pub(crate) fn open_scanner<'a>(xml: &'a str) -> (r: XmlScanner<'a>)
    ensures
        pending_events(r) == document_events(xml@),
{
    let mut reader = quick_xml::Reader::from_str(xml);
    reader.trim_text(true);
    XmlScanner { reader, namespaces: Vec::new() }
}

/// Calls `quick_xml::Reader::read_namespaced_event` and copies the resolved
/// namespace, the name and the content of a tag. The result is the first of
/// the pending events; unless it is the last, the others stay pending. The
/// reader consumes input with every event but the end of the document, and
/// after that or an error it gives nothing more, so the pending events are
/// finitely many.
#[verifier::external_body]
pub(crate) fn next_event(scanner: &mut XmlScanner) -> (r: Option<XmlEvent>)
    ensures
        pending_events(*old(scanner)).len() > 0,
        reading_view(r) == pending_events(*old(scanner))[0],
        is_last(reading_view(r)) ==> pending_events(*old(scanner)).len() == 1,
        !is_last(reading_view(r)) ==> pending_events(*final(scanner)) == pending_events(
            *old(scanner),
        ).drop_first(),
{
    let mut buf = Vec::new();
    let (ns, event) = scanner.reader.read_namespaced_event(&mut buf, &mut scanner.namespaces).ok()?;
    let namespace = ns.map(<[u8]>::to_vec);
    Some(match event {
        Event::Start(e) => XmlEvent::Start(XmlTag { namespace, name: e.name().to_vec(), content: e.to_vec() }),
        Event::Empty(e) => XmlEvent::Empty(XmlTag { namespace, name: e.name().to_vec(), content: e.to_vec() }),
        Event::End(e) => XmlEvent::End(XmlTag { namespace, name: e.name().to_vec(), content: e.to_vec() }),
        Event::Eof => XmlEvent::Eof,
        _ => XmlEvent::Other,
    })
}

/// Calls `quick_xml::events::attributes::Attributes::new` on a tag's content
/// and walks the iterator; each value goes through `unescaped_value` and
/// `String::from_utf8`. The result is only named, as `tag_attributes`.
#[verifier::external_body]
pub(crate) fn read_attributes(content: &[u8], at: usize) -> (r: Vec<Option<XmlAttribute>>)
    ensures
        attributes_view(r@) == tag_attributes(content@, at as int),
{
    quick_xml::events::attributes::Attributes::new(content, at).map(
        |a| a.ok().map(
            |a| XmlAttribute {
                key: a.key.to_vec(),
                value: a.unescaped_value().ok().and_then(|v| String::from_utf8(v.into_owned()).ok()),
            },
        ),
    ).collect()
}

} // verus!
