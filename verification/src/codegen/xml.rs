//! The events of an XML document, as `quick_xml` reads them.
use vstd::prelude::*;

use quick_xml::events::Event;
use quick_xml::Reader;

verus! {

/// One event of an XML document, in document order. Names, attribute keys
/// and values, and contents are the document's own bytes, not unescaped.
#[derive(Debug, Clone)]
pub enum XmlEvent {
    /// A start tag: the element's name and its attributes in order, each a
    /// key and value or the message of the error met in reading it.
    Start(Vec<u8>, Vec<Result<(Vec<u8>, Vec<u8>), String>>),
    /// An end tag and its name.
    End(Vec<u8>),
    /// Any other event (text, empty element, comment, CDATA, declaration,
    /// processing instruction, document type), by its content bytes.
    Other(Vec<u8>),
    /// A read that failed, by the error's message.
    Error(String),
}

/// The plain content of an event.
pub enum XmlEventView {
    Start(Seq<u8>, Seq<Result<(Seq<u8>, Seq<u8>), Seq<char>>>),
    End(Seq<u8>),
    Other(Seq<u8>),
    Error(Seq<char>),
}

/// The plain content of one attribute.
pub open spec fn attribute_view(a: Result<(Vec<u8>, Vec<u8>), String>) -> Result<(Seq<u8>, Seq<u8>), Seq<char>> {
    match a {
        Ok((k, v)) => Ok((k@, v@)),
        Err(m) => Err(m@),
    }
}

/// The plain content of attributes.
pub open spec fn attributes_view(v: Seq<Result<(Vec<u8>, Vec<u8>), String>>) -> Seq<Result<(Seq<u8>, Seq<u8>), Seq<char>>> {
    Seq::new(v.len(), |i: int| attribute_view(v[i]))
}

impl View for XmlEvent {
    type V = XmlEventView;

    open spec fn view(&self) -> XmlEventView {
        match self {
            XmlEvent::Start(n, a) => XmlEventView::Start(n@, attributes_view(a@)),
            XmlEvent::End(n) => XmlEventView::End(n@),
            XmlEvent::Other(b) => XmlEventView::Other(b@),
            XmlEvent::Error(m) => XmlEventView::Error(m@),
        }
    }
}

/// The plain content of one read: the event, and the reader's byte
/// position after it.
pub open spec fn read_view(r: (XmlEvent, u64)) -> (XmlEventView, nat) {
    (r.0@, r.1 as nat)
}

/// The plain content of reads.
pub open spec fn reads_view(v: Seq<(XmlEvent, u64)>) -> Seq<(XmlEventView, nat)> {
    Seq::new(v.len(), |i: int| read_view(v[i]))
}

/// What `quick_xml`'s reader, in its default configuration, gives on each
/// call of `read_event` on a document, up to the end of input: the event
/// (an error as its message), and the reader's byte position in the input after
/// it.
pub uninterp spec fn xml_reads_of(xml: Seq<char>) -> Seq<(XmlEventView, nat)>;

/// Calls `read_event` of `quick_xml::Reader::from_str` until the end of
/// input, keeping each result (start tags with their name and each of
/// `attributes()` or its error's message, end tags with their name, any
/// other event by its content, an error by its message) with
/// `buffer_position()` after it. The positions are positions in the input,
/// so none is past its length in bytes.
#[verifier::external_body]
pub fn xml_reads(xml: &str) -> (r: Vec<(XmlEvent, u64)>)
    ensures
        reads_view(r@) == xml_reads_of(xml@),
        forall|i: int| 0 <= i < r@.len() ==> r@[i].1 <= vstd::utf8::encode_utf8(xml@).len(),
{
    let mut reader = Reader::from_str(xml);
    let mut events = Vec::new();
    loop {
        events.push((match reader.read_event() {
            Ok(Event::Start(e)) => XmlEvent::Start(e.name().0.to_vec(), e.attributes().map(|a| a.map(|a| (a.key.0.to_vec(), a.value.to_vec())).map_err(|x| x.to_string())).collect()),
            Ok(Event::End(e)) => XmlEvent::End(e.name().0.to_vec()),
            Ok(Event::Eof) => return events,
            Ok(e) => XmlEvent::Other(e.to_vec()),
            Err(x) => XmlEvent::Error(x.to_string())
        }, reader.buffer_position()))
    }
}

} // verus!
