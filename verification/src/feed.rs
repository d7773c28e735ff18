//! The boundary to the XML tokenizer.
//!
//! The tokenizer (the `xml` crate's pull parser) turns a feed document
//! into the event stream the extractor consumes. Tokenizing an in-memory
//! document is a function of its text alone, so the stream it yields has
//! a name here, [`tokens_of`], which the trusted [`tokenize`] wrapper
//! applies; the extraction itself, [`extract`], is verified for every
//! stream, and [`read_podcast_from_xml`]'s contract says exactly what the
//! named stream turns into.

use vstd::prelude::*;

use crate::event::{items_view, Attr, Event, StreamItem, StreamItemView};
use crate::extractor::{extract, extract_spec, first_fault, stream_events, ExtractionError};
use crate::podcast::{podcasts_view, Podcast};
use xml::reader::XmlEvent;

verus! {

#[verifier::external_type_specification]
#[verifier::external_body]
pub struct ExXmlError(xml::reader::Error);

#[verifier::external_type_specification]
#[verifier::external_body]
pub struct ExOwnedAttribute(xml::attribute::OwnedAttribute);

/// The tokenizer's handle. Verus sees nothing of it: the reader inside is
/// generic over its byte source, which cannot be declared here, so the
/// whole handle is opaque and every use of it goes through the trusted
/// wrappers below.
#[verifier::external_body]
struct Tokenizer<'a> {
    reader: xml::reader::EventReader<&'a [u8]>,
}

/// Relies on xml::reader::EventReader::from_str: a pull tokenizer over the
/// given document text.
#[verifier::external_body]
fn reader_from_str(text: &str) -> Tokenizer<'_> {
    Tokenizer { reader: xml::reader::EventReader::from_str(text) }
}

/// Relies on xml::reader::EventReader::next: one XML event per call, in
/// document order, with element and attribute names exposed
/// namespace-locally. `None` stands for the end of the document; after an
/// error or the end, further calls return the same again. Character and
/// CDATA content both carry text.
#[verifier::external_body]
fn next_event(t: &mut Tokenizer<'_>) -> (r: Option<Result<Event, xml::reader::Error>>) {
    match t.reader.next() {
        Ok(XmlEvent::StartElement { name, attributes, .. }) => {
            Some(Ok(Event::Open { name: name.local_name, attrs: convert_attrs(attributes) }))
        },
        Ok(XmlEvent::EndElement { name }) => Some(Ok(Event::Close { name: name.local_name })),
        Ok(XmlEvent::CData(content)) => Some(Ok(Event::Text { content })),
        Ok(XmlEvent::Characters(content)) => Some(Ok(Event::Text { content })),
        Ok(XmlEvent::EndDocument) => None,
        Ok(_) => Some(Ok(Event::Other)),
        Err(e) => Some(Err(e)),
    }
}

/// Relies on xml::attribute::OwnedAttribute's public fields: each
/// attribute's namespace-local name and its value.
#[verifier::external_body]
fn convert_attrs(attributes: Vec<xml::attribute::OwnedAttribute>) -> (r: Vec<Attr>) {
    attributes.into_iter().map(|a| Attr { name: a.name.local_name, value: a.value }).collect()
}

/// Relies on the Display rendering of xml::reader::Error: the position and
/// kind of the tokenizer's failure, as text.
#[verifier::external_body]
fn xml_error_message(e: &xml::reader::Error) -> (r: String) {
    format!("{e}")
}

/// The stream the tokenizer yields for a given document text: its events
/// in document order up to the end of the document, or up to and with the
/// report of its first error. The tokenizer reads nothing but the text,
/// so the stream is a function of the text alone.
pub uninterp spec fn tokens_of(text: Seq<char>) -> Seq<StreamItemView>;

/// Relies on xml::reader::EventReader, from_str and next: tokenizing an
/// in-memory document depends on its text alone, and the stream it
/// yields is named [`tokens_of`]. The pull stops at the end of the
/// document, or at the first error — which the reader would only repeat.
#[verifier::external_body]
fn tokenize(text: &str) -> (r: Vec<StreamItem>)
    ensures
        items_view(r@) == tokens_of(text@),
{
    let mut t = reader_from_str(text);
    let mut items = Vec::new();
    loop {
        match next_event(&mut t) {
            None => return items,
            Some(Ok(e)) => items.push(StreamItem::Event(e)),
            Some(Err(e)) => {
                items.push(StreamItem::Fault(xml_error_message(&e)));
                return items;
            },
        }
    }
}

/// Read a feed document and extract its episode records.
///
/// The text is tokenized by the XML crate and the resulting stream is
/// handed to [`extract`]: a document whose stream carries no fault yields
/// exactly the records of its events, one per completed `item` boundary;
/// a document on which the tokenizer fails yields that first failure
/// alone, and no records.
pub fn read_podcast_from_xml(text: &str) -> (r: Result<Vec<Podcast>, ExtractionError>)
    ensures
        match first_fault(tokens_of(text@)) {
            Some(m) => r matches Err(e) && e@ == m,
            None => r matches Ok(ps) && podcasts_view(ps@) == extract_spec(
                stream_events(tokens_of(text@)),
            ),
        },
{
    let items = tokenize(text);
    extract(&items)
}

} // verus!
