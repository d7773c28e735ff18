//! The structural XML events that the extractor consumes.
//!
//! An upstream tokenizer turns raw markup into these events; the extractor
//! never sees angle brackets. Element and attribute names are
//! namespace-local: any prefix has already been stripped by the tokenizer.

use vstd::prelude::*;

verus! {

/// One attribute of an element-open event: a namespace-local name and a
/// value.
pub struct Attr {
    pub name: String,
    pub value: String,
}

/// The mathematical value of an [`Attr`].
#[verifier::ext_equal]
pub struct AttrView {
    pub name: Seq<char>,
    pub value: Seq<char>,
}

impl View for Attr {
    type V = AttrView;

    open spec fn view(&self) -> AttrView {
        AttrView { name: self.name@, value: self.value@ }
    }
}

/// The value of an attribute list, attribute by attribute.
pub open spec fn attrs_view(attrs: Seq<Attr>) -> Seq<AttrView> {
    attrs.map_values(|a: Attr| a@)
}

/// One structural XML event.
pub enum Event {
    /// An opening tag, with its attributes in document order.
    Open { name: String, attrs: Vec<Attr> },
    /// A closing tag.
    Close { name: String },
    /// Character data: a text or CDATA node, delivered atomically.
    Text { content: String },
    /// Anything else (processing instruction, comment, ...): ignored.
    Other,
}

/// The mathematical value of an [`Event`].
#[verifier::ext_equal]
pub enum EventView {
    Open { name: Seq<char>, attrs: Seq<AttrView> },
    Close { name: Seq<char> },
    Text { content: Seq<char> },
    Other,
}

impl View for Event {
    type V = EventView;

    open spec fn view(&self) -> EventView {
        match self {
            Event::Open { name, attrs } => EventView::Open {
                name: name@,
                attrs: attrs_view(attrs@),
            },
            Event::Close { name } => EventView::Close { name: name@ },
            Event::Text { content } => EventView::Text { content: content@ },
            Event::Other => EventView::Other,
        }
    }
}

/// The value of an event sequence, event by event.
pub open spec fn events_view(events: Seq<Event>) -> Seq<EventView> {
    events.map_values(|e: Event| e@)
}

/// One element of the event source's output: a structural event, or the
/// report of an upstream failure (malformed document, I/O fault). After a
/// failure the source yields nothing further.
pub enum StreamItem {
    Event(Event),
    Fault(String),
}

/// The mathematical value of a [`StreamItem`].
#[verifier::ext_equal]
pub enum StreamItemView {
    Event(EventView),
    Fault(Seq<char>),
}

impl View for StreamItem {
    type V = StreamItemView;

    open spec fn view(&self) -> StreamItemView {
        match self {
            StreamItem::Event(e) => StreamItemView::Event(e@),
            StreamItem::Fault(m) => StreamItemView::Fault(m@),
        }
    }
}

/// The value of a stream, item by item.
pub open spec fn items_view(items: Seq<StreamItem>) -> Seq<StreamItemView> {
    items.map_values(|it: StreamItem| it@)
}

} // verus!
