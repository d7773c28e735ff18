//! The single-pass extraction state machine.
//!
//! The machine reads one event at a time. A cursor remembers which text
//! field the next character data belongs to, an in-progress record gathers
//! the fields, and every closing `item` tag moves the record to the output
//! and starts a fresh one. The spec functions [`step`] and [`run`] are the
//! machine's mathematical definition; the executable [`Extractor`] is
//! proved to follow them exactly.

use vstd::prelude::*;

use crate::event::{
    attrs_view, events_view, items_view, Attr, AttrView, Event, EventView, StreamItem,
    StreamItemView,
};
use crate::podcast::{podcasts_view, Podcast, PodcastView};

verus! {

/// The cursor: which text field, if any, the next character-data event
/// should be written into. At most one expectation is active at a time,
/// and it is cleared by the very next character-data event.
#[derive(Clone, Copy)]
pub enum ParseState {
    /// No expectation: character data is ignored.
    Start,
    /// A `title` tag has opened: the next character data is the title.
    InTitle,
    /// A `description` tag has opened: the next character data is the
    /// description.
    InDescription,
}

/// The whole machine state, as a mathematical value: the cursor, the
/// in-progress record, and the records finalized so far, in document order.
#[verifier::ext_equal]
pub struct StateView {
    pub cursor: ParseState,
    pub current: PodcastView,
    pub out: Seq<PodcastView>,
}

/// The state the machine starts from: neutral cursor, fresh record, no
/// output.
pub open spec fn init_state() -> StateView {
    StateView { cursor: ParseState::Start, current: PodcastView::empty(), out: Seq::empty() }
}

/// The value of the first attribute named `url`, if any: later duplicates
/// are ignored.
pub open spec fn find_url(attrs: Seq<AttrView>) -> Option<Seq<char>>
    decreases attrs.len(),
{
    if attrs.len() == 0 {
        None
    } else if attrs[0].name == "url"@ {
        Some(attrs[0].value)
    } else {
        find_url(attrs.drop_first())
    }
}

/// What one event does to the machine state.
///
/// An opening `title` or `description` tag arms the cursor; an opening
/// `enclosure` tag takes the first `url` attribute as the audio address,
/// and leaves the record untouched when there is none; character data
/// lands in the field the cursor points at, if any, and disarms it; a
/// closing `item` tag finalizes the in-progress record; every other event
/// changes nothing.
pub open spec fn step(s: StateView, e: EventView) -> StateView {
    match e {
        EventView::Open { name, attrs } => {
            if name == "title"@ {
                StateView { cursor: ParseState::InTitle, current: s.current, out: s.out }
            } else if name == "description"@ {
                StateView { cursor: ParseState::InDescription, current: s.current, out: s.out }
            } else if name == "enclosure"@ {
                match find_url(attrs) {
                    Some(u) => StateView {
                        cursor: s.cursor,
                        current: PodcastView {
                            title: s.current.title,
                            description: s.current.description,
                            audio_file: Some(u),
                        },
                        out: s.out,
                    },
                    None => s,
                }
            } else {
                s
            }
        },
        EventView::Text { content } => match s.cursor {
            ParseState::InTitle => StateView {
                cursor: ParseState::Start,
                current: PodcastView {
                    title: content,
                    description: s.current.description,
                    audio_file: s.current.audio_file,
                },
                out: s.out,
            },
            ParseState::InDescription => StateView {
                cursor: ParseState::Start,
                current: PodcastView {
                    title: s.current.title,
                    description: content,
                    audio_file: s.current.audio_file,
                },
                out: s.out,
            },
            ParseState::Start => s,
        },
        EventView::Close { name } => {
            if name == "item"@ {
                StateView {
                    cursor: ParseState::Start,
                    current: PodcastView::empty(),
                    out: s.out.push(s.current),
                }
            } else {
                s
            }
        },
        EventView::Other => s,
    }
}

/// The machine state after a whole event sequence, one [`step`] per event.
pub open spec fn run(s: StateView, events: Seq<EventView>) -> StateView
    decreases events.len(),
{
    if events.len() == 0 {
        s
    } else {
        run(step(s, events[0]), events.drop_first())
    }
}

/// The records a whole event sequence extracts, in document order of their
/// closing `item` boundaries.
pub open spec fn extract_spec(events: Seq<EventView>) -> Seq<PodcastView> {
    run(init_state(), events).out
}

/// Running one more event at the end is one more step.
pub proof fn lemma_run_snoc(s: StateView, events: Seq<EventView>, e: EventView)
    ensures
        run(s, events.push(e)) == step(run(s, events), e),
    decreases events.len(),
{
    reveal_with_fuel(run, 3);
    if events.len() == 0 {
        assert(events.push(e)[0] == e);
        assert(events.push(e).drop_first() =~= Seq::<EventView>::empty());
    } else {
        assert(events.push(e)[0] == events[0]);
        assert(events.push(e).drop_first() =~= events.drop_first().push(e));
        lemma_run_snoc(step(s, events[0]), events.drop_first(), e);
    }
}

/// Running a concatenation is running the two halves in turn.
pub proof fn lemma_run_append(s: StateView, a: Seq<EventView>, b: Seq<EventView>)
    ensures
        run(s, a + b) == run(run(s, a), b),
    decreases a.len(),
{
    if a.len() == 0 {
        assert(a + b =~= b);
    } else {
        assert((a + b).drop_first() =~= a.drop_first() + b);
        assert((a + b)[0] == a[0]);
        lemma_run_append(step(s, a[0]), a.drop_first(), b);
    }
}

/// The one error that crosses the extraction's boundary: the event source
/// failed (malformed document, I/O fault), and the whole extraction is
/// abandoned. Its value is the failure report.
#[derive(Debug)]
pub enum ExtractionError {
    UpstreamFailure(String),
}

impl View for ExtractionError {
    type V = Seq<char>;

    open spec fn view(&self) -> Seq<char> {
        match self {
            ExtractionError::UpstreamFailure(m) => m@,
        }
    }
}

impl ExtractionError {
    /// The report the event source gave.
    pub fn message(&self) -> (m: &String)
        ensures
            m@ == self@,
    {
        match self {
            ExtractionError::UpstreamFailure(m) => m,
        }
    }
}

/// The first failure report in the event source's output, if any.
pub open spec fn first_fault(items: Seq<StreamItemView>) -> Option<Seq<char>>
    decreases items.len(),
{
    if items.len() == 0 {
        None
    } else {
        match items[0] {
            StreamItemView::Fault(m) => Some(m),
            StreamItemView::Event(_) => first_fault(items.drop_first()),
        }
    }
}

/// The events of the source's output, in order.
pub open spec fn stream_events(items: Seq<StreamItemView>) -> Seq<EventView>
    decreases items.len(),
{
    if items.len() == 0 {
        Seq::empty()
    } else {
        match items[0] {
            StreamItemView::Event(e) => seq![e] + stream_events(items.drop_first()),
            StreamItemView::Fault(_) => stream_events(items.drop_first()),
        }
    }
}

/// One more item at the end of a stream either keeps the first fault or,
/// on a fault-free stream, becomes the first.
pub proof fn lemma_first_fault_snoc(items: Seq<StreamItemView>, x: StreamItemView)
    ensures
        first_fault(items.push(x)) == (match first_fault(items) {
            Some(m) => Some(m),
            None => match x {
                StreamItemView::Fault(m) => Some(m),
                StreamItemView::Event(_) => None,
            },
        }),
    decreases items.len(),
{
    reveal_with_fuel(first_fault, 3);
    if items.len() == 0 {
        assert(items.push(x)[0] == x);
        assert(items.push(x).drop_first() =~= Seq::<StreamItemView>::empty());
    } else {
        assert(items.push(x)[0] == items[0]);
        assert(items.push(x).drop_first() =~= items.drop_first().push(x));
        lemma_first_fault_snoc(items.drop_first(), x);
    }
}

/// The first fault of a concatenation: the left half's, or else the right
/// half's.
pub proof fn lemma_first_fault_append(a: Seq<StreamItemView>, b: Seq<StreamItemView>)
    ensures
        first_fault(a + b) == (match first_fault(a) {
            Some(m) => Some(m),
            None => first_fault(b),
        }),
    decreases a.len(),
{
    if a.len() == 0 {
        assert(a + b =~= b);
    } else {
        assert((a + b)[0] == a[0]);
        assert((a + b).drop_first() =~= a.drop_first() + b);
        lemma_first_fault_append(a.drop_first(), b);
    }
}

/// One more event item at the end of a stream is one more event.
pub proof fn lemma_stream_events_snoc(items: Seq<StreamItemView>, x: StreamItemView)
    ensures
        stream_events(items.push(x)) == (match x {
            StreamItemView::Event(e) => stream_events(items).push(e),
            StreamItemView::Fault(_) => stream_events(items),
        }),
    decreases items.len(),
{
    reveal_with_fuel(stream_events, 3);
    if items.len() == 0 {
        assert(items.push(x)[0] == x);
        assert(items.push(x).drop_first() =~= Seq::<StreamItemView>::empty());
        match x {
            StreamItemView::Event(e) => {
                assert(seq![e] + Seq::<EventView>::empty() =~= Seq::<EventView>::empty().push(e));
            },
            StreamItemView::Fault(_) => {},
        }
    } else {
        assert(items.push(x)[0] == items[0]);
        assert(items.push(x).drop_first() =~= items.drop_first().push(x));
        lemma_stream_events_snoc(items.drop_first(), x);
        match x {
            StreamItemView::Event(e) => {
                match items[0] {
                    StreamItemView::Event(e0) => {
                        assert(seq![e0] + stream_events(items.drop_first()).push(e) =~= (seq![e0]
                            + stream_events(items.drop_first())).push(e));
                    },
                    StreamItemView::Fault(_) => {},
                }
            },
            StreamItemView::Fault(_) => {},
        }
    }
}

/// Exact equality of two text slices, stated over their character
/// sequences.
fn str_eq(a: &str, b: &str) -> (r: bool)
    ensures
        r == (a@ == b@),
{
    let sa: String = a.to_owned();
    let sb: String = b.to_owned();
    sa == sb
}

/// The first attribute named `url`, as [`find_url`] defines it.
fn find_url_exec(attrs: &Vec<Attr>) -> (r: Option<String>)
    ensures
        match r {
            Some(u) => find_url(attrs_view(attrs@)) == Some(u@),
            None => find_url(attrs_view(attrs@)) == None::<Seq<char>>,
        },
{
    let ghost av = attrs_view(attrs@);
    proof {
        assert(av.skip(0) =~= av);
    }
    let n = attrs.len();
    let mut j: usize = 0;
    while j < n
        invariant
            j <= n,
            n == attrs.len(),
            av == attrs_view(attrs@),
            find_url(av) == find_url(av.skip(j as int)),
        decreases n - j,
    {
        proof {
            assert(av.skip(j as int)[0] == av[j as int]);
        }
        if str_eq(attrs[j].name.as_str(), "url") {
            return Some(attrs[j].value.clone());
        }
        proof {
            assert(av.skip(j as int).drop_first() =~= av.skip(j as int + 1));
        }
        j += 1;
    }
    proof {
        assert(av.skip(n as int) =~= Seq::<AttrView>::empty());
    }
    None
}

/// The executable extraction machine: the cursor, the in-progress record,
/// and the records finalized so far. Its value is a [`StateView`], and
/// every operation is proved to follow the spec machine.
pub struct Extractor {
    cursor: ParseState,
    current: Podcast,
    out: Vec<Podcast>,
}

impl View for Extractor {
    type V = StateView;

    closed spec fn view(&self) -> StateView {
        StateView { cursor: self.cursor, current: self.current@, out: podcasts_view(self.out@) }
    }
}

impl Extractor {
    /// A machine in its initial state.
    pub fn new() -> (r: Extractor)
        ensures
            r@ == init_state(),
    {
        let r = Extractor { cursor: ParseState::Start, current: Podcast::new(), out: Vec::new() };
        proof {
            assert(r@ =~= init_state());
        }
        r
    }

    /// Consume one event: exactly one [`step`] of the spec machine.
    pub fn feed(&mut self, e: &Event)
        ensures
            final(self)@ == step(old(self)@, e@),
    {
        match e {
            Event::Open { name, attrs } => {
                if str_eq(name.as_str(), "title") {
                    self.cursor = ParseState::InTitle;
                } else if str_eq(name.as_str(), "description") {
                    self.cursor = ParseState::InDescription;
                } else if str_eq(name.as_str(), "enclosure") {
                    match find_url_exec(attrs) {
                        Some(u) => {
                            self.current.audio_file = Some(u);
                        },
                        None => {},
                    }
                }
            },
            Event::Text { content } => {
                match self.cursor {
                    ParseState::InTitle => {
                        self.current.title = content.clone();
                        self.cursor = ParseState::Start;
                    },
                    ParseState::InDescription => {
                        self.current.description = content.clone();
                        self.cursor = ParseState::Start;
                    },
                    ParseState::Start => {},
                }
            },
            Event::Close { name } => {
                if str_eq(name.as_str(), "item") {
                    let mut done = Podcast::new();
                    core::mem::swap(&mut done, &mut self.current);
                    self.out.push(done);
                    self.cursor = ParseState::Start;
                    proof {
                        assert(podcasts_view(self.out@) =~= podcasts_view(old(self).out@).push(
                            old(self).current@,
                        ));
                    }
                }
            },
            Event::Other => {},
        }
        proof {
            assert(self@ =~= step(old(self)@, e@));
        }
    }

    /// Hand out the finalized records; the in-progress record, never closed
    /// by an `item` boundary, is discarded.
    pub fn finish(self) -> (r: Vec<Podcast>)
        ensures
            podcasts_view(r@) == self@.out,
    {
        self.out
    }
}

/// Extract the episode records from a complete event sequence.
///
/// The result is exactly what the spec machine computes: one record per
/// closing `item` boundary, in document order, each field carrying the
/// last matching text seen for it, or its default.
pub fn extract_events(events: &Vec<Event>) -> (r: Vec<Podcast>)
    ensures
        podcasts_view(r@) == extract_spec(events_view(events@)),
{
    let ghost evs = events_view(events@);
    let mut ex = Extractor::new();
    let n = events.len();
    let mut i: usize = 0;
    while i < n
        invariant
            i <= n,
            n == events.len(),
            evs == events_view(events@),
            ex@ == run(init_state(), evs.take(i as int)),
        decreases n - i,
    {
        ex.feed(&events[i]);
        proof {
            assert(evs.take(i as int + 1) =~= evs.take(i as int).push(evs[i as int]));
            lemma_run_snoc(init_state(), evs.take(i as int), evs[i as int]);
        }
        i += 1;
    }
    proof {
        assert(evs.take(n as int) =~= evs);
    }
    ex.finish()
}

/// Extract the episode records from the event source's output.
///
/// The result is all-or-nothing. A stream without faults yields `Ok` with
/// exactly the records of its events, one per closing `item` boundary, in
/// document order. A stream with a fault yields `Err` carrying the first
/// failure report, and no records — not even those finalized before the
/// failure.
pub fn extract(stream: &Vec<StreamItem>) -> (r: Result<Vec<Podcast>, ExtractionError>)
    ensures
        match first_fault(items_view(stream@)) {
            Some(m) => r matches Err(e) && e@ == m,
            None => r matches Ok(ps) && podcasts_view(ps@) == extract_spec(
                stream_events(items_view(stream@)),
            ),
        },
{
    let ghost iv = items_view(stream@);
    let mut ex = Extractor::new();
    let n = stream.len();
    let mut i: usize = 0;
    while i < n
        invariant
            i <= n,
            n == stream.len(),
            iv == items_view(stream@),
            first_fault(iv.take(i as int)) == None::<Seq<char>>,
            ex@ == run(init_state(), stream_events(iv.take(i as int))),
        decreases n - i,
    {
        proof {
            assert(iv[i as int] == stream@[i as int]@);
        }
        match &stream[i] {
            StreamItem::Fault(m) => {
                proof {
                    assert(iv =~= iv.take(i as int) + iv.skip(i as int));
                    lemma_first_fault_append(iv.take(i as int), iv.skip(i as int));
                    assert(iv.skip(i as int)[0] == iv[i as int]);
                }
                return Err(ExtractionError::UpstreamFailure(m.clone()));
            },
            StreamItem::Event(e) => {
                ex.feed(e);
                proof {
                    assert(iv.take(i as int + 1) =~= iv.take(i as int).push(iv[i as int]));
                    lemma_first_fault_snoc(iv.take(i as int), iv[i as int]);
                    lemma_stream_events_snoc(iv.take(i as int), iv[i as int]);
                    lemma_run_snoc(init_state(), stream_events(iv.take(i as int)), e@);
                }
            },
        }
        i += 1;
    }
    proof {
        assert(iv.take(n as int) =~= iv);
    }
    Ok(ex.finish())
}

} // verus!
