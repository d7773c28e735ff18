//! The laws of the extraction, stated and proved over the spec machine.

use vstd::prelude::*;

use crate::event::{AttrView, EventView};
use crate::extractor::{extract_spec, find_url, init_state, lemma_run_append, run, step, ParseState, StateView};
use crate::podcast::PodcastView;

verus! {

/// How many closing `item` boundaries an event sequence holds.
pub open spec fn count_item_closes(events: Seq<EventView>) -> nat
    decreases events.len(),
{
    if events.len() == 0 {
        0
    } else {
        (match events[0] {
            EventView::Close { name } => if name == "item"@ {
                1nat
            } else {
                0nat
            },
            _ => 0nat,
        }) + count_item_closes(events.drop_first())
    }
}

/// Every step keeps the output, except a closing `item` boundary, which
/// lengthens it by one.
pub proof fn lemma_run_count(s: StateView, events: Seq<EventView>)
    ensures
        run(s, events).out.len() == s.out.len() + count_item_closes(events),
    decreases events.len(),
{
    if events.len() != 0 {
        lemma_run_count(step(s, events[0]), events.drop_first());
    }
}

/// An input with N complete `item` boundaries yields exactly N records:
/// one per closing boundary, no more and no fewer.
pub proof fn lemma_record_count(events: Seq<EventView>)
    ensures
        extract_spec(events).len() == count_item_closes(events),
{
    lemma_run_count(init_state(), events);
}

/// An item left unclosed at the end of the stream is never emitted: an
/// input without a closing `item` boundary yields no record at all.
pub proof fn lemma_unclosed_item_not_emitted(events: Seq<EventView>)
    requires
        count_item_closes(events) == 0,
    ensures
        extract_spec(events) == Seq::<PodcastView>::empty(),
{
    lemma_record_count(events);
    assert(extract_spec(events) =~= Seq::<PodcastView>::empty());
}

/// The extraction is a function of the event sequence alone: re-running it
/// on the same events yields an identical output sequence.
pub proof fn lemma_extract_idempotent(first: Seq<EventView>, second: Seq<EventView>)
    requires
        first == second,
    ensures
        extract_spec(first) == extract_spec(second),
{
}

/// An attribute list whose first attribute is named `url` yields that
/// attribute's value: the first match wins.
pub proof fn lemma_find_url_first(attrs: Seq<AttrView>)
    requires
        attrs.len() > 0,
        attrs[0].name == "url"@,
    ensures
        find_url(attrs) == Some(attrs[0].value),
{
}

/// An attribute list without a `url` attribute yields nothing.
pub proof fn lemma_find_url_absent(attrs: Seq<AttrView>)
    requires
        forall|j: int| 0 <= j < attrs.len() ==> attrs[j].name != "url"@,
    ensures
        find_url(attrs) == None::<Seq<char>>,
    decreases attrs.len(),
{
    if attrs.len() != 0 {
        lemma_find_url_absent(attrs.drop_first());
    }
}

/// One text-bearing part of an item: no such element at all, an element
/// that opens and closes without a text node, or an element around one
/// text node.
pub enum TextPart {
    Absent,
    EmptyElement,
    Text(Seq<char>),
}

/// The shape of one complete, well-formed item: its title part, its
/// description part, and optionally an `enclosure` tag with its
/// attributes.
pub struct ItemShape {
    pub title: TextPart,
    pub description: TextPart,
    pub enclosure: Option<Seq<AttrView>>,
}

/// The text a part puts into its field: its text node, or the empty
/// default where there is none.
pub open spec fn part_text(part: TextPart) -> Seq<char> {
    match part {
        TextPart::Text(t) => t,
        TextPart::EmptyElement => Seq::empty(),
        TextPart::Absent => Seq::empty(),
    }
}

/// The events of the item's title part.
pub open spec fn title_part(title: TextPart) -> Seq<EventView> {
    match title {
        TextPart::Text(t) => seq![
            EventView::Open { name: "title"@, attrs: Seq::empty() },
            EventView::Text { content: t },
            EventView::Close { name: "title"@ },
        ],
        TextPart::EmptyElement => seq![
            EventView::Open { name: "title"@, attrs: Seq::empty() },
            EventView::Close { name: "title"@ },
        ],
        TextPart::Absent => Seq::empty(),
    }
}

/// The events of the item's description part.
pub open spec fn description_part(description: TextPart) -> Seq<EventView> {
    match description {
        TextPart::Text(d) => seq![
            EventView::Open { name: "description"@, attrs: Seq::empty() },
            EventView::Text { content: d },
            EventView::Close { name: "description"@ },
        ],
        TextPart::EmptyElement => seq![
            EventView::Open { name: "description"@, attrs: Seq::empty() },
            EventView::Close { name: "description"@ },
        ],
        TextPart::Absent => Seq::empty(),
    }
}

/// The events of the item's enclosure part: nothing, or an opened and
/// closed `enclosure` tag carrying the attributes.
pub open spec fn enclosure_part(enclosure: Option<Seq<AttrView>>) -> Seq<EventView> {
    match enclosure {
        Some(a) => seq![
            EventView::Open { name: "enclosure"@, attrs: a },
            EventView::Close { name: "enclosure"@ },
        ],
        None => Seq::empty(),
    }
}

/// The complete event sequence of one well-formed item.
pub open spec fn item_events(it: ItemShape) -> Seq<EventView> {
    seq![EventView::Open { name: "item"@, attrs: Seq::empty() }] + title_part(it.title)
        + description_part(it.description) + enclosure_part(it.enclosure) + seq![
        EventView::Close { name: "item"@ },
    ]
}

/// The record a well-formed item denotes: its texts, or the empty default
/// where a part is missing, and the first `url` attribute of its
/// enclosure, if it has one.
pub open spec fn item_record(it: ItemShape) -> PodcastView {
    PodcastView {
        title: part_text(it.title),
        description: part_text(it.description),
        audio_file: match it.enclosure {
            Some(a) => find_url(a),
            None => None,
        },
    }
}

/// The events of a whole well-formed feed: its items' events, back to
/// back.
pub open spec fn feed_events(items: Seq<ItemShape>) -> Seq<EventView>
    decreases items.len(),
{
    if items.len() == 0 {
        Seq::empty()
    } else {
        item_events(items[0]) + feed_events(items.drop_first())
    }
}

/// Running a single event is a single step.
proof fn lemma_run_single(s: StateView, e: EventView)
    ensures
        run(s, seq![e]) == step(s, e),
{
    reveal_with_fuel(run, 2);
    assert(seq![e].drop_first() =~= Seq::<EventView>::empty());
}

/// Running two events is two steps.
proof fn lemma_run_pair(s: StateView, a: EventView, b: EventView)
    ensures
        run(s, seq![a, b]) == step(step(s, a), b),
{
    assert(seq![a, b] =~= seq![a] + seq![b]);
    lemma_run_append(s, seq![a], seq![b]);
    lemma_run_single(s, a);
    lemma_run_single(step(s, a), b);
}

/// Running three events is three steps.
proof fn lemma_run_three(s: StateView, a: EventView, b: EventView, c: EventView)
    ensures
        run(s, seq![a, b, c]) == step(step(step(s, a), b), c),
{
    assert(seq![a, b, c] =~= seq![a] + seq![b] + seq![c]);
    lemma_run_append(s, seq![a] + seq![b], seq![c]);
    lemma_run_append(s, seq![a], seq![b]);
    lemma_run_single(s, a);
    lemma_run_single(step(s, a), b);
    lemma_run_single(step(step(s, a), b), c);
}

/// The distinct tag names the machine inspects.
proof fn lemma_tag_names_distinct()
    ensures
        "item"@ != "title"@,
        "item"@ != "description"@,
        "item"@ != "enclosure"@,
        "title"@ != "description"@,
        "title"@ != "enclosure"@,
        "description"@ != "enclosure"@,
{
    reveal_strlit("item");
    reveal_strlit("title");
    reveal_strlit("description");
    reveal_strlit("enclosure");
    assert("item"@.len() == 4);
    assert("title"@.len() == 5);
    assert("description"@.len() == 11);
    assert("enclosure"@.len() == 9);
}

/// What the title part does: nothing; or arm the cursor and close the
/// empty element, touching no field; or set the title and leave the
/// cursor neutral again.
proof fn lemma_title_part(s: StateView, title: TextPart)
    ensures
        run(s, title_part(title)) == (match title {
            TextPart::Text(t) => StateView {
                cursor: ParseState::Start,
                current: PodcastView {
                    title: t,
                    description: s.current.description,
                    audio_file: s.current.audio_file,
                },
                out: s.out,
            },
            TextPart::EmptyElement => StateView {
                cursor: ParseState::InTitle,
                current: s.current,
                out: s.out,
            },
            TextPart::Absent => s,
        }),
{
    lemma_tag_names_distinct();
    match title {
        TextPart::Text(t) => {
            lemma_run_three(
                s,
                EventView::Open { name: "title"@, attrs: Seq::empty() },
                EventView::Text { content: t },
                EventView::Close { name: "title"@ },
            );
        },
        TextPart::EmptyElement => {
            lemma_run_pair(
                s,
                EventView::Open { name: "title"@, attrs: Seq::empty() },
                EventView::Close { name: "title"@ },
            );
        },
        TextPart::Absent => {},
    }
}

/// What the description part does.
proof fn lemma_description_part(s: StateView, description: TextPart)
    ensures
        run(s, description_part(description)) == (match description {
            TextPart::Text(d) => StateView {
                cursor: ParseState::Start,
                current: PodcastView {
                    title: s.current.title,
                    description: d,
                    audio_file: s.current.audio_file,
                },
                out: s.out,
            },
            TextPart::EmptyElement => StateView {
                cursor: ParseState::InDescription,
                current: s.current,
                out: s.out,
            },
            TextPart::Absent => s,
        }),
{
    lemma_tag_names_distinct();
    match description {
        TextPart::Text(d) => {
            lemma_run_three(
                s,
                EventView::Open { name: "description"@, attrs: Seq::empty() },
                EventView::Text { content: d },
                EventView::Close { name: "description"@ },
            );
        },
        TextPart::EmptyElement => {
            lemma_run_pair(
                s,
                EventView::Open { name: "description"@, attrs: Seq::empty() },
                EventView::Close { name: "description"@ },
            );
        },
        TextPart::Absent => {},
    }
}

/// What the enclosure part does: nothing, or write the first `url`
/// attribute's value — and where there is none, leave the record as it
/// was. The cursor is untouched either way.
proof fn lemma_enclosure_part(s: StateView, enclosure: Option<Seq<AttrView>>)
    ensures
        run(s, enclosure_part(enclosure)) == (match enclosure {
            Some(a) => StateView {
                cursor: s.cursor,
                current: PodcastView {
                    title: s.current.title,
                    description: s.current.description,
                    audio_file: match find_url(a) {
                        Some(u) => Some(u),
                        None => s.current.audio_file,
                    },
                },
                out: s.out,
            },
            None => s,
        }),
{
    lemma_tag_names_distinct();
    match enclosure {
        Some(a) => {
            assert(enclosure_part(enclosure) =~= seq![
                EventView::Open { name: "enclosure"@, attrs: a },
            ] + seq![EventView::Close { name: "enclosure"@ }]);
            lemma_run_append(
                s,
                seq![EventView::Open { name: "enclosure"@, attrs: a }],
                seq![EventView::Close { name: "enclosure"@ }],
            );
            lemma_run_single(s, EventView::Open { name: "enclosure"@, attrs: a });
            lemma_run_single(
                step(s, EventView::Open { name: "enclosure"@, attrs: a }),
                EventView::Close { name: "enclosure"@ },
            );
            assert(run(s, enclosure_part(enclosure)) =~= (match enclosure {
                Some(a2) => StateView {
                    cursor: s.cursor,
                    current: PodcastView {
                        title: s.current.title,
                        description: s.current.description,
                        audio_file: match find_url(a2) {
                            Some(u) => Some(u),
                            None => s.current.audio_file,
                        },
                    },
                    out: s.out,
                },
                None => s,
            }));
        },
        None => {},
    }
}

/// What one complete item does to a machine whose in-progress record is
/// fresh: it appends exactly the item's record to the output and leaves a
/// fresh record and a neutral cursor behind.
proof fn lemma_item_block(s: StateView, it: ItemShape)
    requires
        s.current == PodcastView::empty(),
    ensures
        run(s, item_events(it)) == (StateView {
            cursor: ParseState::Start,
            current: PodcastView::empty(),
            out: s.out.push(item_record(it)),
        }),
{
    lemma_tag_names_distinct();
    let open_item = seq![EventView::Open { name: "item"@, attrs: Seq::empty() }];
    let close_item = seq![EventView::Close { name: "item"@ }];
    let tp = title_part(it.title);
    let dp = description_part(it.description);
    let ep = enclosure_part(it.enclosure);
    lemma_run_append(s, open_item + tp + dp + ep, close_item);
    lemma_run_append(s, open_item + tp + dp, ep);
    lemma_run_append(s, open_item + tp, dp);
    lemma_run_append(s, open_item, tp);
    lemma_run_single(s, EventView::Open { name: "item"@, attrs: Seq::empty() });
    let s1 = run(s, open_item);
    lemma_title_part(s1, it.title);
    let s2 = run(s1, tp);
    lemma_description_part(s2, it.description);
    let s3 = run(s2, dp);
    lemma_enclosure_part(s3, it.enclosure);
    let s4 = run(s3, ep);
    lemma_run_single(s4, EventView::Close { name: "item"@ });
    assert(s4.current =~= item_record(it));
    assert(run(s, item_events(it)) =~= StateView {
        cursor: ParseState::Start,
        current: PodcastView::empty(),
        out: s.out.push(item_record(it)),
    });
}

/// What a whole well-formed feed does to a machine whose in-progress
/// record is fresh: it appends exactly the items' records, in order.
proof fn lemma_feed_run(s: StateView, items: Seq<ItemShape>)
    requires
        s.current == PodcastView::empty(),
    ensures
        run(s, feed_events(items)).out == s.out + items.map_values(
            |it: ItemShape| item_record(it),
        ),
        run(s, feed_events(items)).current == PodcastView::empty(),
    decreases items.len(),
{
    if items.len() == 0 {
        assert(s.out + items.map_values(|it: ItemShape| item_record(it)) =~= s.out);
    } else {
        lemma_run_append(s, item_events(items[0]), feed_events(items.drop_first()));
        lemma_item_block(s, items[0]);
        let s1 = run(s, item_events(items[0]));
        lemma_feed_run(s1, items.drop_first());
        assert(s.out + items.map_values(|it: ItemShape| item_record(it)) =~= s.out.push(
            item_record(items[0]),
        ) + items.drop_first().map_values(|it: ItemShape| item_record(it)));
    }
}

/// A well-formed feed of N complete items yields exactly its N records, in
/// document order: each title and description as written, or the empty
/// default where the part is missing, and each audio address from the
/// item's own enclosure — nothing bleeds from one item into the next.
pub proof fn lemma_well_formed_feed(items: Seq<ItemShape>)
    ensures
        extract_spec(feed_events(items)) == items.map_values(|it: ItemShape| item_record(it)),
{
    lemma_feed_run(init_state(), items);
    assert(Seq::<PodcastView>::empty() + items.map_values(|it: ItemShape| item_record(it))
        =~= items.map_values(|it: ItemShape| item_record(it)));
}

/// One well-formed item alone yields exactly its one record.
pub proof fn lemma_single_item(it: ItemShape)
    ensures
        extract_spec(item_events(it)) == seq![item_record(it)],
{
    lemma_well_formed_feed(seq![it]);
    reveal_with_fuel(feed_events, 2);
    assert(seq![it].drop_first() =~= Seq::<ItemShape>::empty());
    assert(feed_events(seq![it]) =~= item_events(it));
    assert(seq![it].map_values(|i: ItemShape| item_record(i)) =~= seq![item_record(it)]);
}

} // verus!
