//! Scenario tests for the extraction machine on hand-built event streams.

use podcast_feed::event::{Attr, Event, StreamItem};
use podcast_feed::extractor::{extract, extract_events, Extractor};
use podcast_feed::podcast::Podcast;

fn open(name: &str) -> Event {
    Event::Open { name: name.to_string(), attrs: Vec::new() }
}

fn open_with(name: &str, attrs: &[(&str, &str)]) -> Event {
    Event::Open {
        name: name.to_string(),
        attrs: attrs
            .iter()
            .map(|(n, v)| Attr { name: n.to_string(), value: v.to_string() })
            .collect(),
    }
}

fn close(name: &str) -> Event {
    Event::Close { name: name.to_string() }
}

fn text(content: &str) -> Event {
    Event::Text { content: content.to_string() }
}

fn one_full_item() -> Vec<Event> {
    vec![
        open("item"),
        open("title"),
        text("Episode 1"),
        close("title"),
        open("description"),
        text("Desc"),
        close("description"),
        open_with("enclosure", &[("url", "http://x/a.mp3")]),
        close("enclosure"),
        close("item"),
    ]
}

fn assert_record(p: &Podcast, title: &str, description: &str, audio: Option<&str>) {
    assert_eq!(p.title, title);
    assert_eq!(p.description, description);
    assert_eq!(p.audio_file.as_deref(), audio);
}

#[test]
fn one_item_full_fields() {
    let records = extract_events(&one_full_item());
    assert_eq!(records.len(), 1);
    assert_record(&records[0], "Episode 1", "Desc", Some("http://x/a.mp3"));
}

#[test]
fn two_items_second_missing_description() {
    let mut events = one_full_item();
    events.push(open("item"));
    events.push(open("title"));
    events.push(text("Episode 2"));
    events.push(close("title"));
    events.push(open_with("enclosure", &[("url", "http://x/b.mp3")]));
    events.push(close("enclosure"));
    events.push(close("item"));
    let records = extract_events(&events);
    assert_eq!(records.len(), 2);
    assert_record(&records[0], "Episode 1", "Desc", Some("http://x/a.mp3"));
    assert_record(&records[1], "Episode 2", "", Some("http://x/b.mp3"));
}

#[test]
fn record_count_three_items() {
    let mut events = Vec::new();
    for n in ["a", "b", "c"] {
        events.push(open("item"));
        events.push(open("title"));
        events.push(text(n));
        events.push(close("title"));
        events.push(close("item"));
    }
    let records = extract_events(&events);
    assert_eq!(records.len(), 3);
    assert_eq!(records[0].title, "a");
    assert_eq!(records[1].title, "b");
    assert_eq!(records[2].title, "c");
}

#[test]
fn unclosed_item_not_emitted() {
    let events = vec![open("item"), open("title"), text("Lost"), close("title")];
    let records = extract_events(&events);
    assert_eq!(records.len(), 0);
}

#[test]
fn missing_title_defaults_empty() {
    let events = vec![
        open("item"),
        open("description"),
        text("only a description"),
        close("description"),
        close("item"),
    ];
    let records = extract_events(&events);
    assert_eq!(records.len(), 1);
    assert_record(&records[0], "", "only a description", None);
}

#[test]
fn empty_title_element_defaults_empty() {
    let events = vec![
        open("item"),
        open("title"),
        close("title"),
        open("description"),
        text("D"),
        close("description"),
        close("item"),
    ];
    let records = extract_events(&events);
    assert_eq!(records.len(), 1);
    assert_record(&records[0], "", "D", None);
}

#[test]
fn empty_description_element_defaults_empty() {
    let events = vec![
        open("item"),
        open("title"),
        text("T"),
        close("title"),
        open("description"),
        close("description"),
        close("item"),
    ];
    let records = extract_events(&events);
    assert_eq!(records.len(), 1);
    assert_record(&records[0], "T", "", None);
}

#[test]
fn missing_description_defaults_empty() {
    let events = vec![open("item"), open("title"), text("T"), close("title"), close("item")];
    let records = extract_events(&events);
    assert_eq!(records.len(), 1);
    assert_record(&records[0], "T", "", None);
}

#[test]
fn enclosure_url_among_other_attributes() {
    let events = vec![
        open("item"),
        open_with("enclosure", &[("other", "x"), ("url", "U"), ("length", "123")]),
        close("enclosure"),
        close("item"),
    ];
    let records = extract_events(&events);
    assert_eq!(records.len(), 1);
    assert_record(&records[0], "", "", Some("U"));
}

#[test]
fn enclosure_first_url_wins() {
    let events = vec![
        open("item"),
        open_with("enclosure", &[("url", "first"), ("url", "second")]),
        close("enclosure"),
        close("item"),
    ];
    let records = extract_events(&events);
    assert_eq!(records[0].audio_file.as_deref(), Some("first"));
}

#[test]
fn enclosure_without_url_leaves_audio_none() {
    let events = vec![
        open("item"),
        open_with("enclosure", &[("type", "audio/mpeg")]),
        close("enclosure"),
        close("item"),
    ];
    let records = extract_events(&events);
    assert_eq!(records.len(), 1);
    assert_eq!(records[0].audio_file, None);
}

#[test]
fn stray_text_ignored() {
    let events = vec![open("item"), text("stray"), close("item")];
    let records = extract_events(&events);
    assert_eq!(records.len(), 1);
    assert_record(&records[0], "", "", None);
}

#[test]
fn second_text_before_close_dropped() {
    let events = vec![
        open("item"),
        open("title"),
        text("kept"),
        text("dropped"),
        close("title"),
        close("item"),
    ];
    let records = extract_events(&events);
    assert_eq!(records[0].title, "kept");
}

#[test]
fn unknown_tags_ignored() {
    let events = vec![
        open("rss"),
        open("channel"),
        open("link"),
        text("http://feed"),
        close("link"),
        open("item"),
        open("title"),
        text("T"),
        close("title"),
        close("item"),
        close("channel"),
        close("rss"),
    ];
    let records = extract_events(&events);
    assert_eq!(records.len(), 1);
    assert_record(&records[0], "T", "", None);
}

#[test]
fn nested_item_premature_finalization() {
    let events = vec![
        open("item"),
        open("item"),
        open("title"),
        text("inner"),
        close("title"),
        close("item"),
        close("item"),
    ];
    let records = extract_events(&events);
    assert_eq!(records.len(), 2);
    assert_eq!(records[0].title, "inner");
    assert_eq!(records[1].title, "");
}

#[test]
fn idempotent_same_input_same_output() {
    let first = extract_events(&one_full_item());
    let second = extract_events(&one_full_item());
    assert_eq!(first.len(), second.len());
    for (a, b) in first.iter().zip(second.iter()) {
        assert_eq!(a.title, b.title);
        assert_eq!(a.description, b.description);
        assert_eq!(a.audio_file, b.audio_file);
    }
}

#[test]
fn extractor_streaming_feed() {
    let mut ex = Extractor::new();
    for e in &one_full_item() {
        ex.feed(e);
    }
    let records = ex.finish();
    assert_eq!(records.len(), 1);
    assert_record(&records[0], "Episode 1", "Desc", Some("http://x/a.mp3"));
}

#[test]
fn fault_free_stream_matches_events() {
    let events = one_full_item();
    let stream: Vec<StreamItem> = one_full_item().into_iter().map(StreamItem::Event).collect();
    let from_stream = extract(&stream).expect("no fault in the stream");
    let from_events = extract_events(&events);
    assert_eq!(from_stream.len(), from_events.len());
    for (a, b) in from_stream.iter().zip(from_events.iter()) {
        assert_eq!(a.title, b.title);
        assert_eq!(a.description, b.description);
        assert_eq!(a.audio_file, b.audio_file);
    }
}

#[test]
fn upstream_fault_all_or_nothing() {
    let mut stream: Vec<StreamItem> =
        one_full_item().into_iter().map(StreamItem::Event).collect();
    stream.push(StreamItem::Fault("boom".to_string()));
    match extract(&stream) {
        Ok(_) => panic!("a faulted stream must not yield records"),
        Err(e) => assert_eq!(e.message().as_str(), "boom"),
    }
}

#[test]
fn first_fault_reported() {
    let stream = vec![
        StreamItem::Fault("first".to_string()),
        StreamItem::Fault("second".to_string()),
    ];
    match extract(&stream) {
        Ok(_) => panic!("a faulted stream must not yield records"),
        Err(e) => assert_eq!(e.message().as_str(), "first"),
    }
}

#[test]
fn empty_input_yields_nothing() {
    let records = extract_events(&Vec::new());
    assert_eq!(records.len(), 0);
    let from_stream = extract(&Vec::new()).expect("an empty stream has no fault");
    assert_eq!(from_stream.len(), 0);
}
