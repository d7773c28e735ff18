//! End-to-end tests: a feed document goes through the real XML tokenizer
//! and the verified extraction.

use podcast_feed::feed::read_podcast_from_xml;

#[test]
fn feed_with_cdata_content() {
    let doc = "<rss><channel>\
        <item>\
        <title><![CDATA[Episode 1]]></title>\
        <description><![CDATA[Desc]]></description>\
        <enclosure url=\"http://x/a.mp3\" type=\"audio/mpeg\"/>\
        </item>\
        </channel></rss>";
    let records = read_podcast_from_xml(doc).expect("well-formed document");
    assert_eq!(records.len(), 1);
    assert_eq!(records[0].title, "Episode 1");
    assert_eq!(records[0].description, "Desc");
    assert_eq!(records[0].audio_file.as_deref(), Some("http://x/a.mp3"));
}

#[test]
fn feed_with_plain_text_content() {
    let doc = "<rss><channel>\
        <item><title>First</title><description>One</description></item>\
        <item><title>Second</title>\
        <enclosure url=\"http://x/b.mp3\"/>\
        </item>\
        </channel></rss>";
    let records = read_podcast_from_xml(doc).expect("well-formed document");
    assert_eq!(records.len(), 2);
    assert_eq!(records[0].title, "First");
    assert_eq!(records[0].description, "One");
    assert_eq!(records[0].audio_file, None);
    assert_eq!(records[1].title, "Second");
    assert_eq!(records[1].description, "");
    assert_eq!(records[1].audio_file.as_deref(), Some("http://x/b.mp3"));
}

#[test]
fn namespaced_tag_matches_by_local_name() {
    let doc = "<rss xmlns:media=\"http://example.org/media\"><channel>\
        <item><media:title>Prefixed</media:title></item>\
        </channel></rss>";
    let records = read_podcast_from_xml(doc).expect("well-formed document");
    assert_eq!(records.len(), 1);
    assert_eq!(records[0].title, "Prefixed");
}

#[test]
fn channel_title_bleeds_into_first_item_policy() {
    // The machine keys on local names alone, so a channel-level title
    // lands in the in-progress record; it is emitted only if an item
    // boundary later closes, and the item's own title overwrites it.
    let doc = "<rss><channel><title>Feed title</title>\
        <item><title>Own</title></item>\
        </channel></rss>";
    let records = read_podcast_from_xml(doc).expect("well-formed document");
    assert_eq!(records.len(), 1);
    assert_eq!(records[0].title, "Own");
}

#[test]
fn empty_title_element_keeps_default() {
    let doc = "<rss><channel>\
        <item><title></title><description>D</description></item>\
        </channel></rss>";
    let records = read_podcast_from_xml(doc).expect("well-formed document");
    assert_eq!(records.len(), 1);
    assert_eq!(records[0].title, "");
    assert_eq!(records[0].description, "D");
}

#[test]
fn malformed_document_reports_failure() {
    let doc = "<rss><item><title>Broken";
    let err = read_podcast_from_xml(doc).expect_err("truncated document");
    assert!(!err.message().is_empty());
}

#[test]
fn malformed_document_drops_finalized_records() {
    // All-or-nothing: the first item is complete, but the document fails
    // afterwards, so no records come back at all.
    let doc = "<rss><channel><item><title>Done</title></item><item></oops>";
    assert!(read_podcast_from_xml(doc).is_err());
}

#[test]
fn empty_document_reports_failure() {
    assert!(read_podcast_from_xml("").is_err());
}
