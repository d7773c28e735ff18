//! The episode record that the extraction produces.

use vstd::prelude::*;

verus! {

/// One episode of the feed: the data gathered between an `<item>` boundary
/// opening and closing. Missing fields keep their defaults: empty text for
/// the title and the description, no audio enclosure.
#[derive(Debug)]
pub struct Podcast {
    pub title: String,
    pub description: String,
    pub audio_file: Option<String>,
}

/// The mathematical value of a [`Podcast`]: its text fields as sequences of
/// characters.
#[verifier::ext_equal]
pub struct PodcastView {
    pub title: Seq<char>,
    pub description: Seq<char>,
    pub audio_file: Option<Seq<char>>,
}

impl View for Podcast {
    type V = PodcastView;

    open spec fn view(&self) -> PodcastView {
        PodcastView {
            title: self.title@,
            description: self.description@,
            audio_file: match self.audio_file {
                Some(ref u) => Some(u@),
                None => None,
            },
        }
    }
}

impl PodcastView {
    /// The record a fresh item starts from: empty texts, no enclosure.
    pub open spec fn empty() -> PodcastView {
        PodcastView { title: Seq::empty(), description: Seq::empty(), audio_file: None }
    }
}

/// The value of a whole output sequence, record by record.
pub open spec fn podcasts_view(records: Seq<Podcast>) -> Seq<PodcastView> {
    records.map_values(|p: Podcast| p@)
}

impl Podcast {
    /// A fresh record, as created when a new item boundary opens.
    pub fn new() -> (p: Podcast)
        ensures
            p@ == PodcastView::empty(),
    {
        Podcast { title: String::new(), description: String::new(), audio_file: None }
    }
}

} // verus!
