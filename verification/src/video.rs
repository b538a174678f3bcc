//! Catalog items and the instants at which they were saved.

use vstd::prelude::*;

verus! {

/// Ratings are kept in tenths of a point, so `84` stands for 8.4 out of 10.
pub const RATING_SCALE: u32 = 10;

/// An instant on the UTC time line: whole seconds since the Unix epoch and
/// the nanoseconds within that second. Instants are ordered by seconds first
/// and nanoseconds second.
#[derive(Clone, Copy, Debug, PartialEq, Eq, Structural)]
pub struct Timestamp {
    pub secs: i64,
    pub nanos: u32,
}

impl Timestamp {
    /// A single integer that orders instants exactly as the pair
    /// `(secs, nanos)` does.
    pub open spec fn order_key(self) -> int {
        self.secs * 0x1_0000_0000 + self.nanos
    }

    /// `self` is strictly later than `other`.
    pub open spec fn later_than(self, other: Timestamp) -> bool {
        self.secs > other.secs || (self.secs == other.secs && self.nanos > other.nanos)
    }

    /// The ordering key as a machine integer.
    pub fn key(&self) -> (k: i128)
        ensures
            k == self.order_key(),
    {
        let secs: i128 = self.secs as i128;
        let nanos: i128 = self.nanos as i128;
        secs * 0x1_0000_0000 + nanos
    }

    /// Whether `self` is strictly later than `other`.
    pub fn is_after(&self, other: &Timestamp) -> (later: bool)
        ensures
            later == self.later_than(*other),
            later == (self.order_key() > other.order_key()),
    {
        self.secs > other.secs || (self.secs == other.secs && self.nanos > other.nanos)
    }
}

/// One movie or show of the catalog.
#[derive(Debug, PartialEq, Eq)]
pub struct Video {
    /// Identity of the item at the catalog provider.
    pub video_id: String,
    pub title: String,
    pub description: String,
    pub thumbnail_url: String,
    /// Average rating in tenths of a point, from 0 to 100; 0 means unknown.
    pub rating: u32,
    /// Genre tags as the provider spells them, in any casing.
    pub genres: Vec<String>,
    /// Network or channel the item belongs to.
    pub channel_name: String,
    pub related_ids: Vec<String>,
    pub saved_at: Timestamp,
}

/// What a `Video` holds, as plain mathematical values.
pub struct VideoView {
    pub video_id: Seq<char>,
    pub title: Seq<char>,
    pub description: Seq<char>,
    pub thumbnail_url: Seq<char>,
    pub rating: nat,
    pub genres: Seq<Seq<char>>,
    pub channel_name: Seq<char>,
    pub related_ids: Seq<Seq<char>>,
    pub saved_at: Timestamp,
}

/// The contents of a list of strings.
pub open spec fn strings_view(strings: Seq<String>) -> Seq<Seq<char>> {
    strings.map_values(|s: String| s@)
}

/// The contents of a list of videos.
pub open spec fn videos_view(videos: Seq<Video>) -> Seq<VideoView> {
    videos.map_values(|v: Video| v@)
}

impl View for Video {
    type V = VideoView;

    open spec fn view(&self) -> VideoView {
        VideoView {
            video_id: self.video_id@,
            title: self.title@,
            description: self.description@,
            thumbnail_url: self.thumbnail_url@,
            rating: self.rating as nat,
            genres: strings_view(self.genres@),
            channel_name: self.channel_name@,
            related_ids: strings_view(self.related_ids@),
            saved_at: self.saved_at,
        }
    }
}

/// An independent copy of a list of strings.
pub fn clone_strings(strings: &Vec<String>) -> (copy: Vec<String>)
    ensures
        strings_view(copy@) == strings_view(strings@),
{
    let mut copy: Vec<String> = Vec::new();
    let mut i: usize = 0;
    while i < strings.len()
        invariant
            i <= strings@.len(),
            copy@.len() == i,
            forall|j: int| 0 <= j < i ==> copy@[j]@ == strings@[j]@,
        decreases strings@.len() - i,
    {
        copy.push(strings[i].clone());
        i += 1;
    }
    copy
}

impl Clone for Video {
    fn clone(&self) -> (copy: Self)
        ensures
            copy@ == self@,
    {
        Video {
            video_id: self.video_id.clone(),
            title: self.title.clone(),
            description: self.description.clone(),
            thumbnail_url: self.thumbnail_url.clone(),
            rating: self.rating,
            genres: clone_strings(&self.genres),
            channel_name: self.channel_name.clone(),
            related_ids: clone_strings(&self.related_ids),
            saved_at: self.saved_at,
        }
    }
}

} // verus!
