//! Fetching the details of one item from a list of mirrors.
//!
//! The mirrors are tried in order and the first that answers wins. The
//! fetching itself happens outside: `DetailFetch` only says which address
//! to try next and what to make of each answer.

use crate::error::{FeedError, FeedErrorView};
use crate::text::{between, occurs_at, to_chars};
use crate::video::{strings_view, Timestamp, Video, VideoView};
use vstd::prelude::*;
use vstd::string::StringExecFns;

verus! {

/// Number of mirrors of the detail service.
pub const MIRROR_COUNT: usize = 4;

/// Base address of mirror `i`.
pub open spec fn mirror_address(i: int) -> Seq<char> {
    if i == 0 {
        "https://pipedapi.kavin.rocks"@
    } else if i == 1 {
        "https://pipedapi.tokhmi.xyz"@
    } else if i == 2 {
        "https://pipedapi.moomoo.me"@
    } else {
        "https://api-piped.mha.fi"@
    }
}

/// Address of the details of an item at a mirror.
pub open spec fn stream_address(base: Seq<char>, video_id: Seq<char>) -> Seq<char> {
    base + "/streams/"@ + video_id
}

/// What is reported when every mirror has failed.
pub open spec fn exhausted_message(video_id: Seq<char>, last_error: Seq<char>) -> Seq<char> {
    "All instances failed for video "@ + video_id + ". Last error: "@ + last_error
}

/// Position of the first occurrence of `pattern` in `text` at or after
/// `from`.
pub open spec fn find(text: Seq<char>, pattern: Seq<char>, from: int) -> Option<int>
    decreases text.len() - from + 1,
{
    if from < 0 || from + pattern.len() > text.len() {
        None
    } else if text.subrange(from, from + pattern.len()) == pattern {
        Some(from)
    } else {
        find(text, pattern, from + 1)
    }
}

/// What stands between the first occurrence of `marker` and the next one,
/// or the end of the text; `None` when the marker does not occur.
pub open spec fn after_marker(text: Seq<char>, marker: Seq<char>) -> Option<Seq<char>> {
    match find(text, marker, 0) {
        None => None,
        Some(at) => {
            let start = at + marker.len();
            match find(text, marker, start) {
                None => Some(text.subrange(start, text.len() as int)),
                Some(next) => Some(text.subrange(start, next)),
            }
        },
    }
}

/// What stands before the first `stop` in `text`; all of it when there is
/// none.
pub open spec fn before_char(text: Seq<char>, stop: char) -> Seq<char>
    decreases text.len(),
{
    if text.len() == 0 || text[0] == stop {
        Seq::empty()
    } else {
        seq![text[0]] + before_char(text.subrange(1, text.len() as int), stop)
    }
}

/// The id that a link to a related item carries in its `v` parameter: what
/// follows `watch?v=`, or else what follows `v=`, up to the next `&`.
pub open spec fn related_id_of(link: Seq<char>) -> Option<Seq<char>> {
    let value = match after_marker(link, "watch?v="@) {
        Some(value) => Some(value),
        None => after_marker(link, "v="@),
    };
    match value {
        Some(value) => Some(before_char(value, '&')),
        None => None,
    }
}

/// The ids carried by those of the links that carry one, in order.
pub open spec fn related_ids_of(links: Seq<Seq<char>>) -> Seq<Seq<char>>
    decreases links.len(),
{
    if links.len() == 0 {
        Seq::empty()
    } else {
        let earlier = related_ids_of(links.drop_last());
        match related_id_of(links.last()) {
            Some(id) => earlier.push(id),
            None => earlier,
        }
    }
}

/// Base address of mirror `i`, or `None` past the last mirror.
pub fn mirror(i: usize) -> (base: Option<&'static str>)
    ensures
        match base {
            Some(address) => i < MIRROR_COUNT && address@ == mirror_address(i as int),
            None => i >= MIRROR_COUNT,
        },
{
    match i {
        0 => Some("https://pipedapi.kavin.rocks"),
        1 => Some("https://pipedapi.tokhmi.xyz"),
        2 => Some("https://pipedapi.moomoo.me"),
        3 => Some("https://api-piped.mha.fi"),
        _ => None,
    }
}

/// Address of the details of `video_id` at the mirror with base address
/// `base`.
pub fn stream_url(base: &str, video_id: &str) -> (url: String)
    ensures
        url@ == stream_address(base@, video_id@),
{
    let mut url = String::from_str(base);
    url.append("/streams/");
    url.append(video_id);
    url
}

/// Position of the first occurrence of `pattern` in `text` at or after
/// `from`.
pub fn position_of(text: &Vec<char>, pattern: &Vec<char>, from: usize) -> (at: Option<usize>)
    ensures
        match at {
            Some(i) => find(text@, pattern@, from as int) == Some(i as int) && from <= i
                && i + pattern@.len() <= text@.len(),
            None => find(text@, pattern@, from as int) is None,
        },
{
    if from > text.len() {
        return None;
    }
    let mut i: usize = from;
    while i < text.len()
        invariant
            from <= i <= text@.len(),
            find(text@, pattern@, from as int) == find(text@, pattern@, i as int),
        decreases text@.len() - i,
    {
        if occurs_at(text, pattern, i) {
            return Some(i);
        }
        assert(find(text@, pattern@, i as int) == find(text@, pattern@, i + 1)) by {
            if i + pattern@.len() > text@.len() {
                assert(find(text@, pattern@, i + 1) is None);
            }
        }
        i += 1;
    }
    if occurs_at(text, pattern, i) {
        Some(i)
    } else {
        assert(find(text@, pattern@, i as int) is None) by {
            if i + pattern@.len() <= text@.len() {
                assert(find(text@, pattern@, i + 1) is None);
            }
        }
        None
    }
}

/// The characters of `text` between the first occurrence of `marker` and
/// the next, as a range of positions.
fn marked_range(text: &Vec<char>, marker: &Vec<char>) -> (range: Option<(usize, usize)>)
    ensures
        match range {
            Some((start, end)) => start <= end <= text@.len() && after_marker(text@, marker@)
                == Some(text@.subrange(start as int, end as int)),
            None => after_marker(text@, marker@) is None,
        },
{
    let length = text.len();
    match position_of(text, marker, 0) {
        None => None,
        Some(at) => {
            let start = at + marker.len();
            match position_of(text, marker, start) {
                None => Some((start, length)),
                Some(next) => Some((start, next)),
            }
        },
    }
}

/// The id of the related item that `link` points to, if it names one.
pub fn related_id(link: &str) -> (id: Option<String>)
    ensures
        match id {
            Some(id) => related_id_of(link@) == Some(id@),
            None => related_id_of(link@) is None,
        },
{
    let text = to_chars(link);
    let range = match marked_range(&text, &to_chars("watch?v=")) {
        Some(range) => Some(range),
        None => marked_range(&text, &to_chars("v=")),
    };
    match range {
        None => None,
        Some((start, end)) => {
            let ghost value = text@.subrange(start as int, end as int);
            let mut stop: usize = start;
            while stop < end && text[stop] != '&'
                invariant
                    start <= stop <= end <= text@.len(),
                    value == text@.subrange(start as int, end as int),
                    before_char(value, '&') == text@.subrange(start as int, stop as int)
                        + before_char(text@.subrange(stop as int, end as int), '&'),
                decreases end - stop,
            {
                proof {
                    let rest = text@.subrange(stop as int, end as int);
                    assert(rest.subrange(1, rest.len() as int) =~= text@.subrange(
                        stop + 1,
                        end as int,
                    ));
                    assert(text@.subrange(start as int, stop + 1) =~= text@.subrange(
                        start as int,
                        stop as int,
                    ) + seq![rest[0]]);
                    assert(text@.subrange(start as int, stop as int) + (seq![rest[0]]
                        + before_char(text@.subrange(stop + 1, end as int), '&'))
                        =~= text@.subrange(start as int, stop + 1) + before_char(
                        text@.subrange(stop + 1, end as int),
                        '&',
                    ));
                }
                stop += 1;
            }
            proof {
                let rest = text@.subrange(stop as int, end as int);
                assert(before_char(rest, '&') =~= Seq::<char>::empty());
                assert(text@.subrange(start as int, stop as int) + Seq::<char>::empty()
                    =~= text@.subrange(start as int, stop as int));
            }
            Some(between(&text, start, stop))
        },
    }
}

/// The ids of the related items that `links` point to; links that name
/// none are passed over.
pub fn related_ids(links: &Vec<String>) -> (ids: Vec<String>)
    ensures
        strings_view(ids@) == related_ids_of(strings_view(links@)),
{
    let ghost all = strings_view(links@);
    let mut ids: Vec<String> = Vec::new();
    let mut i: usize = 0;
    while i < links.len()
        invariant
            i <= links@.len(),
            all == strings_view(links@),
            strings_view(ids@) == related_ids_of(all.take(i as int)),
        decreases links@.len() - i,
    {
        let ghost before = strings_view(ids@);
        proof {
            assert(all.take(i + 1).drop_last() =~= all.take(i as int));
        }
        match related_id(links[i].as_str()) {
            Some(id) => {
                ids.push(id);
                assert(strings_view(ids@) =~= before.push(id@));
            },
            None => {},
        }
        i += 1;
    }
    assert(all.take(links@.len() as int) =~= all);
    ids
}

/// The details of one item as a mirror returns them.
#[derive(Debug, PartialEq, Eq)]
pub struct DetailRecord {
    pub title: String,
    pub description: String,
    /// Who published the item.
    pub uploader: String,
    pub thumbnail_url: String,
    pub tags: Option<Vec<String>>,
    /// Links to related items.
    pub related_links: Vec<String>,
}

/// The catalog item for the details of `video_id`, fetched at the instant
/// `now`. The uploader becomes the channel, the tags the genres, and the
/// links to related items their ids. A mirror knows no rating.
pub fn detail_to_video(video_id: String, record: DetailRecord, now: Timestamp) -> (video: Video)
    ensures
        video@.video_id == video_id@,
        video@.title == record.title@,
        video@.description == record.description@,
        video@.thumbnail_url == record.thumbnail_url@,
        video@.channel_name == record.uploader@,
        video@.rating == 0,
        video@.genres == (match record.tags {
            Some(tags) => strings_view(tags@),
            None => Seq::empty(),
        }),
        video@.related_ids == related_ids_of(strings_view(record.related_links@)),
        video@.saved_at == now,
{
    let related = related_ids(&record.related_links);
    let genres = match record.tags {
        Some(tags) => tags,
        None => {
            let none: Vec<String> = Vec::new();
            none
        },
    };
    Video {
        video_id,
        title: record.title,
        description: record.description,
        thumbnail_url: record.thumbnail_url,
        rating: 0,
        genres,
        channel_name: record.uploader,
        related_ids: related,
        saved_at: now,
    }
}

/// A fetch of the details of one item that is under way.
#[derive(Debug, PartialEq, Eq)]
pub struct DetailFetch {
    /// The item asked for.
    pub video_id: String,
    /// The mirror that is being tried.
    pub mirror: usize,
}

/// What to do next for a fetch.
#[derive(Debug, PartialEq, Eq)]
pub enum DetailAction {
    /// Ask this address and report the answer.
    Fetch(String),
    /// The fetch succeeded with this item.
    Deliver(Video),
    /// Every mirror failed.
    GiveUp(FeedError),
}

/// A `DetailAction` as plain values.
pub enum DetailActionView {
    Fetch(Seq<char>),
    Deliver(VideoView),
    GiveUp(FeedErrorView),
}

impl View for DetailAction {
    type V = DetailActionView;

    open spec fn view(&self) -> DetailActionView {
        match self {
            DetailAction::Fetch(url) => DetailActionView::Fetch(url@),
            DetailAction::Deliver(video) => DetailActionView::Deliver(video@),
            DetailAction::GiveUp(error) => DetailActionView::GiveUp(error@),
        }
    }
}

/// What follows an answer to the attempt at mirror `mirror`: a success is
/// delivered, a failure leads to the next mirror, and the failure of the
/// last mirror ends the fetch with that mirror's message.
pub open spec fn after_answer(
    video_id: Seq<char>,
    mirror: int,
    answer: Result<VideoView, Seq<char>>,
) -> DetailActionView {
    match answer {
        Ok(video) => DetailActionView::Deliver(video),
        Err(message) => if mirror + 1 < MIRROR_COUNT {
            DetailActionView::Fetch(stream_address(mirror_address(mirror + 1), video_id))
        } else {
            DetailActionView::GiveUp(
                FeedErrorView::DetailFetchExhausted(exhausted_message(video_id, message)),
            )
        },
    }
}

/// The answer of a mirror as plain values.
pub open spec fn answer_view(answer: Result<Video, String>) -> Result<VideoView, Seq<char>> {
    match answer {
        Ok(video) => Ok(video@),
        Err(message) => Err(message@),
    }
}

impl DetailFetch {
    /// Starts a fetch of the details of `video_id` at the first mirror.
    pub fn begin(video_id: String) -> (start: (DetailFetch, DetailAction))
        ensures
            start.0.video_id@ == video_id@,
            start.0.mirror == 0,
            start.1@ == DetailActionView::Fetch(stream_address(mirror_address(0), video_id@)),
    {
        match mirror(0) {
            Some(base) => {
                let url = stream_url(base, video_id.as_str());
                (DetailFetch { video_id, mirror: 0 }, DetailAction::Fetch(url))
            },
            None => unreached(),
        }
    }

    /// Takes the answer to the attempt under way and says what follows.
    /// After `Deliver` or `GiveUp` the fetch is over.
    pub fn on_answer(self, answer: Result<Video, String>) -> (next: (DetailFetch, DetailAction))
        ensures
            next.0.video_id@ == self.video_id@,
            next.1@ == after_answer(self.video_id@, self.mirror as int, answer_view(answer)),
            next.1 is Fetch ==> next.0.mirror == self.mirror + 1,
            !(next.1 is Fetch) ==> next.0.mirror == self.mirror,
    {
        match answer {
            Ok(video) => (self, DetailAction::Deliver(video)),
            Err(message) => {
                if self.mirror < MIRROR_COUNT - 1 {
                    match mirror(self.mirror + 1) {
                        Some(base) => {
                            let url = stream_url(base, self.video_id.as_str());
                            (
                                DetailFetch { video_id: self.video_id, mirror: self.mirror + 1 },
                                DetailAction::Fetch(url),
                            )
                        },
                        None => unreached(),
                    }
                } else {
                    let mut report = String::from_str("All instances failed for video ");
                    report.append(self.video_id.as_str());
                    report.append(". Last error: ");
                    report.append(message.as_str());
                    (self, DetailAction::GiveUp(FeedError::DetailFetchExhausted(report)))
                }
            },
        }
    }
}

} // verus!
