//! Turning what the catalog search returns into catalog items.

use crate::text::{from_chars, occurs_at, to_chars};
use crate::video::{strings_view, Timestamp, Video};
use vstd::prelude::*;
use vstd::string::StringExecFns;

verus! {

/// One show as the search service describes it. Everything but the id, the
/// name and the genres may be missing.
#[derive(Debug, PartialEq, Eq)]
pub struct ShowRecord {
    pub id: u64,
    pub name: String,
    /// Summary of the show, with simple markup in it.
    pub summary: Option<String>,
    /// Address of the poster.
    pub image: Option<String>,
    /// Name of the network that airs the show.
    pub network: Option<String>,
    /// Average rating in tenths of a point.
    pub rating: Option<u32>,
    pub genres: Vec<String>,
}

/// The decimal digit for `d`, which is below ten.
pub open spec fn digit(d: nat) -> char {
    if d == 0 {
        '0'
    } else if d == 1 {
        '1'
    } else if d == 2 {
        '2'
    } else if d == 3 {
        '3'
    } else if d == 4 {
        '4'
    } else if d == 5 {
        '5'
    } else if d == 6 {
        '6'
    } else if d == 7 {
        '7'
    } else if d == 8 {
        '8'
    } else {
        '9'
    }
}

/// A number written in decimal, without sign or leading zeros.
pub open spec fn decimal(n: nat) -> Seq<char>
    decreases n,
{
    if n < 10 {
        seq![digit(n)]
    } else {
        decimal(n / 10).push(digit(n % 10))
    }
}

/// `text` with every occurrence of `tag` taken out, reading from the left;
/// occurrences do not overlap.
pub open spec fn without(text: Seq<char>, tag: Seq<char>) -> Seq<char>
    decreases text.len(),
{
    if tag.len() == 0 || text.len() < tag.len() {
        text
    } else if text.subrange(0, tag.len() as int) == tag {
        without(text.subrange(tag.len() as int, text.len() as int), tag)
    } else {
        seq![text[0]] + without(text.subrange(1, text.len() as int), tag)
    }
}

/// A summary without its paragraph and bold tags. The four tags are taken
/// out one kind after the other, in this order.
pub open spec fn strip_markup(summary: Seq<char>) -> Seq<char> {
    without(without(without(without(summary, "<p>"@), "</p>"@), "<b>"@), "</b>"@)
}

/// Description of a show that comes without a summary.
pub open spec fn default_description() -> Seq<char> {
    "No description"@
}

/// Poster of a show that comes without an image.
pub open spec fn placeholder_image() -> Seq<char> {
    "https://via.placeholder.com/210x295?text=No+Image"@
}

/// Channel of a show that comes without a network.
pub open spec fn default_channel() -> Seq<char> {
    "Web Series"@
}

/// Address of the search for `query`.
pub open spec fn search_address(query: Seq<char>) -> Seq<char> {
    "https://api.tvmaze.com/search/shows?q="@ + query
}

/// The digit for `d`.
fn digit_char(d: u64) -> (c: char)
    requires
        d < 10,
    ensures
        c == digit(d as nat),
{
    match d {
        0 => '0',
        1 => '1',
        2 => '2',
        3 => '3',
        4 => '4',
        5 => '5',
        6 => '6',
        7 => '7',
        8 => '8',
        _ => '9',
    }
}

/// Writes a number in decimal.
pub fn to_decimal(n: u64) -> (text: String)
    ensures
        text@ == decimal(n as nat),
{
    let mut reversed: Vec<char> = Vec::new();
    let mut rest: u64 = n;
    while rest >= 10
        invariant
            decimal(n as nat) == decimal(rest as nat) + reversed@.reverse(),
        decreases rest,
    {
        let ghost before = reversed@;
        reversed.push(digit_char(rest % 10));
        proof {
            assert(reversed@.reverse() =~= seq![digit((rest % 10) as nat)] + before.reverse());
            assert(decimal(rest as nat) == decimal((rest / 10) as nat).push(
                digit((rest % 10) as nat),
            ));
        }
        rest = rest / 10;
    }
    reversed.push(digit_char(rest));
    let ghost digits = reversed@;
    let mut forward: Vec<char> = Vec::new();
    let mut i: usize = reversed.len();
    while i > 0
        invariant
            i <= reversed@.len(),
            digits == reversed@,
            forward@.len() == digits.len() - i,
            forall|j: int| 0 <= j < forward@.len() ==> forward@[j] == digits.reverse()[j],
        decreases i,
    {
        i -= 1;
        forward.push(reversed[i]);
    }
    from_chars(&forward)
}

/// `text` with every occurrence of `tag` taken out.
pub fn remove_all(text: &Vec<char>, tag: &Vec<char>) -> (cleaned: Vec<char>)
    ensures
        cleaned@ == without(text@, tag@),
{
    if tag.len() == 0 {
        return clone_chars(text);
    }
    let mut cleaned: Vec<char> = Vec::new();
    let mut i: usize = 0;
    proof {
        assert(text@.subrange(0, text@.len() as int) =~= text@);
    }
    while i < text.len()
        invariant
            i <= text@.len(),
            tag@.len() > 0,
            cleaned@ + without(text@.subrange(i as int, text@.len() as int), tag@) == without(
                text@,
                tag@,
            ),
        decreases text@.len() - i,
    {
        let ghost rest = text@.subrange(i as int, text@.len() as int);
        let ghost before = cleaned@;
        if occurs_at(text, tag, i) {
            proof {
                assert(rest.subrange(0, tag@.len() as int) =~= text@.subrange(
                    i as int,
                    i + tag@.len(),
                ));
                assert(rest.subrange(tag@.len() as int, rest.len() as int) =~= text@.subrange(
                    i + tag@.len(),
                    text@.len() as int,
                ));
            }
            i += tag.len();
        } else {
            cleaned.push(text[i]);
            proof {
                let tail = text@.subrange(i + 1, text@.len() as int);
                assert(rest.subrange(1, rest.len() as int) =~= tail);
                if rest.len() >= tag@.len() {
                    assert(rest.subrange(0, tag@.len() as int) =~= text@.subrange(
                        i as int,
                        i + tag@.len(),
                    ));
                } else {
                    assert(without(tail, tag@) == tail);
                    assert(rest =~= seq![rest[0]] + tail);
                }
                assert(cleaned@ + without(tail, tag@) =~= before + (seq![rest[0]] + without(
                    tail,
                    tag@,
                )));
            }
            i += 1;
        }
    }
    cleaned
}

/// A copy of a list of characters.
fn clone_chars(text: &Vec<char>) -> (copy: Vec<char>)
    ensures
        copy@ == text@,
{
    let mut copy: Vec<char> = Vec::new();
    let mut i: usize = 0;
    while i < text.len()
        invariant
            i <= text@.len(),
            copy@ == text@.subrange(0, i as int),
        decreases text@.len() - i,
    {
        copy.push(text[i]);
        i += 1;
    }
    copy
}

/// Takes the paragraph and bold tags out of a summary.
pub fn clean_summary(summary: &str) -> (description: String)
    ensures
        description@ == strip_markup(summary@),
{
    let text = to_chars(summary);
    let text = remove_all(&text, &to_chars("<p>"));
    let text = remove_all(&text, &to_chars("</p>"));
    let text = remove_all(&text, &to_chars("<b>"));
    let text = remove_all(&text, &to_chars("</b>"));
    from_chars(&text)
}

/// The address at which the catalog is searched for `query`.
pub fn search_url(query: &str) -> (url: String)
    ensures
        url@ == search_address(query@),
{
    let mut url = String::from_str("https://api.tvmaze.com/search/shows?q=");
    url.append(query);
    url
}

/// The catalog item for a show found at the instant `now`. What the show
/// lacks is filled in: a summary, a poster, a network, a rating of zero for
/// unknown. A search result knows no related items.
pub fn show_to_video(show: ShowRecord, now: Timestamp) -> (video: Video)
    ensures
        video@.video_id == decimal(show.id as nat),
        video@.title == show.name@,
        video@.description == strip_markup(
            match show.summary {
                Some(summary) => summary@,
                None => default_description(),
            },
        ),
        video@.thumbnail_url == (match show.image {
            Some(image) => image@,
            None => placeholder_image(),
        }),
        video@.channel_name == (match show.network {
            Some(network) => network@,
            None => default_channel(),
        }),
        video@.rating == (match show.rating {
            Some(rating) => rating as nat,
            None => 0nat,
        }),
        video@.genres == strings_view(show.genres@),
        video@.related_ids.len() == 0,
        video@.saved_at == now,
{
    let description = match &show.summary {
        Some(summary) => clean_summary(summary.as_str()),
        None => clean_summary("No description"),
    };
    let thumbnail_url = match show.image {
        Some(image) => image,
        None => "https://via.placeholder.com/210x295?text=No+Image".to_owned(),
    };
    let channel_name = match show.network {
        Some(network) => network,
        None => "Web Series".to_owned(),
    };
    let rating = match show.rating {
        Some(rating) => rating,
        None => 0,
    };
    Video {
        video_id: to_decimal(show.id),
        title: show.name,
        description,
        thumbnail_url,
        rating,
        genres: show.genres,
        channel_name,
        related_ids: Vec::new(),
        saved_at: now,
    }
}

} // verus!
