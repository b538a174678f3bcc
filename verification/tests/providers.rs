use glassbox::catalog::{
    clean_summary, remove_all, search_url, show_to_video, to_decimal, ShowRecord,
};
use glassbox::detail::{
    detail_to_video, mirror, position_of, related_id, related_ids, stream_url, DetailAction,
    DetailFetch, DetailRecord, MIRROR_COUNT,
};
use glassbox::error::FeedError;
use glassbox::text::{from_chars, to_chars};
use glassbox::video::{clone_strings, Timestamp, Video};

fn chars(s: &str) -> Vec<char> {
    s.chars().collect()
}

fn without(text: &str, tag: &str) -> String {
    remove_all(&chars(text), &chars(tag)).into_iter().collect()
}

fn full_show() -> ShowRecord {
    ShowRecord {
        id: 169,
        name: "Breaking Bad".to_string(),
        summary: Some("<p><b>Breaking Bad</b> follows Walter White.</p>".to_string()),
        image: Some("https://static.tvmaze.com/169.jpg".to_string()),
        network: Some("AMC".to_string()),
        rating: Some(92),
        genres: vec!["Drama".to_string(), "Crime".to_string(), "Thriller".to_string()],
    }
}

fn found(id: &str) -> Video {
    Video {
        video_id: id.to_string(),
        title: "t".to_string(),
        description: "d".to_string(),
        thumbnail_url: "u".to_string(),
        rating: 0,
        genres: Vec::new(),
        channel_name: "c".to_string(),
        related_ids: Vec::new(),
        saved_at: Timestamp { secs: 0, nanos: 0 },
    }
}

#[test]
fn characters_round_trip() {
    let text = "naïve café — 東京 🎬";
    let all = to_chars(text);
    assert_eq!(all, chars(text));
    assert_eq!(from_chars(&all), text);
    assert_eq!(from_chars(&all[6..10].to_vec()), "café");
    assert_eq!(from_chars(&Vec::new()), "");
    assert_eq!(to_chars(""), Vec::<char>::new());
}

#[test]
fn decimal_of_numbers() {
    assert_eq!(to_decimal(0), "0");
    assert_eq!(to_decimal(7), "7");
    assert_eq!(to_decimal(10), "10");
    assert_eq!(to_decimal(169), "169");
    assert_eq!(to_decimal(1_000_000), "1000000");
    assert_eq!(to_decimal(u64::MAX), "18446744073709551615");
    for n in [9u64, 11, 99, 100, 101, 12345, 9_876_543_210] {
        assert_eq!(to_decimal(n), n.to_string());
    }
}

#[test]
fn tags_are_taken_out_from_the_left() {
    assert_eq!(without("<p>one</p>", "<p>"), "one</p>");
    assert_eq!(without("a<p>b<p>c", "<p>"), "abc");
    assert_eq!(without("<p><p><p>", "<p>"), "");
    assert_eq!(without("aaa", "aa"), "a");
    assert_eq!(without("aaaa", "aa"), "");
    assert_eq!(without("<<p>p>", "<p>"), "<p>");
    assert_eq!(without("no tags", "<p>"), "no tags");
    assert_eq!(without("<p", "<p>"), "<p");
    assert_eq!(without("", "<p>"), "");
    assert_eq!(without("kept", ""), "kept");
    assert_eq!(without("é<p>é", "<p>"), "éé");
}

#[test]
fn summaries_lose_paragraph_and_bold_tags() {
    assert_eq!(
        clean_summary("<p><b>Breaking Bad</b> follows Walter White.</p>"),
        "Breaking Bad follows Walter White."
    );
    assert_eq!(clean_summary("plain"), "plain");
    assert_eq!(clean_summary(""), "");
    assert_eq!(clean_summary("<i>kept</i> <P>kept</P>"), "<i>kept</i> <P>kept</P>");
    assert_eq!(clean_summary("<p>one</p><p>two</p>"), "onetwo");
}

#[test]
fn summaries_are_cleaned_one_tag_after_the_other() {
    // Taking out "<p>" uncovers a "<b>", which the third pass then removes.
    assert_eq!(clean_summary("<<p>b>bold"), "bold");
    // Taking out "</b>" uncovers a "<p>", whose pass is already over.
    assert_eq!(clean_summary("<</b>p>text"), "<p>text");
    let cleaned = "<<p>b>x</</p>b>"
        .replace("<p>", "")
        .replace("</p>", "")
        .replace("<b>", "")
        .replace("</b>", "");
    assert_eq!(clean_summary("<<p>b>x</</p>b>"), cleaned);
}

#[test]
fn show_with_everything_becomes_a_video() {
    let now = Timestamp { secs: 1_700_000_000, nanos: 42 };
    let video = show_to_video(full_show(), now);
    assert_eq!(
        video,
        Video {
            video_id: "169".to_string(),
            title: "Breaking Bad".to_string(),
            description: "Breaking Bad follows Walter White.".to_string(),
            thumbnail_url: "https://static.tvmaze.com/169.jpg".to_string(),
            rating: 92,
            genres: vec!["Drama".to_string(), "Crime".to_string(), "Thriller".to_string()],
            channel_name: "AMC".to_string(),
            related_ids: Vec::new(),
            saved_at: now,
        }
    );
}

#[test]
fn show_with_nothing_gets_the_defaults() {
    let now = Timestamp { secs: -5, nanos: 0 };
    let bare = ShowRecord {
        id: 0,
        name: String::new(),
        summary: None,
        image: None,
        network: None,
        rating: None,
        genres: Vec::new(),
    };
    let video = show_to_video(bare, now);
    assert_eq!(video.video_id, "0");
    assert_eq!(video.title, "");
    assert_eq!(video.description, "No description");
    assert_eq!(video.thumbnail_url, "https://via.placeholder.com/210x295?text=No+Image");
    assert_eq!(video.channel_name, "Web Series");
    assert_eq!(video.rating, 0);
    assert_eq!(video.genres, Vec::<String>::new());
    assert_eq!(video.related_ids, Vec::<String>::new());
    assert_eq!(video.saved_at, now);
}

#[test]
fn search_address_carries_the_query_as_it_is() {
    assert_eq!(search_url("Drama"), "https://api.tvmaze.com/search/shows?q=Drama");
    assert_eq!(
        search_url("Science-Fiction"),
        "https://api.tvmaze.com/search/shows?q=Science-Fiction"
    );
    assert_eq!(search_url(""), "https://api.tvmaze.com/search/shows?q=");
}

#[test]
fn related_id_follows_the_watch_marker() {
    assert_eq!(related_id("/watch?v=abc123"), Some("abc123".to_string()));
    assert_eq!(related_id("https://host/watch?v=abc&list=x&t=3"), Some("abc".to_string()));
    assert_eq!(related_id("/watch?v="), Some(String::new()));
    assert_eq!(related_id("/watch?v=&x=1"), Some(String::new()));
    assert_eq!(related_id("/watch?v=one/watch?v=two"), Some("one/".to_string()));
}

#[test]
fn related_id_falls_back_to_the_bare_parameter() {
    assert_eq!(related_id("/embed?v=xyz"), Some("xyz".to_string()));
    assert_eq!(related_id("/embed?list=1&v=xyz&t=2"), Some("xyz".to_string()));
    assert_eq!(related_id("/embed?v=a&v=b"), Some("a".to_string()));
    assert_eq!(related_id("v=v=x"), Some(String::new()));
    assert_eq!(related_id("/playlist?list=1"), None);
    assert_eq!(related_id(""), None);
    assert_eq!(related_id("v"), None);
}

#[test]
fn related_id_agrees_with_splitting() {
    let links = [
        "/watch?v=abc123",
        "/watch?v=a&b=c",
        "x?v=1&v=2",
        "watch?v=watch?v=",
        "no parameter",
        "/watch?x=1&v=é&y",
        "v=",
        "=v",
    ];
    for link in links {
        let expected = link
            .split("watch?v=")
            .nth(1)
            .or_else(|| link.split("v=").nth(1))
            .map(|s| s.split('&').next().unwrap_or(s).to_string());
        assert_eq!(related_id(link), expected, "link {:?}", link);
    }
}

#[test]
fn patterns_are_found_from_a_position_on() {
    let text = chars("abcabc");
    assert_eq!(position_of(&text, &chars("bc"), 0), Some(1));
    assert_eq!(position_of(&text, &chars("bc"), 1), Some(1));
    assert_eq!(position_of(&text, &chars("bc"), 2), Some(4));
    assert_eq!(position_of(&text, &chars("bc"), 5), None);
    assert_eq!(position_of(&text, &chars("bc"), 6), None);
    assert_eq!(position_of(&text, &chars("abcabcd"), 0), None);
    assert_eq!(position_of(&text, &chars(""), 3), Some(3));
    assert_eq!(position_of(&text, &chars(""), 6), Some(6));
    assert_eq!(position_of(&text, &chars(""), 7), None);
    assert_eq!(position_of(&text, &chars("a"), usize::MAX), None);
}

#[test]
fn related_ids_pass_over_links_without_one() {
    let links = vec![
        "/watch?v=one".to_string(),
        "/channel/x".to_string(),
        "/watch?v=two&t=1".to_string(),
        String::new(),
    ];
    assert_eq!(related_ids(&links), vec!["one", "two"]);
    assert_eq!(related_ids(&Vec::new()), Vec::<String>::new());
    assert_eq!(clone_strings(&links), links);
}

#[test]
fn details_become_a_video() {
    let now = Timestamp { secs: 9, nanos: 9 };
    let record = DetailRecord {
        title: "Clip".to_string(),
        description: "<p>as is</p>".to_string(),
        uploader: "Channel 4".to_string(),
        thumbnail_url: "https://img/1.jpg".to_string(),
        tags: Some(vec!["Music".to_string(), "live".to_string()]),
        related_links: vec!["/watch?v=r1".to_string(), "/about".to_string()],
    };
    let video = detail_to_video("vid9".to_string(), record, now);
    assert_eq!(
        video,
        Video {
            video_id: "vid9".to_string(),
            title: "Clip".to_string(),
            description: "<p>as is</p>".to_string(),
            thumbnail_url: "https://img/1.jpg".to_string(),
            rating: 0,
            genres: vec!["Music".to_string(), "live".to_string()],
            channel_name: "Channel 4".to_string(),
            related_ids: vec!["r1".to_string()],
            saved_at: now,
        }
    );
}

#[test]
fn details_without_tags_have_no_genres() {
    let record = DetailRecord {
        title: String::new(),
        description: String::new(),
        uploader: String::new(),
        thumbnail_url: String::new(),
        tags: None,
        related_links: Vec::new(),
    };
    let video = detail_to_video("x".to_string(), record, Timestamp { secs: 0, nanos: 0 });
    assert_eq!(video.genres, Vec::<String>::new());
    assert_eq!(video.related_ids, Vec::<String>::new());
}

#[test]
fn mirrors_come_in_a_fixed_order() {
    assert_eq!(MIRROR_COUNT, 4);
    assert_eq!(mirror(0), Some("https://pipedapi.kavin.rocks"));
    assert_eq!(mirror(1), Some("https://pipedapi.tokhmi.xyz"));
    assert_eq!(mirror(2), Some("https://pipedapi.moomoo.me"));
    assert_eq!(mirror(3), Some("https://api-piped.mha.fi"));
    assert_eq!(mirror(4), None);
    assert_eq!(stream_url("https://m", "abc"), "https://m/streams/abc");
}

#[test]
fn first_mirror_that_answers_wins() {
    let (fetch, action) = DetailFetch::begin("abc".to_string());
    assert_eq!(action, DetailAction::Fetch("https://pipedapi.kavin.rocks/streams/abc".to_string()));
    let (fetch, action) = fetch.on_answer(Err("Network: refused".to_string()));
    assert_eq!(action, DetailAction::Fetch("https://pipedapi.tokhmi.xyz/streams/abc".to_string()));
    assert_eq!(fetch.mirror, 1);
    let (fetch, action) = fetch.on_answer(Ok(found("abc")));
    assert_eq!(action, DetailAction::Deliver(found("abc")));
    assert_eq!(fetch, DetailFetch { video_id: "abc".to_string(), mirror: 1 });
}

#[test]
fn first_mirror_can_win_at_once() {
    let (fetch, _) = DetailFetch::begin("abc".to_string());
    let (_, action) = fetch.on_answer(Ok(found("abc")));
    assert_eq!(action, DetailAction::Deliver(found("abc")));
}

#[test]
fn failure_of_every_mirror_reports_the_last_error() {
    let (mut fetch, mut action) = DetailFetch::begin("abc".to_string());
    let mut tried = Vec::new();
    let mut attempt = 0;
    while let DetailAction::Fetch(url) = action {
        tried.push(url);
        attempt += 1;
        (fetch, action) = fetch.on_answer(Err(format!("Status: 50{}", attempt)));
    }
    assert_eq!(
        tried,
        vec![
            "https://pipedapi.kavin.rocks/streams/abc",
            "https://pipedapi.tokhmi.xyz/streams/abc",
            "https://pipedapi.moomoo.me/streams/abc",
            "https://api-piped.mha.fi/streams/abc",
        ]
    );
    assert_eq!(
        action,
        DetailAction::GiveUp(FeedError::DetailFetchExhausted(
            "All instances failed for video abc. Last error: Status: 504".to_string()
        ))
    );
    assert_eq!(fetch.mirror, 3);
}

#[test]
fn fetch_past_the_last_mirror_gives_up() {
    let fetch = DetailFetch { video_id: "v".to_string(), mirror: usize::MAX };
    let (_, action) = fetch.on_answer(Err("e".to_string()));
    assert_eq!(
        action,
        DetailAction::GiveUp(FeedError::DetailFetchExhausted(
            "All instances failed for video v. Last error: e".to_string()
        ))
    );
}
