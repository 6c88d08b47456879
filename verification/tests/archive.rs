use yt_archiver::failure::Failure;
use yt_archiver::http::{GetRequest, PostJSONRequest};
use yt_archiver::metadata::{
    metadata_request, metadata_undecodable, metadata_unreachable, plan_metadata,
    thumbnail_unreachable, ArchivedMetadata, ItemResponse, SnippetResponse, ThumbnailParameters,
    ThumbnailsResponse, YouTubeResponse,
};
use yt_archiver::target::{classify, directory_for, split_list, video_parameters, Target};
use yt_archiver::text::{find, join, join3, matches_at, slice, to_chars};
use yt_archiver::youtube::MetadataParameters;

fn s(text: &str) -> String {
    String::from(text)
}

fn chars(text: &str) -> Vec<char> {
    text.chars().collect()
}

fn item(thumbnails: ThumbnailsResponse, tags: Option<Vec<String>>) -> ItemResponse {
    ItemResponse {
        id: s("dQw4w9WgXcQ"),
        snippet: SnippetResponse {
            published_at: s("2009-10-25T06:57:33Z"),
            title: s("A title"),
            description: s("A description"),
            thumbnails,
            channel_title: s("A channel"),
            tags,
        },
    }
}

fn no_thumbnails() -> ThumbnailsResponse {
    ThumbnailsResponse { default: None, medium: None, high: None, standard: None, maxres: None }
}

#[test]
fn get_request_sends_accept_only_where_given() {
    let plain = GetRequest { url: s("https://x"), accept: None };
    assert_eq!(plain.headers(), Vec::new());
    let json = GetRequest { url: s("https://x"), accept: Some(s("application/json")) };
    assert_eq!(json.headers(), vec![(s("Accept"), s("application/json"))]);
}

#[test]
fn post_request_always_sends_the_content_type() {
    let plain = PostJSONRequest { url: s("https://x"), accept: None, json: 1u8 };
    assert_eq!(plain.headers(), vec![(s("Content-Type"), s("application/json"))]);
    let json = PostJSONRequest { url: s("https://x"), accept: Some(s("text/plain")), json: 1u8 };
    assert_eq!(
        json.headers(),
        vec![(s("Content-Type"), s("application/json")), (s("Accept"), s("text/plain"))]
    );
}

#[test]
fn metadata_request_asks_for_the_snippet() {
    let url = s("https://youtu.be/dQw4w9WgXcQ?si=abc");
    let dir = s("out");
    let params = MetadataParameters { url: &url, dir: &dir };
    assert_eq!(
        metadata_request(&params, "https://yt.lemnoslife.com"),
        Ok(GetRequest {
            url: s("https://yt.lemnoslife.com/noKey/videos?part=snippet&id=dQw4w9WgXcQ"),
            accept: Some(s("application/json")),
        })
    );
}

#[test]
fn metadata_request_refuses_a_malformed_address() {
    let url = s("https://example.com/video");
    let dir = s("out");
    let params = MetadataParameters { url: &url, dir: &dir };
    assert_eq!(
        metadata_request(&params, "https://api"),
        Err(Failure::Precondition(s("Make sure to provide a valid YouTube URL!")))
    );
}

#[test]
fn plan_stores_the_first_item() {
    let thumbnails = ThumbnailsResponse {
        default: Some(s("https://i/default.jpg")),
        medium: None,
        high: Some(s("https://i/high.jpg")),
        standard: None,
        maxres: Some(s("https://i/maxres.jpg")),
    };
    let other = ItemResponse { id: s("other"), ..item(no_thumbnails(), None) };
    let response = YouTubeResponse {
        items: vec![item(thumbnails, Some(vec![s("music"), s("80s")])), other],
    };
    let plan = plan_metadata(response, "out/dQw4w9WgXcQ").unwrap();
    assert_eq!(
        plan.record,
        ArchivedMetadata {
            id: s("dQw4w9WgXcQ"),
            title: s("A title"),
            description: s("A description"),
            creator: s("A channel"),
            publish_date: s("2009-10-25T06:57:33Z"),
            tags: vec![s("music"), s("80s")],
        }
    );
    assert_eq!(plan.filename, "out/dQw4w9WgXcQ/meta.json");
    assert_eq!(
        plan.thumbnails,
        vec![
            ThumbnailParameters {
                url: s("https://i/default.jpg"),
                filename: s("out/dQw4w9WgXcQ/thumb_default.jpg"),
            },
            ThumbnailParameters {
                url: s("https://i/high.jpg"),
                filename: s("out/dQw4w9WgXcQ/thumb_high.jpg"),
            },
            ThumbnailParameters {
                url: s("https://i/maxres.jpg"),
                filename: s("out/dQw4w9WgXcQ/thumb_maxres.jpg"),
            },
        ]
    );
}

#[test]
fn plan_lists_all_five_sizes_in_order() {
    let thumbnails = ThumbnailsResponse {
        default: Some(s("d")),
        medium: Some(s("m")),
        high: Some(s("h")),
        standard: Some(s("s")),
        maxres: Some(s("x")),
    };
    let plan = plan_metadata(YouTubeResponse { items: vec![item(thumbnails, None)] }, "o").unwrap();
    let names: Vec<String> = plan.thumbnails.iter().map(|t| t.filename.clone()).collect();
    assert_eq!(
        names,
        vec![
            s("o/thumb_default.jpg"),
            s("o/thumb_medium.jpg"),
            s("o/thumb_high.jpg"),
            s("o/thumb_standard.jpg"),
            s("o/thumb_maxres.jpg"),
        ]
    );
    let urls: Vec<String> = plan.thumbnails.iter().map(|t| t.url.clone()).collect();
    assert_eq!(urls, vec![s("d"), s("m"), s("h"), s("s"), s("x")]);
}

#[test]
fn plan_without_tags_has_an_empty_list() {
    let plan = plan_metadata(YouTubeResponse { items: vec![item(no_thumbnails(), None)] }, "o").unwrap();
    assert_eq!(plan.record.tags, Vec::<String>::new());
    assert_eq!(plan.thumbnails, Vec::new());
}

#[test]
fn plan_refuses_an_answer_without_items() {
    assert_eq!(
        plan_metadata(YouTubeResponse { items: Vec::new() }, "o"),
        Err(Failure::Precondition(s(
            "YouTube API Response had no metadata items! Maybe try again later?"
        )))
    );
}

#[test]
fn metadata_failures_are_worded() {
    assert_eq!(
        metadata_unreachable("dns"),
        Failure::Transport(s("Error while getting metadata! Error: dns"))
    );
    assert_eq!(
        metadata_undecodable("eof", "<html>"),
        Failure::ParseFailure(s("Error while parsing metadata! Error: eof, Data: <html>"))
    );
    assert_eq!(
        thumbnail_unreachable("https://i/x.jpg", "reset"),
        Failure::Transport(s("Failed to request https://i/x.jpg! Error: reset"))
    );
}

#[test]
fn comma_makes_a_list() {
    assert_eq!(
        classify(&s("https://youtu.be/a,https://youtu.be/b")),
        Target::Videos(vec![s("https://youtu.be/a"), s("https://youtu.be/b")])
    );
    assert_eq!(
        classify(&s("https://youtube.com/@x,https://youtu.be/b")),
        Target::Videos(vec![s("https://youtube.com/@x"), s("https://youtu.be/b")])
    );
}

#[test]
fn at_makes_a_channel() {
    assert_eq!(classify(&s("https://youtube.com/@SomeHandle")), Target::Channel);
}

#[test]
fn anything_else_is_one_video() {
    assert_eq!(classify(&s("https://youtu.be/a")), Target::Video);
    assert_eq!(classify(&s("")), Target::Video);
}

#[test]
fn split_keeps_empty_pieces() {
    assert_eq!(split_list("a,b,c"), vec![s("a"), s("b"), s("c")]);
    assert_eq!(split_list("a,,b"), vec![s("a"), s(""), s("b")]);
    assert_eq!(split_list(",a,"), vec![s(""), s("a"), s("")]);
    assert_eq!(split_list(","), vec![s(""), s("")]);
    assert_eq!(split_list("abc"), vec![s("abc")]);
    assert_eq!(split_list(""), vec![s("")]);
    assert_eq!(split_list("\u{e9},\u{4e16}"), vec![s("\u{e9}"), s("\u{4e16}")]);
}

#[test]
fn split_agrees_with_std() {
    for list in ["a,b", "x", "", ",,", "https://youtu.be/a,https://youtu.be/b,"] {
        let expected: Vec<String> = list.split(",").map(String::from).collect();
        assert_eq!(split_list(list), expected);
    }
}

#[test]
fn directory_is_named_by_the_identifier() {
    assert_eq!(directory_for("out", &s("https://youtu.be/abc?si=x")), Ok(s("out/abc")));
    assert_eq!(
        directory_for("/data/yt", &s("https://www.youtube.com/watch?v=agTY4O0qsrc")),
        Ok(s("/data/yt/agTY4O0qsrc"))
    );
}

#[test]
fn directory_refuses_a_malformed_address() {
    assert_eq!(
        directory_for("out", &s("not a video")),
        Err(Failure::Precondition(s("Make sure to provide a valid YouTube URL!")))
    );
}

#[test]
fn video_is_stored_as_h264() {
    let url = s("https://youtu.be/abc");
    let params = video_parameters(&url, "out/abc");
    assert_eq!(params.url, &url);
    assert_eq!(params.video_codec, "h264");
    assert_eq!(params.filename, "out/abc/source_h264.mp4");
}

#[test]
fn find_gives_the_first_position() {
    assert_eq!(find(&chars("abcabc"), &chars("bc")), Some(1));
    assert_eq!(find(&chars("abcabc"), &chars("abc")), Some(0));
    assert_eq!(find(&chars("abcabc"), &chars("cb")), None);
    assert_eq!(find(&chars("abc"), &chars("abcd")), None);
    assert_eq!(find(&chars("abc"), &chars("")), Some(0));
    assert_eq!(find(&chars(""), &chars("")), Some(0));
    assert_eq!(find(&chars(""), &chars("a")), None);
    assert_eq!(find(&chars("aab"), &chars("ab")), Some(1));
    assert_eq!(find(&chars("xyz"), &chars("z")), Some(2));
}

#[test]
fn find_counts_characters() {
    assert_eq!(find(&chars("\u{e9}\u{4e16}x"), &chars("x")), Some(2));
    assert_eq!("\u{e9}\u{4e16}x".find("x"), Some(5));
}

#[test]
fn matches_at_tests_one_position() {
    assert!(matches_at(&chars("hello"), &chars("ell"), 1));
    assert!(!matches_at(&chars("hello"), &chars("ell"), 0));
    assert!(!matches_at(&chars("hello"), &chars("lo"), 4));
    assert!(matches_at(&chars("hello"), &chars(""), 5));
    assert!(!matches_at(&chars("hello"), &chars(""), 6));
}

#[test]
fn text_helpers() {
    assert_eq!(to_chars("a\u{e9}b"), vec!['a', '\u{e9}', 'b']);
    assert_eq!(to_chars(""), Vec::<char>::new());
    assert_eq!(slice(&chars("hello"), 1, 3), vec!['e', 'l']);
    assert_eq!(slice(&chars("hello"), 2, 2), Vec::<char>::new());
    assert_eq!(join("ab", "cd"), "abcd");
    assert_eq!(join3("a", "", "c"), "ac");
}
