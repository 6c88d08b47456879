use yt_archiver::youtube::{
    get_channel_handle_from_url, get_id_from_url, is_channel_url, is_video_url,
    make_channel_lookup_url, make_live_check_url, make_metadata_url, make_search_url,
    make_video_url,
};

fn s(text: &str) -> String {
    String::from(text)
}

#[test]
fn short_form_with_share_suffix() {
    assert_eq!(get_id_from_url(&s("https://youtu.be/dQw4w9WgXcQ?si=abc")), "dQw4w9WgXcQ");
}

#[test]
fn short_form_without_suffix() {
    assert_eq!(get_id_from_url(&s("https://youtu.be/dQw4w9WgXcQ")), "dQw4w9WgXcQ");
}

#[test]
fn short_form_with_time_marker() {
    assert_eq!(get_id_from_url(&s("https://youtu.be/dQw4w9WgXcQ?t=11")), "dQw4w9WgXcQ");
}

#[test]
fn short_form_with_suffix_and_later_time_marker() {
    assert_eq!(get_id_from_url(&s("https://youtu.be/dQw4w9WgXcQ?si=abc?t=11")), "dQw4w9WgXcQ");
}

#[test]
fn short_form_without_scheme() {
    assert_eq!(get_id_from_url(&s("youtu.be/abc")), "abc");
}

#[test]
fn long_form() {
    assert_eq!(get_id_from_url(&s("https://www.youtube.com/watch?v=agTY4O0qsrc")), "agTY4O0qsrc");
}

#[test]
fn long_form_with_time_marker() {
    assert_eq!(
        get_id_from_url(&s("https://www.youtube.com/watch?v=agTY4O0qsrc?t=42")),
        "agTY4O0qsrc"
    );
}

#[test]
fn only_a_time_marker_with_equals_sign_is_cut() {
    assert_eq!(
        get_id_from_url(&s("https://www.youtube.com/watch?v=agTY4O0qsrc?theme=dark")),
        "agTY4O0qsrc?theme=dark"
    );
    assert_eq!(
        get_id_from_url(&s("https://www.youtube.com/watch?v=agTY4O0qsrc?t")),
        "agTY4O0qsrc?t"
    );
    assert_eq!(get_id_from_url(&s("https://www.youtube.com/watch?v=agTY4O0qsrc?t=")), "agTY4O0qsrc");
}

#[test]
fn time_marker_cuts_all_that_follows() {
    assert_eq!(
        get_id_from_url(&s("https://www.youtube.com/watch?v=abc?t=5&list=PL1")),
        "abc"
    );
    assert_eq!(get_id_from_url(&s("https://youtu.be/abc?t=5/more")), "abc");
}

#[test]
fn long_form_keeps_all_after_the_first_equals_sign() {
    assert_eq!(
        get_id_from_url(&s("https://www.youtube.com/watch?v=agTY4O0qsrc&list=PL1")),
        "agTY4O0qsrc&list=PL1"
    );
}

#[test]
fn long_form_without_www() {
    assert_eq!(get_id_from_url(&s("https://youtube.com/watch?v=xyz")), "xyz");
}

#[test]
fn other_youtube_path_takes_what_follows_the_first_slash() {
    assert_eq!(get_id_from_url(&s("https://youtube.com/shorts/abc?x=1")), "shorts/abc");
}

#[test]
fn non_ascii_characters_are_kept() {
    assert_eq!(get_id_from_url(&s("https://youtu.be/a\u{e9}\u{4e16}b?si=\u{e9}")), "a\u{e9}\u{4e16}b");
}

#[test]
fn empty_identifier_is_read_as_empty() {
    assert!(is_video_url(&s("https://youtu.be/")));
    assert_eq!(get_id_from_url(&s("https://youtu.be/")), "");
}

#[test]
fn video_url_is_recognised() {
    assert!(is_video_url(&s("https://youtu.be/dQw4w9WgXcQ?si=abc")));
    assert!(is_video_url(&s("https://www.youtube.com/watch?v=agTY4O0qsrc")));
    assert!(is_video_url(&s("youtube.com/watch?v=")));
}

#[test]
fn address_without_youtu_is_no_video_url() {
    assert!(!is_video_url(&s("https://example.com/watch?v=abc")));
    assert!(!is_video_url(&s("")));
}

#[test]
fn address_without_separator_is_no_video_url() {
    assert!(!is_video_url(&s("youtu.be")));
    assert!(!is_video_url(&s("https://youtu.be?si=a/b")));
    assert!(!is_video_url(&s("https://youtube.com?t=/x")));
    assert!(is_video_url(&s("https://youtube.com?t/x")) == false);
}

#[test]
fn channel_handle_is_read() {
    assert_eq!(get_channel_handle_from_url(&s("https://youtube.com/@SomeHandle")), "SomeHandle");
}

#[test]
fn channel_handle_is_all_after_the_first_at() {
    assert_eq!(get_channel_handle_from_url(&s("https://youtube.com/@a@b/videos")), "a@b/videos");
    assert_eq!(get_channel_handle_from_url(&s("@")), "");
}

#[test]
fn channel_url_is_recognised() {
    assert!(is_channel_url(&s("https://youtube.com/@SomeHandle")));
    assert!(!is_channel_url(&s("https://youtube.com/SomeHandle")));
    assert!(!is_channel_url(&s("")));
}

#[test]
fn video_url_is_built() {
    assert_eq!(make_video_url("abc"), "https://youtu.be/abc");
}

#[test]
fn built_video_url_resolves_to_its_identifier() {
    assert_eq!(get_id_from_url(&make_video_url("dQw4w9WgXcQ")), "dQw4w9WgXcQ");
}

#[test]
fn channel_lookup_url_is_built() {
    assert_eq!(
        make_channel_lookup_url("https://yt.lemnoslife.com", "SomeHandle"),
        "https://yt.lemnoslife.com/noKey/channels?part=id&forHandle=@SomeHandle"
    );
}

#[test]
fn search_url_of_the_first_page_is_built() {
    assert_eq!(
        make_search_url("https://api", "UC123", &None),
        "https://api/noKey/search?part=snippet,id&order=date&type=video&maxResults=50&channelId=UC123"
    );
}

#[test]
fn search_url_of_a_later_page_is_built() {
    assert_eq!(
        make_search_url("https://api", "UC123", &Some(s("TOKEN"))),
        "https://api/noKey/search?part=snippet,id&order=date&type=video&maxResults=50&channelId=UC123&pageToken=TOKEN"
    );
}

#[test]
fn live_check_url_is_built() {
    assert_eq!(
        make_live_check_url("https://api", "abc"),
        "https://api/noKey/videos?part=liveStreamingDetails&id=abc"
    );
}

#[test]
fn metadata_url_is_built() {
    assert_eq!(
        make_metadata_url("https://api", "abc"),
        "https://api/noKey/videos?part=snippet&id=abc"
    );
}
