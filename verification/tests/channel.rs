use yt_archiver::channel::{
    page_ids, push_urls, EnumAction, EnumEvent, EnumPhase, Enumeration, SearchItem, SearchPage,
};
use yt_archiver::failure::{Failure, FailureKind};
use yt_archiver::http::GetRequest;
use yt_archiver::youtube::ChannelRequest;

fn s(text: &str) -> String {
    String::from(text)
}

fn video(id: &str) -> SearchItem {
    SearchItem { kind: s("video"), video_id: Some(s(id)) }
}

fn page(ids: &[&str], next: Option<&str>) -> SearchPage {
    SearchPage {
        items: ids.iter().map(|id| video(id)).collect(),
        next_page_token: next.map(String::from),
    }
}

fn json_get(url: &str) -> EnumAction {
    EnumAction::Get(GetRequest { url: s(url), accept: Some(s("application/json")) })
}

const SEARCH: &str =
    "https://api/noKey/search?part=snippet,id&order=date&type=video&maxResults=50&channelId=UC1";

/// A listing of `@Some` that has learnt its channel and awaits the first page.
fn paging(include_live: bool) -> Enumeration {
    let url = s("https://youtube.com/@Some");
    let request = ChannelRequest { url: &url, api: s("https://api"), include_streams_and_premieres: include_live };
    let (mut listing, _) = Enumeration::begin(&request).unwrap();
    let (action, notice) = listing.step(EnumEvent::Channels(vec![s("UC1")]));
    assert_eq!(action, json_get(SEARCH));
    assert_eq!(notice, None);
    listing
}

#[test]
fn begin_looks_up_the_channel_by_its_handle() {
    let url = s("https://youtube.com/@SomeHandle");
    let request = ChannelRequest { url: &url, api: s("https://yt.lemnoslife.com"), include_streams_and_premieres: true };
    let (listing, lookup) = Enumeration::begin(&request).unwrap();
    assert_eq!(listing.phase(), EnumPhase::Resolving);
    assert_eq!(
        lookup,
        GetRequest {
            url: s("https://yt.lemnoslife.com/noKey/channels?part=id&forHandle=@SomeHandle"),
            accept: None,
        }
    );
}

#[test]
fn begin_refuses_an_address_without_handle() {
    let url = s("https://youtube.com/SomeHandle");
    let request = ChannelRequest { url: &url, api: s("https://api"), include_streams_and_premieres: true };
    assert_eq!(
        Enumeration::begin(&request),
        Err(Failure::Precondition(s("Make sure to provide a valid YouTube Channel URL!")))
    );
}

#[test]
fn first_channel_is_taken_and_first_page_asked_for() {
    let url = s("https://youtube.com/@Some");
    let request = ChannelRequest { url: &url, api: s("https://api"), include_streams_and_premieres: true };
    let (mut listing, _) = Enumeration::begin(&request).unwrap();
    let (action, notice) = listing.step(EnumEvent::Channels(vec![s("UC1"), s("UC2")]));
    assert_eq!(action, json_get(SEARCH));
    assert_eq!(notice, None);
    assert_eq!(listing.phase(), EnumPhase::Paging);
}

#[test]
fn handle_without_channel_ends_the_listing() {
    let url = s("https://youtube.com/@Nobody");
    let request = ChannelRequest { url: &url, api: s("https://api"), include_streams_and_premieres: true };
    let (mut listing, _) = Enumeration::begin(&request).unwrap();
    let (action, notice) = listing.step(EnumEvent::Channels(Vec::new()));
    assert_eq!(
        action,
        EnumAction::Fail(Failure::Precondition(s(
            "The specified channel handle has no associated channel!"
        )))
    );
    assert_eq!(notice, None);
    assert_eq!(listing.phase(), EnumPhase::Finished);
}

#[test]
fn failed_channel_lookup_ends_the_listing() {
    let url = s("https://youtube.com/@Some");
    let request = ChannelRequest { url: &url, api: s("https://api"), include_streams_and_premieres: true };
    let (mut listing, _) = Enumeration::begin(&request).unwrap();
    let (action, _) = listing.step(EnumEvent::Unreachable(s("dns")));
    assert_eq!(
        action,
        EnumAction::Fail(Failure::Transport(s(
            "There was an error requesting the channel ID from the channel handle Some! Error: dns"
        )))
    );
    let (mut listing, _) = Enumeration::begin(&request).unwrap();
    let (action, _) = listing.step(EnumEvent::Undecodable(s("eof")));
    assert_eq!(
        action,
        EnumAction::Fail(Failure::ParseFailure(s(
            "There was an error decoding the channel list response from the YouTube API! Error: eof"
        )))
    );
    assert_eq!(listing.phase(), EnumPhase::Finished);
}

#[test]
fn two_pages_are_concatenated_in_request_order() {
    let mut listing = paging(true);
    let (action, notice) = listing.step(EnumEvent::Page(page(&["a", "b"], Some("T2"))));
    assert_eq!(action, json_get(&format!("{}&pageToken=T2", SEARCH)));
    assert_eq!(notice, None);
    assert_eq!(listing.phase(), EnumPhase::Paging);
    let (action, notice) = listing.step(EnumEvent::Page(page(&["c", "d", "e"], None)));
    assert_eq!(
        action,
        EnumAction::Done(vec![
            s("https://youtu.be/a"),
            s("https://youtu.be/b"),
            s("https://youtu.be/c"),
            s("https://youtu.be/d"),
            s("https://youtu.be/e"),
        ])
    );
    assert_eq!(notice, None);
    assert_eq!(listing.phase(), EnumPhase::Finished);
}

#[test]
fn overlapping_pages_keep_their_duplicates() {
    let mut listing = paging(true);
    listing.step(EnumEvent::Page(page(&["a", "b"], Some("T2"))));
    let (action, _) = listing.step(EnumEvent::Page(page(&["b", "c"], None)));
    assert_eq!(
        action,
        EnumAction::Done(vec![
            s("https://youtu.be/a"),
            s("https://youtu.be/b"),
            s("https://youtu.be/b"),
            s("https://youtu.be/c"),
        ])
    );
}

#[test]
fn channel_without_videos_gives_an_empty_list() {
    let mut listing = paging(true);
    let (action, _) = listing.step(EnumEvent::Page(page(&[], None)));
    assert_eq!(action, EnumAction::Done(Vec::new()));
    let mut listing = paging(false);
    let (action, _) = listing.step(EnumEvent::Page(page(&[], None)));
    assert_eq!(action, EnumAction::Done(Vec::new()));
}

#[test]
fn entries_that_are_no_videos_are_passed_over() {
    let mut listing = paging(true);
    let items = vec![
        video("a"),
        SearchItem { kind: s("channel"), video_id: None },
        SearchItem { kind: s("playlist"), video_id: Some(s("p")) },
        SearchItem { kind: s("Video"), video_id: Some(s("q")) },
        video("b"),
    ];
    let (action, _) = listing.step(EnumEvent::Page(SearchPage { items, next_page_token: None }));
    assert_eq!(action, EnumAction::Done(vec![s("https://youtu.be/a"), s("https://youtu.be/b")]));
}

#[test]
fn video_without_identifier_ends_the_listing() {
    let mut listing = paging(true);
    let items = vec![video("a"), SearchItem { kind: s("video"), video_id: None }];
    let (action, notice) = listing.step(EnumEvent::Page(SearchPage { items, next_page_token: Some(s("T")) }));
    assert_eq!(
        action,
        EnumAction::Fail(Failure::ParseFailure(s(
            "There was an error parsing the channel search results! Error: a video without an ID"
        )))
    );
    assert_eq!(notice, None);
    assert_eq!(listing.phase(), EnumPhase::Finished);
}

#[test]
fn failed_page_ends_the_listing() {
    let mut listing = paging(true);
    listing.step(EnumEvent::Page(page(&["a"], Some("T2"))));
    let (action, notice) = listing.step(EnumEvent::Unreachable(s("timeout")));
    assert_eq!(
        action,
        EnumAction::Fail(Failure::Transport(s(
            "There was an error requesting the channel videos from the channel id UC1! Error: timeout"
        )))
    );
    assert_eq!(notice, None);
    assert_eq!(listing.phase(), EnumPhase::Finished);
    let (later, _) = listing.step(EnumEvent::Page(page(&["b"], None)));
    assert!(matches!(later, EnumAction::Fail(Failure::Precondition(_))));
}

#[test]
fn undecodable_page_ends_the_listing() {
    let mut listing = paging(false);
    let (action, _) = listing.step(EnumEvent::Undecodable(s("missing field")));
    assert_eq!(
        action,
        EnumAction::Fail(Failure::ParseFailure(s(
            "There was an error parsing the channel search results! Error: missing field"
        )))
    );
    match action {
        EnumAction::Fail(f) => assert_eq!(f.kind(), FailureKind::ParseFailure),
        _ => unreachable!(),
    }
}

const CHECK: &str = "https://api/noKey/videos?part=liveStreamingDetails&id=";

#[test]
fn each_video_is_checked_in_turn() {
    let mut listing = paging(false);
    let (action, _) = listing.step(EnumEvent::Page(page(&["a", "b"], None)));
    assert_eq!(action, json_get(&format!("{}a", CHECK)));
    assert_eq!(listing.phase(), EnumPhase::Checking);
    let (action, notice) = listing.step(EnumEvent::LiveDetails(vec![false]));
    assert_eq!(action, json_get(&format!("{}b", CHECK)));
    assert_eq!(notice, None);
    let (action, notice) = listing.step(EnumEvent::LiveDetails(vec![false]));
    assert_eq!(action, EnumAction::Done(vec![s("https://youtu.be/a"), s("https://youtu.be/b")]));
    assert_eq!(notice, None);
}

#[test]
fn live_streams_are_passed_over() {
    let mut listing = paging(false);
    listing.step(EnumEvent::Page(page(&["a", "b", "c"], None)));
    listing.step(EnumEvent::LiveDetails(vec![false]));
    let (action, notice) = listing.step(EnumEvent::LiveDetails(vec![true]));
    assert_eq!(action, json_get(&format!("{}c", CHECK)));
    assert_eq!(notice, None);
    let (action, _) = listing.step(EnumEvent::LiveDetails(vec![false, true]));
    assert_eq!(action, EnumAction::Done(vec![s("https://youtu.be/a"), s("https://youtu.be/c")]));
}

#[test]
fn one_failed_check_of_five_keeps_all_five() {
    let mut listing = paging(false);
    let (action, _) = listing.step(EnumEvent::Page(page(&["a", "b", "c", "d", "e"], None)));
    assert_eq!(action, json_get(&format!("{}a", CHECK)));
    let (action, notice) = listing.step(EnumEvent::LiveDetails(vec![false]));
    assert_eq!(action, json_get(&format!("{}b", CHECK)));
    assert_eq!(notice, None);
    let (action, notice) = listing.step(EnumEvent::LiveDetails(vec![false]));
    assert_eq!(action, json_get(&format!("{}c", CHECK)));
    assert_eq!(notice, None);
    let (action, notice) = listing.step(EnumEvent::Unreachable(s("timeout")));
    assert_eq!(action, json_get(&format!("{}d", CHECK)));
    assert_eq!(
        notice,
        Some(Failure::Transport(s(
            "There was an error requesting live stream details from video c! Error: timeout"
        )))
    );
    let (action, notice) = listing.step(EnumEvent::LiveDetails(vec![false]));
    assert_eq!(action, json_get(&format!("{}e", CHECK)));
    assert_eq!(notice, None);
    let (action, notice) = listing.step(EnumEvent::LiveDetails(vec![false]));
    assert_eq!(
        action,
        EnumAction::Done(vec![
            s("https://youtu.be/a"),
            s("https://youtu.be/b"),
            s("https://youtu.be/c"),
            s("https://youtu.be/d"),
            s("https://youtu.be/e"),
        ])
    );
    assert_eq!(notice, None);
}

#[test]
fn undecodable_check_keeps_the_video() {
    let mut listing = paging(false);
    listing.step(EnumEvent::Page(page(&["a"], None)));
    let (action, notice) = listing.step(EnumEvent::Undecodable(s("eof")));
    assert_eq!(action, EnumAction::Done(vec![s("https://youtu.be/a")]));
    assert_eq!(
        notice,
        Some(Failure::ParseFailure(s("There was an error parsing the video list! Error: eof")))
    );
}

#[test]
fn check_without_details_keeps_the_video() {
    let mut listing = paging(false);
    listing.step(EnumEvent::Page(page(&["a"], None)));
    let (action, notice) = listing.step(EnumEvent::LiveDetails(Vec::new()));
    assert_eq!(action, EnumAction::Done(vec![s("https://youtu.be/a")]));
    assert_eq!(
        notice,
        Some(Failure::Precondition(s("There were no live stream details to read for video a!")))
    );
}

#[test]
fn checked_pages_are_concatenated() {
    let mut listing = paging(false);
    listing.step(EnumEvent::Page(page(&["a", "b"], Some("T2"))));
    listing.step(EnumEvent::LiveDetails(vec![true]));
    let (action, _) = listing.step(EnumEvent::LiveDetails(vec![false]));
    assert_eq!(action, json_get(&format!("{}&pageToken=T2", SEARCH)));
    assert_eq!(listing.phase(), EnumPhase::Paging);
    let (action, _) = listing.step(EnumEvent::Page(page(&["c"], None)));
    assert_eq!(action, json_get(&format!("{}c", CHECK)));
    let (action, _) = listing.step(EnumEvent::LiveDetails(vec![false]));
    assert_eq!(action, EnumAction::Done(vec![s("https://youtu.be/b"), s("https://youtu.be/c")]));
}

#[test]
fn event_out_of_turn_ends_the_listing() {
    let mut listing = paging(true);
    let (action, notice) = listing.step(EnumEvent::LiveDetails(vec![false]));
    assert_eq!(
        action,
        EnumAction::Fail(Failure::Precondition(s(
            "This event does not answer the request that was asked for."
        )))
    );
    assert_eq!(notice, None);
    assert_eq!(listing.phase(), EnumPhase::Finished);
    let mut listing = paging(false);
    listing.step(EnumEvent::Page(page(&["a"], None)));
    let (action, _) = listing.step(EnumEvent::Page(page(&["b"], None)));
    assert!(matches!(action, EnumAction::Fail(Failure::Precondition(_))));
    let mut listing = paging(true);
    let (action, _) = listing.step(EnumEvent::Channels(vec![s("UC9")]));
    assert!(matches!(action, EnumAction::Fail(Failure::Precondition(_))));
}

#[test]
fn page_ids_are_those_of_the_videos() {
    let items = vec![
        video("a"),
        SearchItem { kind: s("channel"), video_id: Some(s("x")) },
        video("b"),
    ];
    assert_eq!(page_ids(&items), Some(vec![s("a"), s("b")]));
    assert_eq!(page_ids(&Vec::new()), Some(Vec::new()));
    let unsound = vec![SearchItem { kind: s("video"), video_id: None }];
    assert_eq!(page_ids(&unsound), None);
}

#[test]
fn urls_are_appended_in_order() {
    let mut videos = vec![s("https://youtu.be/z")];
    push_urls(&mut videos, &vec![s("a"), s("b")]);
    assert_eq!(videos, vec![s("https://youtu.be/z"), s("https://youtu.be/a"), s("https://youtu.be/b")]);
}
