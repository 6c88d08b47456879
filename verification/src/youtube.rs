//! Identifiers read out of video and channel addresses.

use vstd::prelude::*;
use vstd::string::*;
use crate::text::{
    after_first, before_first, contains, find, first_at, from_first, has_prefix, index_of,
    join, join3, lemma_index_of_first, lemma_index_of_is, lemma_occurs_at_char, matches_at,
    occurs_at, slice, to_chars,
};

verus! {

/// The part of a video address that is searched for the identifier: from the
/// first `youtu` on, without a time marker `?t=...` and what follows it.
pub open spec fn video_tail(url: Seq<char>) -> Seq<char> {
    before_first(from_first(url, "youtu"@), "?t="@)
}

/// Whether `tail` is of the long form, `youtube.com/watch?v=<id>`.
pub open spec fn is_watch_form(tail: Seq<char>) -> bool {
    has_prefix(tail, "youtube.com/watch?v="@)
}

/// A short-form tail without its query string, if it has one.
pub open spec fn short_path(tail: Seq<char>) -> Seq<char> {
    before_first(tail, "?"@)
}

/// Whether `url` is an address from which a video identifier can be read: it
/// holds `youtu`, and what follows is either the long form or holds the `/`
/// that precedes the identifier in the short form.
pub open spec fn well_formed_video_url(url: Seq<char>) -> bool {
    contains(url, "youtu"@) && (is_watch_form(video_tail(url)) || contains(
        short_path(video_tail(url)),
        "/"@,
    ))
}

/// The identifier of the video that `url` addresses. In the long form it is
/// all that follows the first `=`; in the short form, all that follows the
/// first `/`, the query string left out.
pub open spec fn video_id(url: Seq<char>) -> Seq<char> {
    let tail = video_tail(url);
    if is_watch_form(tail) {
        after_first(tail, "="@)
    } else {
        after_first(short_path(tail), "/"@)
    }
}

/// The message for a video address from which no identifier can be read.
pub open spec fn no_video_message() -> Seq<char> {
    "Make sure to provide a valid YouTube URL!"@
}

/// The message for a channel address without a handle.
pub open spec fn no_handle_message() -> Seq<char> {
    "Make sure to provide a valid YouTube Channel URL!"@
}

/// Whether `url` names a channel by its handle: it holds an `@`.
pub open spec fn well_formed_channel_url(url: Seq<char>) -> bool {
    contains(url, "@"@)
}

/// The handle that `url` names: all that follows the first `@`.
pub open spec fn channel_handle(url: Seq<char>) -> Seq<char> {
    after_first(url, "@"@)
}

/// A tail of the long form holds an `=`.
pub proof fn lemma_watch_form_has_equals(tail: Seq<char>)
    requires
        is_watch_form(tail),
    ensures
        contains(tail, "="@),
{
    reveal_strlit("youtube.com/watch?v=");
    reveal_strlit("=");
    let w = "youtube.com/watch?v="@;
    assert(tail.subrange(0, 20)[19] == w[19]);
    assert(tail.subrange(19, 20) =~= "="@);
    assert(occurs_at(tail, "="@, 19));
}

/// Whether `tail` is `youtu.be/`, then `id`, then nothing more or a `?` and
/// anything.
spec fn short_shape(tail: Seq<char>, id: Seq<char>) -> bool {
    let head = "youtu.be/"@ + id;
    &&& tail.len() >= head.len()
    &&& tail.take(head.len() as int) == head
    &&& tail.len() > head.len() ==> tail[head.len() as int] == '?'
}

/// Cutting a short-form tail at its first `?t=` leaves a short-form tail.
proof fn lemma_short_shape_cut(tail: Seq<char>, id: Seq<char>)
    requires
        short_shape(tail, id),
        !id.contains('?'),
    ensures
        short_shape(before_first(tail, "?t="@), id),
{
    reveal_strlit("youtu.be/");
    reveal_strlit("?t=");
    let head = "youtu.be/"@ + id;
    let h = head.len() as int;
    if contains(tail, "?t="@) {
        lemma_index_of_first(tail, "?t="@);
        let p = index_of(tail, "?t="@);
        assert(tail.subrange(p, p + 3)[0] == '?');
        if p < h {
            assert(tail.take(h)[p] == head[p]);
            if p >= 9 {
                assert(id.contains(id[p - 9]));
            }
        }
        let cut = tail.take(p);
        assert(cut.take(h) =~= tail.take(h));
    }
}

/// The identifier of a short-form tail is what stands between `youtu.be/`
/// and the query string.
proof fn lemma_short_shape_id(tail: Seq<char>, id: Seq<char>)
    requires
        short_shape(tail, id),
        !id.contains('?'),
    ensures
        !is_watch_form(tail),
        short_path(tail) == "youtu.be/"@ + id,
        contains(short_path(tail), "/"@),
        after_first(short_path(tail), "/"@) == id,
{
    reveal_strlit("youtu.be/");
    reveal_strlit("youtube.com/watch?v=");
    reveal_strlit("?");
    reveal_strlit("/");
    let head = "youtu.be/"@ + id;
    let h = head.len() as int;
    assert(tail.take(h)[5] == head[5]);
    if is_watch_form(tail) {
        assert(tail.subrange(0, 20)[5] == 'b');
    }
    assert("?"@ =~= seq!['?']);
    assert("/"@ =~= seq!['/']);
    assert forall|j: int| 0 <= j < h implies !occurs_at(tail, "?"@, j) by {
        lemma_occurs_at_char(tail, '?', j);
        assert(tail.take(h)[j] == head[j]);
        if j >= 9 {
            assert(id.contains(id[j - 9]));
        }
    }
    if tail.len() > h {
        lemma_occurs_at_char(tail, '?', h);
        lemma_index_of_is(tail, "?"@, h);
    } else {
        assert forall|j: int| !occurs_at(tail, "?"@, j) by {
            lemma_occurs_at_char(tail, '?', j);
        }
        assert(tail.take(h) =~= tail);
    }
    let path = short_path(tail);
    assert(path == head);
    assert forall|j: int| 0 <= j < 8 implies !occurs_at(path, "/"@, j) by {
        lemma_occurs_at_char(path, '/', j);
    }
    lemma_occurs_at_char(path, '/', 8);
    lemma_index_of_is(path, "/"@, 8);
    assert(path.skip(9) =~= id);
}

/// For every address `https://youtu.be/<id>`, with or without a query string
/// `?<suffix>` behind it, the identifier read is exactly `<id>`.
pub proof fn lemma_short_form_id(id: Seq<char>, suffix: Seq<char>)
    requires
        !id.contains('?'),
    ensures
        well_formed_video_url("https://youtu.be/"@ + id),
        video_id("https://youtu.be/"@ + id) == id,
        well_formed_video_url("https://youtu.be/"@ + id + "?"@ + suffix),
        video_id("https://youtu.be/"@ + id + "?"@ + suffix) == id,
{
    reveal_strlit("https://youtu.be/");
    reveal_strlit("youtu.be/");
    reveal_strlit("youtu");
    reveal_strlit("?");
    let plain = "https://youtu.be/"@ + id;
    let query = "https://youtu.be/"@ + id + "?"@ + suffix;
    assert(plain.subrange(0, 17) =~= "https://youtu.be/"@);
    assert(query.subrange(0, 17) =~= "https://youtu.be/"@);
    lemma_short_start(plain);
    lemma_short_start(query);
    let head = "youtu.be/"@ + id;
    let h = head.len() as int;
    assert(plain.skip(8) =~= head);
    assert(plain.skip(8).take(h) =~= head);
    assert(query.skip(8).take(h) =~= head);
    assert(query.skip(8)[h] == '?');
    lemma_short_shape_cut(plain.skip(8), id);
    lemma_short_shape_cut(query.skip(8), id);
    lemma_short_shape_id(video_tail(plain), id);
    lemma_short_shape_id(video_tail(query), id);
}

/// In an address that begins with `https://youtu.be/`, the first `youtu`
/// stands behind the scheme.
proof fn lemma_short_start(url: Seq<char>)
    requires
        has_prefix(url, "https://youtu.be/"@),
    ensures
        first_at(url, "youtu"@, 8),
        contains(url, "youtu"@),
        index_of(url, "youtu"@) == 8,
{
    reveal_strlit("https://youtu.be/");
    reveal_strlit("youtu");
    let p = "https://youtu.be/"@;
    assert forall|k: int| 0 <= k < 17 implies url[k] == p[k] by {
        assert(url.subrange(0, 17)[k] == p[k]);
    }
    assert(url.subrange(8, 13) =~= "youtu"@);
    assert forall|j: int| 0 <= j < 8 implies !occurs_at(url, "youtu"@, j) by {
        if occurs_at(url, "youtu"@, j) {
            assert(url.subrange(j, j + 5)[0] == 'y');
        }
    }
    lemma_index_of_is(url, "youtu"@, 8);
}

/// For every address `https://www.youtube.com/watch?v=<id>` that ends with
/// the identifier, the identifier read is exactly `<id>`.
pub proof fn lemma_long_form_id(id: Seq<char>)
    requires
        !id.contains('&'),
        !contains(id, "?t="@),
    ensures
        well_formed_video_url("https://www.youtube.com/watch?v="@ + id),
        video_id("https://www.youtube.com/watch?v="@ + id) == id,
{
    reveal_strlit("https://www.youtube.com/watch?v=");
    reveal_strlit("youtube.com/watch?v=");
    reveal_strlit("youtu");
    reveal_strlit("?t=");
    reveal_strlit("=");
    let url = "https://www.youtube.com/watch?v="@ + id;
    let watch = "youtube.com/watch?v="@;
    assert(url.subrange(12, 17) =~= "youtu"@);
    assert forall|j: int| 0 <= j < 12 implies !occurs_at(url, "youtu"@, j) by {
        if occurs_at(url, "youtu"@, j) {
            assert(url.subrange(j, j + 5)[0] == 'y');
        }
    }
    lemma_index_of_is(url, "youtu"@, 12);
    let rest = url.skip(12);
    assert(rest =~= watch + id);
    assert forall|p: int| !occurs_at(rest, "?t="@, p) by {
        if occurs_at(rest, "?t="@, p) {
            assert(rest.subrange(p, p + 3)[0] == '?');
            assert(rest.subrange(p, p + 3)[1] == 't');
            if p >= 20 {
                assert(id.subrange(p - 20, p - 17) =~= rest.subrange(p, p + 3));
                assert(occurs_at(id, "?t="@, p - 20));
            }
        }
    }
    assert(video_tail(url) == rest);
    assert(rest.subrange(0, 20) =~= watch);
    assert("="@ =~= seq!['=']);
    assert forall|j: int| 0 <= j < 19 implies !occurs_at(rest, "="@, j) by {
        lemma_occurs_at_char(rest, '=', j);
    }
    lemma_occurs_at_char(rest, '=', 19);
    lemma_index_of_is(rest, "="@, 19);
    assert(rest.skip(20) =~= id);
}

/// For every address made of a part without `@`, then `@` and a handle, the
/// handle read is exactly that handle.
pub proof fn lemma_handle_after_at(base: Seq<char>, handle: Seq<char>)
    requires
        !base.contains('@'),
    ensures
        well_formed_channel_url(base + "@"@ + handle),
        channel_handle(base + "@"@ + handle) == handle,
{
    reveal_strlit("@");
    let url = base + "@"@ + handle;
    let b = base.len() as int;
    assert("@"@ =~= seq!['@']);
    assert forall|j: int| 0 <= j < b implies !occurs_at(url, "@"@, j) by {
        lemma_occurs_at_char(url, '@', j);
        assert(base.contains(base[j]));
    }
    lemma_occurs_at_char(url, '@', b);
    lemma_index_of_is(url, "@"@, b);
    assert(url.skip(b + 1) =~= handle);
}

/// Where in `url` its video identifier stands, as a range of character
/// positions, if `url` is well formed.
fn id_span(url: &str) -> (r: Option<(usize, usize)>)
    ensures
        r.is_some() == well_formed_video_url(url@),
        match r {
            Some((a, b)) => a <= b <= url@.len() && url@.subrange(a as int, b as int) == video_id(
                url@,
            ),
            None => true,
        },
{
    let s = to_chars(url);
    let n: usize = s.len();
    let start: usize = match find(&s, &to_chars("youtu")) {
        Some(i) => i,
        None => { return None; },
    };
    let rest = slice(&s, start, n);
    assert(rest@ =~= from_first(url@, "youtu"@));
    let end: usize = match find(&rest, &to_chars("?t=")) {
        Some(j) => start + j,
        None => n,
    };
    let tail = slice(&s, start, end);
    assert(tail@ =~= video_tail(url@));
    if matches_at(&tail, &to_chars("youtube.com/watch?v="), 0) {
        proof {
            lemma_watch_form_has_equals(tail@);
        }
        match find(&tail, &to_chars("=")) {
            Some(e) => {
                assert(url@.subrange(start + e + 1, end as int) =~= after_first(tail@, "="@)) by {
                    reveal_strlit("=");
                }
                assert(start + e + 1 <= end) by {
                    reveal_strlit("=");
                }
                Some((start + e + 1, end))
            },
            None => None,
        }
    } else {
        let stop: usize = match find(&tail, &to_chars("?")) {
            Some(q) => start + q,
            None => end,
        };
        let path = slice(&s, start, stop);
        assert(path@ =~= short_path(tail@));
        match find(&path, &to_chars("/")) {
            Some(k) => {
                assert(url@.subrange(start + k + 1, stop as int) =~= after_first(path@, "/"@)) by {
                    reveal_strlit("/");
                }
                assert(start + k + 1 <= stop) by {
                    reveal_strlit("/");
                }
                Some((start + k + 1, stop))
            },
            None => None,
        }
    }
}

/// Tells whether a video identifier can be read from `url`.
pub fn is_video_url(url: &String) -> (r: bool)
    ensures
        r == well_formed_video_url(url@),
{
    id_span(url.as_str()).is_some()
}

/// The identifier of the video that `input_url` addresses.
pub fn get_id_from_url(input_url: &String) -> (id: String)
    requires
        well_formed_video_url(input_url@),
    ensures
        id@ == video_id(input_url@),
{
    match id_span(input_url.as_str()) {
        Some((a, b)) => String::from_str(input_url.as_str().substring_char(a, b)),
        None => String::new(),
    }
}

/// Tells whether `url` names a channel by its handle.
pub fn is_channel_url(url: &String) -> (r: bool)
    ensures
        r == well_formed_channel_url(url@),
{
    let s = to_chars(url.as_str());
    find(&s, &to_chars("@")).is_some()
}

/// The handle of the channel that `url` names.
pub fn get_channel_handle_from_url(url: &String) -> (handle: String)
    requires
        well_formed_channel_url(url@),
    ensures
        handle@ == channel_handle(url@),
{
    let s = to_chars(url.as_str());
    let n: usize = s.len();
    match find(&s, &to_chars("@")) {
        Some(i) => {
            proof {
                reveal_strlit("@");
            }
            assert(url@.subrange(i + 1, n as int) =~= channel_handle(url@));
            String::from_str(url.as_str().substring_char(i + 1, n))
        },
        None => String::new(),
    }
}

/// Which video's metadata to fetch, and the directory to store it in.
#[derive(Debug)]
pub struct MetadataParameters<'a> {
    pub url: &'a String,
    pub dir: &'a String,
}

/// Which channel to list, through which metadata service, and whether
/// streams and premieres count as videos.
pub struct ChannelRequest<'a> {
    pub url: &'a String,
    pub api: String,
    pub include_streams_and_premieres: bool,
}

/// The short address of the video `id`.
pub open spec fn video_url(id: Seq<char>) -> Seq<char> {
    "https://youtu.be/"@ + id
}

/// Where the metadata service at `api` tells the identifier of the channel
/// with the handle `handle`.
pub open spec fn channel_lookup_url(api: Seq<char>, handle: Seq<char>) -> Seq<char> {
    api + "/noKey/channels?part=id&forHandle=@"@ + handle
}

/// Where the metadata service at `api` lists the videos of the channel
/// `channel_id`, newest first and fifty to a page: the first page, or the
/// page that `page_token` names.
pub open spec fn search_url(
    api: Seq<char>,
    channel_id: Seq<char>,
    page_token: Option<Seq<char>>,
) -> Seq<char> {
    let first = api + "/noKey/search?part=snippet,id&order=date&type=video&maxResults=50&channelId="@
        + channel_id;
    match page_token {
        Some(token) => first + "&pageToken="@ + token,
        None => first,
    }
}

/// Where the metadata service at `api` tells whether the video `id` is or
/// was a live stream.
pub open spec fn live_check_url(api: Seq<char>, id: Seq<char>) -> Seq<char> {
    api + "/noKey/videos?part=liveStreamingDetails&id="@ + id
}

/// Where the metadata service at `api` describes the video `id`.
pub open spec fn metadata_url(api: Seq<char>, id: Seq<char>) -> Seq<char> {
    api + "/noKey/videos?part=snippet&id="@ + id
}

/// The short address of the video `id`.
pub fn make_video_url(id: &str) -> (url: String)
    ensures
        url@ == video_url(id@),
{
    join("https://youtu.be/", id)
}

/// The address of the channel lookup for `handle` at `api`.
pub fn make_channel_lookup_url(api: &str, handle: &str) -> (url: String)
    ensures
        url@ == channel_lookup_url(api@, handle@),
{
    join3(api, "/noKey/channels?part=id&forHandle=@", handle)
}

/// The address of a page of the video list of `channel_id` at `api`.
pub fn make_search_url(api: &str, channel_id: &str, page_token: &Option<String>) -> (url: String)
    ensures
        url@ == search_url(api@, channel_id@, crate::http::text_of(*page_token)),
{
    let first = join3(
        api,
        "/noKey/search?part=snippet,id&order=date&type=video&maxResults=50&channelId=",
        channel_id,
    );
    match page_token {
        Some(token) => join3(first.as_str(), "&pageToken=", token.as_str()),
        None => first,
    }
}

/// The address of the live stream check for the video `id` at `api`.
pub fn make_live_check_url(api: &str, id: &str) -> (url: String)
    ensures
        url@ == live_check_url(api@, id@),
{
    join3(api, "/noKey/videos?part=liveStreamingDetails&id=", id)
}

/// The address of the description of the video `id` at `api`.
pub fn make_metadata_url(api: &str, id: &str) -> (url: String)
    ensures
        url@ == metadata_url(api@, id@),
{
    join3(api, "/noKey/videos?part=snippet&id=", id)
}

} // verus!
