//! What a run is asked to archive, and where each video goes.

use vstd::prelude::*;
use vstd::string::*;
use crate::cobalt::VideoParameters;
use crate::failure::{Failure, FailureModel};
use crate::text::{contains, find, index_of, join, join3, slice, texts, to_chars};
use crate::youtube::{
    get_id_from_url, is_video_url, no_video_message, video_id, well_formed_video_url,
};

verus! {

/// The pieces of `s` between the occurrences of `sep`, from left to right.
/// A text without `sep` is one piece; between two occurrences that touch,
/// and behind one at the end, stands an empty piece.
pub open spec fn split(s: Seq<char>, sep: Seq<char>) -> Seq<Seq<char>>
    decreases s.len(),
{
    let i = index_of(s, sep);
    if contains(s, sep) && sep.len() > 0 && 0 <= i && i + sep.len() <= s.len() {
        seq![s.take(i)] + split(s.skip(i + sep.len()), sep)
    } else {
        seq![s]
    }
}

/// What a run is asked to archive.
#[derive(Clone, Debug, PartialEq, Eq)]
pub enum Target {
    /// Each of these videos.
    Videos(Vec<String>),
    /// All videos of a channel.
    Channel,
    /// One video.
    Video,
}

/// What a run is asked to archive, as a mathematical value.
pub enum TargetView {
    Videos(Seq<Seq<char>>),
    Channel,
    Video,
}

impl View for Target {
    type V = TargetView;

    open spec fn view(&self) -> TargetView {
        match self {
            Target::Videos(v) => TargetView::Videos(texts(v@)),
            Target::Channel => TargetView::Channel,
            Target::Video => TargetView::Video,
        }
    }
}

/// What the address `url` asks for: with a comma in it, the videos that it
/// lists between the commas; else, with an `@` in it, a channel; else one
/// video.
pub open spec fn target_of(url: Seq<char>) -> TargetView {
    if contains(url, ","@) {
        TargetView::Videos(split(url, ","@))
    } else if contains(url, "@"@) {
        TargetView::Channel
    } else {
        TargetView::Video
    }
}

/// The pieces of `list` between its commas.
pub fn split_list(list: &str) -> (parts: Vec<String>)
    ensures
        texts(parts@) == split(list@, ","@),
{
    let s = to_chars(list);
    let n: usize = s.len();
    let comma = to_chars(",");
    proof {
        reveal_strlit(",");
    }
    let mut parts: Vec<String> = Vec::new();
    let mut from: usize = 0;
    assert(texts(parts@) =~= seq![]);
    assert(s@.skip(0) =~= s@);
    loop
        invariant
            s@ == list@,
            n == s@.len(),
            comma@ == ","@,
            ","@.len() == 1,
            from <= n,
            texts(parts@) + split(s@.skip(from as int), ","@) == split(s@, ","@),
        decreases n - from,
    {
        let rest = slice(&s, from, n);
        assert(rest@ =~= s@.skip(from as int));
        let ghost before = texts(parts@);
        match find(&rest, &comma) {
            Some(i) => {
                parts.push(String::from_str(list.substring_char(from, from + i)));
                assert(texts(parts@) =~= before.push(rest@.take(i as int))) by {
                    assert(list@.subrange(from as int, from + i) =~= rest@.take(i as int));
                }
                assert(s@.skip(from + i + 1) =~= rest@.skip(i + 1));
                assert(before.push(rest@.take(i as int)) + split(rest@.skip(i + 1), ","@)
                    =~= before + split(rest@, ","@));
                from = from + i + 1;
            },
            None => {
                parts.push(String::from_str(list.substring_char(from, n)));
                assert(list@.subrange(from as int, n as int) =~= rest@);
                assert(texts(parts@) =~= before.push(rest@));
                assert(before.push(rest@) =~= before + split(rest@, ","@));
                return parts;
            },
        }
    }
}

/// Tells what the address `url` asks for.
pub fn classify(url: &String) -> (target: Target)
    ensures
        target@ == target_of(url@),
{
    let s = to_chars(url.as_str());
    if find(&s, &to_chars(",")).is_some() {
        Target::Videos(split_list(url.as_str()))
    } else if find(&s, &to_chars("@")).is_some() {
        Target::Channel
    } else {
        Target::Video
    }
}

/// The directory below `dir` that holds what is archived of the video `id`.
pub open spec fn video_directory(dir: Seq<char>, id: Seq<char>) -> Seq<char> {
    dir + "/"@ + id
}

/// The file in the directory `dir` that holds a video in `codec`.
pub open spec fn video_filename(dir: Seq<char>, codec: Seq<char>) -> Seq<char> {
    dir + "/source_"@ + codec + ".mp4"@
}

/// The directory below `dir` for the video at `url`, named by the video's
/// identifier. An address from which no identifier can be read is refused.
pub fn directory_for(dir: &str, url: &String) -> (r: Result<String, Failure>)
    ensures
        match r {
            Ok(d) => well_formed_video_url(url@) && d@ == video_directory(dir@, video_id(url@)),
            Err(failure) => !well_formed_video_url(url@) && failure@ == FailureModel::Precondition(
                no_video_message(),
            ),
        },
{
    if !is_video_url(url) {
        return Err(
            Failure::Precondition(String::from_str("Make sure to provide a valid YouTube URL!")),
        );
    }
    let id = get_id_from_url(url);
    Ok(join3(dir, "/", id.as_str()))
}

/// What to get for the video at `url`, to be stored in the directory `dir`:
/// the video in the codec `h264`.
pub fn video_parameters<'a>(url: &'a String, dir: &str) -> (params: VideoParameters<'a>)
    ensures
        params.url@ == url@,
        params.video_codec@ == "h264"@,
        params.filename@ == video_filename(dir@, "h264"@),
{
    let filename = join(join3(dir, "/source_", "h264").as_str(), ".mp4");
    VideoParameters { url, video_codec: String::from_str("h264"), filename }
}

} // verus!
