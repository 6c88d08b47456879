//! Describing a video: what to ask the metadata service, and what to store
//! of its answer.

use vstd::prelude::*;
use vstd::string::*;
use crate::failure::{Failure, FailureModel};
use crate::http::{GetRequest, GetRequestView};
use crate::text::{join, join3, texts};
use crate::youtube::{
    get_id_from_url, is_video_url, make_metadata_url, metadata_url, no_video_message, video_id,
    well_formed_video_url, MetadataParameters,
};

verus! {

/// The addresses of the thumbnails of a video, by size; a size that
/// the video lacks has none.
#[derive(Clone, Debug, PartialEq, Eq)]
pub struct ThumbnailsResponse {
    pub default: Option<String>,
    pub medium: Option<String>,
    pub high: Option<String>,
    pub standard: Option<String>,
    pub maxres: Option<String>,
}

/// What the metadata service tells about a video.
#[derive(Clone, Debug, PartialEq, Eq)]
pub struct SnippetResponse {
    pub published_at: String,
    pub title: String,
    pub description: String,
    pub thumbnails: ThumbnailsResponse,
    pub channel_title: String,
    pub tags: Option<Vec<String>>,
}

/// One video in an answer of the metadata service.
#[derive(Clone, Debug, PartialEq, Eq)]
pub struct ItemResponse {
    pub id: String,
    pub snippet: SnippetResponse,
}

/// An answer of the metadata service.
#[derive(Clone, Debug, PartialEq, Eq)]
pub struct YouTubeResponse {
    pub items: Vec<ItemResponse>,
}

/// What is stored of a video's description.
#[derive(Clone, Debug, PartialEq, Eq)]
pub struct ArchivedMetadata {
    pub id: String,
    pub title: String,
    pub description: String,
    pub creator: String,
    pub publish_date: String,
    pub tags: Vec<String>,
}

/// A thumbnail to fetch, and the file to store it in.
#[derive(Clone, Debug, PartialEq, Eq)]
pub struct ThumbnailParameters {
    pub url: String,
    pub filename: String,
}

/// All that is stored for a video besides the video itself.
#[derive(Clone, Debug, PartialEq, Eq)]
pub struct MetadataPlan {
    /// The description to store.
    pub record: ArchivedMetadata,
    /// The file to store the description in.
    pub filename: String,
    /// The thumbnails to fetch and store, in this order.
    pub thumbnails: Vec<ThumbnailParameters>,
}

/// The tags of a video, where it has any.
pub open spec fn tags_of(tags: Option<Vec<String>>) -> Seq<Seq<char>> {
    match tags {
        Some(t) => texts(t@),
        None => seq![],
    }
}

/// Whether `record` is what is stored of `item`: every part is taken over
/// unchanged, and a video without tags has an empty list of tags.
pub open spec fn records(record: ArchivedMetadata, item: ItemResponse) -> bool {
    &&& record.id@ == item.id@
    &&& record.title@ == item.snippet.title@
    &&& record.description@ == item.snippet.description@
    &&& record.creator@ == item.snippet.channel_title@
    &&& record.publish_date@ == item.snippet.published_at@
    &&& texts(record.tags@) == tags_of(item.snippet.tags)
}

/// The file in the directory `dir` that holds a video's description.
pub open spec fn metadata_filename(dir: Seq<char>) -> Seq<char> {
    dir + "/meta.json"@
}

/// The file in the directory `dir` that holds the thumbnail of the
/// size `variant`.
pub open spec fn thumbnail_filename(dir: Seq<char>, variant: Seq<char>) -> Seq<char> {
    dir + "/thumb_"@ + variant + ".jpg"@
}

/// The thumbnail of the size `variant`, where the video has one: its
/// address and the file to store it in.
pub open spec fn variant_target(dir: Seq<char>, variant: Seq<char>, url: Option<String>) -> Seq<
    (Seq<char>, Seq<char>),
> {
    match url {
        Some(u) => seq![(u@, thumbnail_filename(dir, variant))],
        None => seq![],
    }
}

/// The thumbnails to fetch for a video: those it has, from the
/// smallest size to the largest.
pub open spec fn thumbnail_targets(dir: Seq<char>, thumbnails: ThumbnailsResponse) -> Seq<
    (Seq<char>, Seq<char>),
> {
    variant_target(dir, "default"@, thumbnails.default) + variant_target(
        dir,
        "medium"@,
        thumbnails.medium,
    ) + variant_target(dir, "high"@, thumbnails.high) + variant_target(
        dir,
        "standard"@,
        thumbnails.standard,
    ) + variant_target(dir, "maxres"@, thumbnails.maxres)
}

/// The addresses and file names in `targets`, as characters.
pub open spec fn target_texts(targets: Seq<ThumbnailParameters>) -> Seq<(Seq<char>, Seq<char>)> {
    Seq::new(targets.len(), |i: int| (targets[i].url@, targets[i].filename@))
}

/// The message for an answer that describes no video.
pub open spec fn no_items_message() -> Seq<char> {
    "YouTube API Response had no metadata items! Maybe try again later?"@
}

/// The request for the description of the video that `params` names, at the
/// metadata service `api`. An address from which no identifier can be read
/// is refused.
pub fn metadata_request(params: &MetadataParameters<'_>, api: &str) -> (r: Result<
    GetRequest,
    Failure,
>)
    ensures
        match r {
            Ok(request) => {
                &&& well_formed_video_url(params.url@)
                &&& request@ == GetRequestView::json(metadata_url(api@, video_id(params.url@)))
            },
            Err(failure) => {
                &&& !well_formed_video_url(params.url@)
                &&& failure@ == FailureModel::Precondition(no_video_message())
            },
        },
{
    if !is_video_url(params.url) {
        return Err(
            Failure::Precondition(String::from_str("Make sure to provide a valid YouTube URL!")),
        );
    }
    let id = get_id_from_url(params.url);
    Ok(
        GetRequest {
            url: make_metadata_url(api, id.as_str()),
            accept: Some(String::from_str("application/json")),
        },
    )
}

/// Appends the thumbnail of the size `variant` to `targets`, where the
/// video has one.
fn push_variant(
    targets: &mut Vec<ThumbnailParameters>,
    dir: &str,
    variant: &str,
    url: Option<String>,
)
    ensures
        target_texts(final(targets)@) == target_texts(old(targets)@) + variant_target(
            dir@,
            variant@,
            url,
        ),
{
    match url {
        Some(u) => {
            let filename = join(join3(dir, "/thumb_", variant).as_str(), ".jpg");
            targets.push(ThumbnailParameters { url: u, filename });
            assert(target_texts(targets@) =~= target_texts(old(targets)@) + variant_target(
                dir@,
                variant@,
                url,
            ));
        },
        None => {
            assert(target_texts(targets@) =~= target_texts(old(targets)@) + variant_target(
                dir@,
                variant@,
                url,
            ));
        },
    }
}

/// What is to be stored for the video that `response` describes, in the
/// directory `dir`: the description of the first video in the answer, and
/// the thumbnails that it has. An answer that describes no video is
/// refused.
pub fn plan_metadata(response: YouTubeResponse, dir: &str) -> (r: Result<MetadataPlan, Failure>)
    ensures
        match r {
            Ok(plan) => {
                &&& response.items@.len() > 0
                &&& records(plan.record, response.items@[0])
                &&& plan.filename@ == metadata_filename(dir@)
                &&& target_texts(plan.thumbnails@) == thumbnail_targets(
                    dir@,
                    response.items@[0].snippet.thumbnails,
                )
            },
            Err(failure) => {
                &&& response.items@.len() == 0
                &&& failure@ == FailureModel::Precondition(no_items_message())
            },
        },
{
    let mut items = response.items;
    if items.len() == 0 {
        return Err(
            Failure::Precondition(
                String::from_str(
                    "YouTube API Response had no metadata items! Maybe try again later?",
                ),
            ),
        );
    }
    let item = items.remove(0);
    let snippet = item.snippet;
    let tags = match snippet.tags {
        Some(t) => t,
        None => {
            let none: Vec<String> = Vec::new();
            assert(texts(none@) =~= seq![]);
            none
        },
    };
    let record = ArchivedMetadata {
        id: item.id,
        title: snippet.title,
        description: snippet.description,
        creator: snippet.channel_title,
        publish_date: snippet.published_at,
        tags,
    };
    let mut thumbnails: Vec<ThumbnailParameters> = Vec::new();
    assert(target_texts(thumbnails@) =~= seq![]);
    push_variant(&mut thumbnails, dir, "default", snippet.thumbnails.default);
    push_variant(&mut thumbnails, dir, "medium", snippet.thumbnails.medium);
    push_variant(&mut thumbnails, dir, "high", snippet.thumbnails.high);
    push_variant(&mut thumbnails, dir, "standard", snippet.thumbnails.standard);
    push_variant(&mut thumbnails, dir, "maxres", snippet.thumbnails.maxres);
    assert(target_texts(thumbnails@) =~= thumbnail_targets(
        dir@,
        response.items@[0].snippet.thumbnails,
    ));
    Ok(MetadataPlan { record, filename: join(dir, "/meta.json"), thumbnails })
}

/// The failure of a description that could not be requested; `detail` says
/// why.
pub fn metadata_unreachable(detail: &str) -> (f: Failure)
    ensures
        f@ == FailureModel::Transport("Error while getting metadata! Error: "@ + detail@),
{
    Failure::Transport(join("Error while getting metadata! Error: ", detail))
}

/// The failure of a description that is not the expected JSON; `detail` says
/// why, and `contents` is what came instead.
pub fn metadata_undecodable(detail: &str, contents: &str) -> (f: Failure)
    ensures
        f@ == FailureModel::ParseFailure(
            "Error while parsing metadata! Error: "@ + detail@ + ", Data: "@ + contents@,
        ),
{
    let head = join("Error while parsing metadata! Error: ", detail);
    Failure::ParseFailure(join3(head.as_str(), ", Data: ", contents))
}

/// The failure of a thumbnail that could not be fetched from `url`;
/// `detail` says why.
pub fn thumbnail_unreachable(url: &str, detail: &str) -> (f: Failure)
    ensures
        f@ == FailureModel::Transport("Failed to request "@ + url@ + "! Error: "@ + detail@),
{
    let head = join("Failed to request ", url);
    Failure::Transport(join3(head.as_str(), "! Error: ", detail))
}

} // verus!
