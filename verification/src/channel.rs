//! Listing the videos of a channel.
//!
//! The channel's identifier is looked up by its handle, then the video list
//! is read page by page. Where streams and premieres are not wanted, each
//! video of a page is checked before it is taken. Which request comes next
//! and what each answer leads to is decided here; sending the requests and
//! decoding the answers is the caller's part.

use vstd::prelude::*;
use vstd::string::*;
use crate::failure::{Failure, FailureModel};
use crate::http::{GetRequest, GetRequestView};
use crate::text::{join, join3, texts};
use crate::youtube::{
    channel_handle, channel_lookup_url, get_channel_handle_from_url, is_channel_url,
    live_check_url, make_channel_lookup_url, make_live_check_url, make_search_url,
    make_video_url, no_handle_message, search_url, video_url, well_formed_channel_url,
    ChannelRequest,
};

verus! {

/// One entry of a page of the video list.
#[derive(Clone, Debug, PartialEq, Eq)]
pub struct SearchItem {
    /// What the entry is; a video is marked `video`.
    pub kind: String,
    /// The identifier of the video, where the entry is one.
    pub video_id: Option<String>,
}

/// One page of the video list.
#[derive(Clone, Debug, PartialEq, Eq)]
pub struct SearchPage {
    pub items: Vec<SearchItem>,
    /// The name of the page that follows, if one does.
    pub next_page_token: Option<String>,
}

/// An entry of a page as a mathematical value.
pub struct SearchItemView {
    pub kind: Seq<char>,
    pub video_id: Option<Seq<char>>,
}

/// A page as a mathematical value.
pub struct SearchPageView {
    pub items: Seq<SearchItemView>,
    pub next_page_token: Option<Seq<char>>,
}

impl View for SearchItem {
    type V = SearchItemView;

    open spec fn view(&self) -> SearchItemView {
        SearchItemView { kind: self.kind@, video_id: crate::http::text_of(self.video_id) }
    }
}

/// The entries in `items` as mathematical values.
pub open spec fn item_views(items: Seq<SearchItem>) -> Seq<SearchItemView> {
    Seq::new(items.len(), |i: int| items[i]@)
}

impl View for SearchPage {
    type V = SearchPageView;

    open spec fn view(&self) -> SearchPageView {
        SearchPageView {
            items: item_views(self.items@),
            next_page_token: crate::http::text_of(self.next_page_token),
        }
    }
}

/// Whether `item` is marked as a video.
pub open spec fn is_video(item: SearchItemView) -> bool {
    item.kind == "video"@
}

/// Whether every entry of `items` that is marked as a video names one.
pub open spec fn page_is_sound(items: Seq<SearchItemView>) -> bool {
    forall|i: int| 0 <= i < items.len() && is_video(#[trigger] items[i]) ==> items[i].video_id is Some
}

/// The identifiers of the videos among `items`, in the order of the page.
/// Entries that are not marked as videos are passed over.
pub open spec fn candidates(items: Seq<SearchItemView>) -> Seq<Seq<char>>
    decreases items.len(),
{
    if items.len() == 0 {
        seq![]
    } else {
        let before = candidates(items.drop_last());
        let last = items.last();
        if is_video(last) && last.video_id is Some {
            before.push(last.video_id->0)
        } else {
            before
        }
    }
}

/// The short addresses of the videos `ids`, in the same order.
pub open spec fn urls(ids: Seq<Seq<char>>) -> Seq<Seq<char>> {
    Seq::new(ids.len(), |i: int| video_url(ids[i]))
}

/// The identifiers of the videos on a page, if the page is sound.
pub fn page_ids(items: &Vec<SearchItem>) -> (r: Option<Vec<String>>)
    ensures
        r.is_some() == page_is_sound(item_views(items@)),
        match r {
            Some(ids) => texts(ids@) == candidates(item_views(items@)),
            None => true,
        },
{
    let ghost all = item_views(items@);
    let video = String::from_str("video");
    let mut ids: Vec<String> = Vec::new();
    let mut k: usize = 0;
    assert(texts(ids@) =~= candidates(all.take(0)));
    while k < items.len()
        invariant
            k <= items@.len(),
            all == item_views(items@),
            video@ == "video"@,
            page_is_sound(all.take(k as int)),
            texts(ids@) == candidates(all.take(k as int)),
        decreases items@.len() - k,
    {
        let item = &items[k];
        let ghost upto = all.take(k + 1);
        assert(upto.drop_last() =~= all.take(k as int));
        assert(upto.last() == item@);
        if item.kind == video {
            match &item.video_id {
                Some(id) => {
                    let ghost before = texts(ids@);
                    ids.push(id.clone());
                    assert(texts(ids@) =~= before.push(id@));
                },
                None => {
                    assert(is_video(all[k as int]));
                    return None;
                },
            }
        }
        assert forall|i: int| 0 <= i < upto.len() && is_video(#[trigger] upto[i]) implies upto[i].video_id is Some by {
            if i < k {
                assert(upto[i] == all.take(k as int)[i]);
            }
        }
        k += 1;
    }
    assert(all.take(k as int) =~= all);
    Some(ids)
}

/// Appends the short addresses of the videos `ids` to `videos`.
pub fn push_urls(videos: &mut Vec<String>, ids: &Vec<String>)
    ensures
        texts(final(videos)@) == texts(old(videos)@) + urls(texts(ids@)),
{
    let mut k: usize = 0;
    assert(texts(videos@) =~= texts(old(videos)@) + urls(texts(ids@)).take(0));
    while k < ids.len()
        invariant
            k <= ids@.len(),
            texts(videos@) == texts(old(videos)@) + urls(texts(ids@)).take(k as int),
        decreases ids@.len() - k,
    {
        let ghost before = texts(videos@);
        videos.push(make_video_url(ids[k].as_str()));
        assert(texts(videos@) =~= before.push(video_url(ids@[k as int]@)));
        assert(texts(videos@) =~= texts(old(videos)@) + urls(texts(ids@)).take(k + 1));
        k += 1;
    }
    assert(urls(texts(ids@)).take(k as int) =~= urls(texts(ids@)));
}

/// How far the listing of a channel has come.
#[derive(Clone, Copy, Debug, PartialEq, Eq, Structural)]
pub enum EnumPhase {
    /// The channel's identifier is awaited.
    Resolving,
    /// A page of the video list is awaited.
    Paging,
    /// The live stream check of the first video in waiting is awaited.
    Checking,
    /// The listing has succeeded or failed; nothing more is awaited.
    Finished,
}

/// What happened to the request that was last asked for.
#[derive(Clone, Debug, PartialEq, Eq)]
pub enum EnumEvent {
    /// The request did not get through; the text says why.
    Unreachable(String),
    /// The answer was not the expected JSON; the text says why.
    Undecodable(String),
    /// The channel lookup answered with these channel identifiers.
    Channels(Vec<String>),
    /// The video list answered with this page.
    Page(SearchPage),
    /// The live stream check answered: for each video in the answer, whether
    /// it carries live streaming details.
    LiveDetails(Vec<bool>),
}

/// An event as a mathematical value.
pub enum EnumEventView {
    Unreachable(Seq<char>),
    Undecodable(Seq<char>),
    Channels(Seq<Seq<char>>),
    Page(SearchPageView),
    LiveDetails(Seq<bool>),
}

impl View for EnumEvent {
    type V = EnumEventView;

    open spec fn view(&self) -> EnumEventView {
        match self {
            EnumEvent::Unreachable(s) => EnumEventView::Unreachable(s@),
            EnumEvent::Undecodable(s) => EnumEventView::Undecodable(s@),
            EnumEvent::Channels(ids) => EnumEventView::Channels(texts(ids@)),
            EnumEvent::Page(page) => EnumEventView::Page(page@),
            EnumEvent::LiveDetails(flags) => EnumEventView::LiveDetails(flags@),
        }
    }
}

/// What is to be done next.
#[derive(Clone, Debug, PartialEq, Eq)]
pub enum EnumAction {
    /// Send this request and decode the answer.
    Get(GetRequest),
    /// Nothing: these are the addresses of the channel's videos.
    Done(Vec<String>),
    /// Nothing: the listing has failed.
    Fail(Failure),
}

/// An action as a mathematical value.
pub enum EnumActionView {
    Get(GetRequestView),
    Done(Seq<Seq<char>>),
    Fail(FailureModel),
}

impl View for EnumAction {
    type V = EnumActionView;

    open spec fn view(&self) -> EnumActionView {
        match self {
            EnumAction::Get(r) => EnumActionView::Get(r@),
            EnumAction::Done(videos) => EnumActionView::Done(texts(videos@)),
            EnumAction::Fail(f) => EnumActionView::Fail(f@),
        }
    }
}

/// A failure as a mathematical value, where there is one.
pub open spec fn failure_of(f: Option<Failure>) -> Option<FailureModel> {
    match f {
        Some(failure) => Some(failure@),
        None => None,
    }
}

/// The listing of one channel, between two steps.
#[derive(Clone, Debug, PartialEq, Eq)]
pub struct Enumeration {
    phase: EnumPhase,
    api: String,
    handle: String,
    include_live: bool,
    channel_id: String,
    videos: Vec<String>,
    pending: Vec<String>,
    next_page: Option<String>,
}

/// A listing as a mathematical value.
pub struct EnumerationView {
    pub phase: EnumPhase,
    /// The address of the metadata service.
    pub api: Seq<char>,
    /// The handle of the channel.
    pub handle: Seq<char>,
    /// Whether streams and premieres are taken like other videos.
    pub include_live: bool,
    /// The identifier of the channel, once it is known.
    pub channel_id: Seq<char>,
    /// The addresses taken so far.
    pub videos: Seq<Seq<char>>,
    /// The videos of the current page that are still to be checked.
    pub pending: Seq<Seq<char>>,
    /// The name of the page that follows the current one, if one does.
    pub next_page: Option<Seq<char>>,
}

impl View for Enumeration {
    type V = EnumerationView;

    closed spec fn view(&self) -> EnumerationView {
        EnumerationView {
            phase: self.phase,
            api: self.api@,
            handle: self.handle@,
            include_live: self.include_live,
            channel_id: self.channel_id@,
            videos: texts(self.videos@),
            pending: texts(self.pending@),
            next_page: crate::http::text_of(self.next_page),
        }
    }
}

/// The message for a handle that no channel answers to.
pub open spec fn no_channel_message() -> Seq<char> {
    "The specified channel handle has no associated channel!"@
}

/// The message for a page with a video that has no identifier.
pub open spec fn unsound_page_message() -> Seq<char> {
    "There was an error parsing the channel search results! Error: a video without an ID"@
}

/// The message for an event that does not answer the request that was asked
/// for.
pub open spec fn out_of_turn_message() -> Seq<char> {
    "This event does not answer the request that was asked for."@
}

/// The failure of the request that was asked for in `phase`, for a transport
/// fault described by `detail`; `handle`, `channel_id` and `video` name what
/// the request was about.
pub open spec fn unreachable_failure(
    phase: EnumPhase,
    handle: Seq<char>,
    channel_id: Seq<char>,
    video: Seq<char>,
    detail: Seq<char>,
) -> FailureModel {
    match phase {
        EnumPhase::Resolving => FailureModel::Transport(
            "There was an error requesting the channel ID from the channel handle "@ + handle
                + "! Error: "@ + detail,
        ),
        EnumPhase::Paging => FailureModel::Transport(
            "There was an error requesting the channel videos from the channel id "@ + channel_id
                + "! Error: "@ + detail,
        ),
        _ => FailureModel::Transport(
            "There was an error requesting live stream details from video "@ + video
                + "! Error: "@ + detail,
        ),
    }
}

/// The failure of decoding the answer that was awaited in `phase`, for a
/// fault described by `detail`.
pub open spec fn undecodable_failure(phase: EnumPhase, detail: Seq<char>) -> FailureModel {
    match phase {
        EnumPhase::Resolving => FailureModel::ParseFailure(
            "There was an error decoding the channel list response from the YouTube API! Error: "@
                + detail,
        ),
        EnumPhase::Paging => FailureModel::ParseFailure(
            "There was an error parsing the channel search results! Error: "@ + detail,
        ),
        _ => FailureModel::ParseFailure("There was an error parsing the video list! Error: "@ + detail),
    }
}

/// The failure of a live stream check whose answer describes no video.
pub open spec fn no_details_failure(video: Seq<char>) -> FailureModel {
    FailureModel::Precondition("There were no live stream details to read for video "@ + video + "!"@)
}

/// What a step leads to: the listing afterwards, what is to be done next,
/// and a failure that was passed over and is to be reported, if there was
/// one.
pub type Outcome = (EnumerationView, EnumActionView, Option<FailureModel>);

impl EnumerationView {
    /// The listing in another phase.
    pub open spec fn at(self, phase: EnumPhase) -> EnumerationView {
        EnumerationView { phase, ..self }
    }

    /// The end of the listing with `failure`.
    pub open spec fn fail(self, failure: FailureModel) -> Outcome {
        (self.at(EnumPhase::Finished), EnumActionView::Fail(failure), None)
    }

    /// The request for the page of the video list that `page_token` names.
    pub open spec fn search(self, page_token: Option<Seq<char>>) -> GetRequestView {
        GetRequestView::json(search_url(self.api, self.channel_id, page_token))
    }

    /// The request for the live stream check of `video`.
    pub open spec fn check(self, video: Seq<char>) -> GetRequestView {
        GetRequestView::json(live_check_url(self.api, video))
    }

    /// The listing with `videos` taken and no video in waiting.
    pub open spec fn dealt(self, videos: Seq<Seq<char>>) -> EnumerationView {
        EnumerationView { videos, pending: seq![], ..self }
    }

    /// What follows a page that is dealt with: the page after it is asked
    /// for, by its name; after the last page, the addresses taken are given
    /// out.
    pub open spec fn turn_page(self) -> (EnumerationView, EnumActionView) {
        match self.next_page {
            Some(token) => (
                EnumerationView {
                    phase: EnumPhase::Paging,
                    pending: seq![],
                    next_page: None,
                    ..self
                },
                EnumActionView::Get(self.search(Some(token))),
            ),
            None => (
                EnumerationView {
                    phase: EnumPhase::Finished,
                    videos: seq![],
                    pending: seq![],
                    ..self
                },
                EnumActionView::Done(self.videos),
            ),
        }
    }

    /// What follows within a page: the check of the first video in waiting,
    /// or, where none is waiting, what follows the page.
    pub open spec fn proceed(self) -> (EnumerationView, EnumActionView) {
        if self.pending.len() > 0 {
            (self.at(EnumPhase::Checking), EnumActionView::Get(self.check(self.pending[0])))
        } else {
            self.turn_page()
        }
    }

    /// What a page leads to. A page with a video that has no identifier ends
    /// the listing. Where streams and premieres are taken, the addresses of
    /// all videos of the page are taken, in the order of the page; else all
    /// of them wait to be checked.
    pub open spec fn take_page(self, page: SearchPageView) -> Outcome {
        if !page_is_sound(page.items) {
            self.fail(FailureModel::ParseFailure(unsound_page_message()))
        } else if self.include_live {
            let (next, action) = (EnumerationView {
                videos: self.videos + urls(candidates(page.items)),
                pending: seq![],
                next_page: page.next_page_token,
                ..self
            }).turn_page();
            (next, action, None)
        } else {
            let (next, action) = (EnumerationView {
                pending: candidates(page.items),
                next_page: page.next_page_token,
                ..self
            }).proceed();
            (next, action, None)
        }
    }

    /// What the check of the first video in waiting leads to: its address is
    /// taken if `keep` holds, and the listing goes on with the next video.
    pub open spec fn settle(self, keep: bool, notice: Option<FailureModel>) -> Outcome {
        let videos = if keep {
            self.videos.push(video_url(self.pending[0]))
        } else {
            self.videos
        };
        let (next, action) = (EnumerationView {
            videos,
            pending: self.pending.drop_first(),
            ..self
        }).proceed();
        (next, action, notice)
    }

    /// What `event` leads to.
    ///
    /// While the channel's identifier is awaited: a request that did not get
    /// through, an answer that cannot be decoded and an answer without a
    /// channel end the listing; else the first channel named is the one, and
    /// the first page of its video list is asked for. While a page is
    /// awaited: a request that did not get through and an answer that cannot
    /// be decoded end the listing; a page is taken in. While a live stream
    /// check is awaited: the video is passed over only where the answer says
    /// that it is or was a live stream; a check that fails in any way is
    /// reported and the video is taken. An event that does not fit the phase
    /// ends the listing as a failure.
    pub open spec fn step(self, event: EnumEventView) -> Outcome {
        match (self.phase, event) {
            (EnumPhase::Resolving, EnumEventView::Unreachable(detail)) => self.fail(
                unreachable_failure(self.phase, self.handle, self.channel_id, seq![], detail),
            ),
            (EnumPhase::Resolving, EnumEventView::Undecodable(detail)) => self.fail(
                undecodable_failure(self.phase, detail),
            ),
            (EnumPhase::Resolving, EnumEventView::Channels(ids)) => {
                if ids.len() == 0 {
                    self.fail(FailureModel::Precondition(no_channel_message()))
                } else {
                    let next = EnumerationView {
                        phase: EnumPhase::Paging,
                        channel_id: ids[0],
                        ..self
                    };
                    (next, EnumActionView::Get(next.search(None)), None)
                }
            },
            (EnumPhase::Paging, EnumEventView::Unreachable(detail)) => self.fail(
                unreachable_failure(self.phase, self.handle, self.channel_id, seq![], detail),
            ),
            (EnumPhase::Paging, EnumEventView::Undecodable(detail)) => self.fail(
                undecodable_failure(self.phase, detail),
            ),
            (EnumPhase::Paging, EnumEventView::Page(page)) => self.take_page(page),
            (EnumPhase::Checking, EnumEventView::Unreachable(detail)) => {
                if self.pending.len() == 0 {
                    self.fail(FailureModel::Precondition(out_of_turn_message()))
                } else {
                    self.settle(
                        true,
                        Some(
                            unreachable_failure(
                                self.phase,
                                self.handle,
                                self.channel_id,
                                self.pending[0],
                                detail,
                            ),
                        ),
                    )
                }
            },
            (EnumPhase::Checking, EnumEventView::Undecodable(detail)) => {
                if self.pending.len() == 0 {
                    self.fail(FailureModel::Precondition(out_of_turn_message()))
                } else {
                    self.settle(true, Some(undecodable_failure(self.phase, detail)))
                }
            },
            (EnumPhase::Checking, EnumEventView::LiveDetails(flags)) => {
                if self.pending.len() == 0 {
                    self.fail(FailureModel::Precondition(out_of_turn_message()))
                } else if flags.len() == 0 {
                    self.settle(true, Some(no_details_failure(self.pending[0])))
                } else {
                    self.settle(!flags[0], None)
                }
            },
            _ => self.fail(FailureModel::Precondition(out_of_turn_message())),
        }
    }
}

impl EnumerationView {
    /// The listing of the channel `handle` through the metadata service at
    /// `api`, before anything is known.
    pub open spec fn start(api: Seq<char>, handle: Seq<char>, include_live: bool) -> EnumerationView {
        EnumerationView {
            phase: EnumPhase::Resolving,
            api,
            handle,
            include_live,
            channel_id: seq![],
            videos: seq![],
            pending: seq![],
            next_page: None,
        }
    }

    /// The request that looks up the channel's identifier.
    pub open spec fn lookup(self) -> GetRequestView {
        GetRequestView::plain(channel_lookup_url(self.api, self.handle))
    }
}

/// The failure of a request that did not get through.
fn make_unreachable_failure(
    phase: EnumPhase,
    handle: &String,
    channel_id: &String,
    video: &str,
    detail: &String,
) -> (f: Failure)
    ensures
        f@ == unreachable_failure(phase, handle@, channel_id@, video@, detail@),
{
    let head = match phase {
        EnumPhase::Resolving => join(
            "There was an error requesting the channel ID from the channel handle ",
            handle.as_str(),
        ),
        EnumPhase::Paging => join(
            "There was an error requesting the channel videos from the channel id ",
            channel_id.as_str(),
        ),
        _ => join("There was an error requesting live stream details from video ", video),
    };
    let m = join3(head.as_str(), "! Error: ", detail.as_str());
    Failure::Transport(m)
}

/// The failure of an answer that cannot be decoded.
fn make_undecodable_failure(phase: EnumPhase, detail: &String) -> (f: Failure)
    ensures
        f@ == undecodable_failure(phase, detail@),
{
    let head = match phase {
        EnumPhase::Resolving =>
            "There was an error decoding the channel list response from the YouTube API! Error: ",
        EnumPhase::Paging => "There was an error parsing the channel search results! Error: ",
        _ => "There was an error parsing the video list! Error: ",
    };
    Failure::ParseFailure(join(head, detail.as_str()))
}

impl Enumeration {
    /// Begins the listing of the channel that `request` names: gives the
    /// request that looks up the channel's identifier, and the listing that
    /// awaits the answer. An address without a handle is refused before any
    /// request is made.
    pub fn begin(request: &ChannelRequest<'_>) -> (r: Result<(Enumeration, GetRequest), Failure>)
        ensures
            match r {
                Ok((listing, lookup)) => {
                    &&& well_formed_channel_url(request.url@)
                    &&& listing@ == EnumerationView::start(
                        request.api@,
                        channel_handle(request.url@),
                        request.include_streams_and_premieres,
                    )
                    &&& lookup@ == listing@.lookup()
                },
                Err(failure) => {
                    &&& !well_formed_channel_url(request.url@)
                    &&& failure@ == FailureModel::Precondition(no_handle_message())
                },
            },
    {
        if !is_channel_url(request.url) {
            return Err(
                Failure::Precondition(
                    String::from_str("Make sure to provide a valid YouTube Channel URL!"),
                ),
            );
        }
        let handle = get_channel_handle_from_url(request.url);
        let lookup = GetRequest {
            url: make_channel_lookup_url(request.api.as_str(), handle.as_str()),
            accept: None,
        };
        let listing = Enumeration {
            phase: EnumPhase::Resolving,
            api: request.api.clone(),
            handle,
            include_live: request.include_streams_and_premieres,
            channel_id: String::new(),
            videos: Vec::new(),
            pending: Vec::new(),
            next_page: None,
        };
        assert(listing@.videos =~= seq![]);
        assert(listing@.pending =~= seq![]);
        assert(listing@.channel_id =~= seq![]);
        Ok((listing, lookup))
    }

    /// How far the listing has come.
    pub fn phase(&self) -> (p: EnumPhase)
        ensures
            p == self@.phase,
    {
        self.phase
    }

    /// The request for the page of the video list that `page_token` names.
    fn search(&self, page_token: &Option<String>) -> (r: GetRequest)
        ensures
            r@ == self@.search(crate::http::text_of(*page_token)),
    {
        GetRequest {
            url: make_search_url(self.api.as_str(), self.channel_id.as_str(), page_token),
            accept: Some(String::from_str("application/json")),
        }
    }

    /// Ends the listing with `failure`.
    fn fail(&mut self, failure: Failure) -> (r: (EnumAction, Option<Failure>))
        ensures
            (final(self)@, r.0@, failure_of(r.1)) == old(self)@.fail(failure@),
    {
        self.phase = EnumPhase::Finished;
        (EnumAction::Fail(failure), None)
    }

    /// Goes on after a page is dealt with.
    fn turn_page(&mut self) -> (action: EnumAction)
        ensures
            (final(self)@, action@) == old(self)@.turn_page(),
    {
        self.pending = Vec::new();
        assert(texts(self.pending@) =~= seq![]);
        let token = self.next_page.take();
        match token {
            Some(t) => {
                self.phase = EnumPhase::Paging;
                let page_token = Some(t);
                EnumAction::Get(self.search(&page_token))
            },
            None => {
                self.phase = EnumPhase::Finished;
                let mut videos: Vec<String> = Vec::new();
                std::mem::swap(&mut self.videos, &mut videos);
                assert(texts(self.videos@) =~= seq![]);
                EnumAction::Done(videos)
            },
        }
    }

    /// Goes on within a page.
    fn proceed(&mut self) -> (action: EnumAction)
        ensures
            (final(self)@, action@) == old(self)@.proceed(),
    {
        if self.pending.len() > 0 {
            self.phase = EnumPhase::Checking;
            EnumAction::Get(
                GetRequest {
                    url: make_live_check_url(self.api.as_str(), self.pending[0].as_str()),
                    accept: Some(String::from_str("application/json")),
                },
            )
        } else {
            self.turn_page()
        }
    }

    /// Takes or passes over the first video in waiting, and goes on.
    fn settle(&mut self, keep: bool, notice: Option<Failure>) -> (r: (EnumAction, Option<Failure>))
        requires
            old(self)@.pending.len() > 0,
        ensures
            (final(self)@, r.0@, failure_of(r.1)) == old(self)@.settle(keep, failure_of(notice)),
    {
        let id = self.pending.remove(0);
        assert(texts(self.pending@) =~= old(self)@.pending.drop_first());
        if keep {
            self.videos.push(make_video_url(id.as_str()));
            assert(texts(self.videos@) =~= old(self)@.videos.push(video_url(id@)));
        }
        let action = self.proceed();
        (action, notice)
    }

    /// Takes in a page.
    fn take_page(&mut self, page: SearchPage) -> (r: (EnumAction, Option<Failure>))
        ensures
            (final(self)@, r.0@, failure_of(r.1)) == old(self)@.take_page(page@),
    {
        match page_ids(&page.items) {
            None => self.fail(
                Failure::ParseFailure(
                    String::from_str(
                        "There was an error parsing the channel search results! Error: a video without an ID",
                    ),
                ),
            ),
            Some(ids) => {
                self.next_page = page.next_page_token;
                if self.include_live {
                    push_urls(&mut self.videos, &ids);
                    (self.turn_page(), None)
                } else {
                    self.pending = ids;
                    (self.proceed(), None)
                }
            },
        }
    }

    /// Ends the listing because an event came out of turn.
    fn out_of_turn(&mut self) -> (r: (EnumAction, Option<Failure>))
        ensures
            (final(self)@, r.0@, failure_of(r.1)) == old(self)@.fail(
                FailureModel::Precondition(out_of_turn_message()),
            ),
    {
        self.fail(
            Failure::Precondition(
                String::from_str("This event does not answer the request that was asked for."),
            ),
        )
    }

    /// Takes in what happened to the request that was last asked for. Gives
    /// what is to be done next and, where a failure was passed over, that
    /// failure, to be reported.
    pub fn step(&mut self, event: EnumEvent) -> (r: (EnumAction, Option<Failure>))
        ensures
            (final(self)@, r.0@, failure_of(r.1)) == old(self)@.step(event@),
    {
        let phase = self.phase;
        let waiting = self.pending.len() > 0;
        match (phase, event) {
            (EnumPhase::Resolving, EnumEvent::Unreachable(detail)) => {
                let f = make_unreachable_failure(
                    phase,
                    &self.handle,
                    &self.channel_id,
                    "",
                    &detail,
                );
                proof {
                    reveal_strlit("");
                    assert(""@ =~= seq![]);
                }
                self.fail(f)
            },
            (EnumPhase::Resolving, EnumEvent::Undecodable(detail)) => {
                let f = make_undecodable_failure(phase, &detail);
                self.fail(f)
            },
            (EnumPhase::Resolving, EnumEvent::Channels(ids)) => {
                if ids.len() == 0 {
                    self.fail(
                        Failure::Precondition(
                            String::from_str(
                                "The specified channel handle has no associated channel!",
                            ),
                        ),
                    )
                } else {
                    self.channel_id = ids[0].clone();
                    self.phase = EnumPhase::Paging;
                    let first: Option<String> = None;
                    (EnumAction::Get(self.search(&first)), None)
                }
            },
            (EnumPhase::Paging, EnumEvent::Unreachable(detail)) => {
                let f = make_unreachable_failure(
                    phase,
                    &self.handle,
                    &self.channel_id,
                    "",
                    &detail,
                );
                proof {
                    reveal_strlit("");
                    assert(""@ =~= seq![]);
                }
                self.fail(f)
            },
            (EnumPhase::Paging, EnumEvent::Undecodable(detail)) => {
                let f = make_undecodable_failure(phase, &detail);
                self.fail(f)
            },
            (EnumPhase::Paging, EnumEvent::Page(page)) => self.take_page(page),
            (EnumPhase::Checking, EnumEvent::Unreachable(detail)) => {
                if !waiting {
                    self.out_of_turn()
                } else {
                    let f = make_unreachable_failure(
                        phase,
                        &self.handle,
                        &self.channel_id,
                        self.pending[0].as_str(),
                        &detail,
                    );
                    self.settle(true, Some(f))
                }
            },
            (EnumPhase::Checking, EnumEvent::Undecodable(detail)) => {
                if !waiting {
                    self.out_of_turn()
                } else {
                    let f = make_undecodable_failure(phase, &detail);
                    self.settle(true, Some(f))
                }
            },
            (EnumPhase::Checking, EnumEvent::LiveDetails(flags)) => {
                if !waiting {
                    self.out_of_turn()
                } else if flags.len() == 0 {
                    let f = Failure::Precondition(
                        join3(
                            "There were no live stream details to read for video ",
                            self.pending[0].as_str(),
                            "!",
                        ),
                    );
                    self.settle(true, Some(f))
                } else {
                    let live = flags[0];
                    self.settle(!live, None)
                }
            },
            _ => self.out_of_turn(),
        }
    }
}

impl EnumerationView {
    /// The listing after `events` have come in one after the other.
    pub open spec fn after(self, events: Seq<EnumEventView>) -> EnumerationView
        decreases events.len(),
    {
        if events.len() == 0 {
            self
        } else {
            self.step(events[0]).0.after(events.drop_first())
        }
    }

    /// What is asked for, step by step, as `events` come in one after the
    /// other.
    pub open spec fn trace(self, events: Seq<EnumEventView>) -> Seq<EnumActionView>
        decreases events.len(),
    {
        if events.len() == 0 {
            seq![]
        } else {
            seq![self.step(events[0]).1] + self.step(events[0]).0.trace(events.drop_first())
        }
    }
}

/// Every event is answered with one action.
pub proof fn lemma_trace_len(start: EnumerationView, events: Seq<EnumEventView>)
    ensures
        start.trace(events).len() == events.len(),
    decreases events.len(),
{
    if events.len() > 0 {
        lemma_trace_len(start.step(events[0]).0, events.drop_first());
    }
}

/// Where streams and premieres are taken, a video list of two pages is read
/// in two requests: after the first page the second is asked for by the name
/// that the first page gave, and after the second the addresses of the
/// videos of the first page are given out, followed by those of the second.
pub proof fn lemma_two_pages_in_order(
    start: EnumerationView,
    first: SearchPageView,
    second: SearchPageView,
)
    requires
        start.phase == EnumPhase::Paging,
        start.include_live,
        page_is_sound(first.items),
        page_is_sound(second.items),
        first.next_page_token is Some,
        second.next_page_token is None,
    ensures
        start.trace(seq![EnumEventView::Page(first), EnumEventView::Page(second)]) == seq![
            EnumActionView::Get(start.search(first.next_page_token)),
            EnumActionView::Done(
                start.videos + urls(candidates(first.items)) + urls(candidates(second.items)),
            ),
        ],
{
    let events = seq![EnumEventView::Page(first), EnumEventView::Page(second)];
    let middle = start.step(events[0]).0;
    let end = middle.step(events[1]).0;
    let rest1 = events.drop_first();
    let rest2 = rest1.drop_first();
    assert(rest1[0] == events[1]);
    assert(rest2.len() == 0);
    assert(end.trace(rest2) =~= seq![]);
    assert(middle.search(first.next_page_token) == start.search(first.next_page_token));
    assert(middle.trace(rest1) =~= seq![middle.step(events[1]).1]);
    assert(start.trace(events) =~= seq![start.step(events[0]).1, middle.step(events[1]).1]);
}

/// Whether `pages` can be the pages of one video list, in order: there is at
/// least one, each is sound, and each but the last names the page that
/// follows.
pub open spec fn is_page_chain(pages: Seq<SearchPageView>) -> bool {
    &&& pages.len() > 0
    &&& forall|i: int|
        0 <= i < pages.len() ==> {
            &&& page_is_sound(#[trigger] pages[i].items)
            &&& pages[i].next_page_token is Some <==> i < pages.len() - 1
        }
}

/// The addresses of the videos on `pages`, page after page.
pub open spec fn all_urls(pages: Seq<SearchPageView>) -> Seq<Seq<char>>
    decreases pages.len(),
{
    if pages.len() == 0 {
        seq![]
    } else {
        urls(candidates(pages[0].items)) + all_urls(pages.drop_first())
    }
}

/// The arrival of each of `pages`, in order.
pub open spec fn arrivals(pages: Seq<SearchPageView>) -> Seq<EnumEventView> {
    Seq::new(pages.len(), |i: int| EnumEventView::Page(pages[i]))
}

/// Where streams and premieres are taken, a video list of any number of
/// pages is read with one request for each page: after each page but the
/// last, the next is asked for by the name that the page gave; after the
/// last, the addresses taken before are given out, followed by those of the
/// videos of all pages, page after page.
pub proof fn lemma_pages_in_order(start: EnumerationView, pages: Seq<SearchPageView>)
    requires
        start.phase == EnumPhase::Paging,
        start.include_live,
        is_page_chain(pages),
    ensures
        start.trace(arrivals(pages)).len() == pages.len(),
        forall|i: int|
            0 <= i < pages.len() - 1 ==> #[trigger] start.trace(arrivals(pages))[i]
                == EnumActionView::Get(start.search(pages[i].next_page_token)),
        start.trace(arrivals(pages))[pages.len() - 1] == EnumActionView::Done(
            start.videos + all_urls(pages),
        ),
    decreases pages.len(),
{
    let n = pages.len() as int;
    let events = arrivals(pages);
    let first = pages[0];
    assert(page_is_sound(first.items));
    assert(events[0] == EnumEventView::Page(first));
    let (next, action, notice) = start.step(events[0]);
    let rest = pages.drop_first();
    assert(events.drop_first() =~= arrivals(rest));
    lemma_trace_len(next, arrivals(rest));
    let tr = start.trace(events);
    assert(tr =~= seq![action] + next.trace(arrivals(rest)));
    if n == 1 {
        assert(all_urls(rest) =~= seq![]);
        assert(start.videos + all_urls(pages) =~= start.videos + urls(candidates(first.items)));
    } else {
        assert(first.next_page_token is Some);
        assert forall|i: int| 0 <= i < rest.len() implies {
            &&& page_is_sound(#[trigger] rest[i].items)
            &&& rest[i].next_page_token is Some <==> i < rest.len() - 1
        } by {
            assert(rest[i] == pages[i + 1]);
            assert(page_is_sound(pages[i + 1].items));
        }
        lemma_pages_in_order(next, rest);
        assert(next.videos + all_urls(rest) =~= start.videos + all_urls(pages));
        assert forall|i: int| 0 <= i < n - 1 implies #[trigger] tr[i] == EnumActionView::Get(
            start.search(pages[i].next_page_token),
        ) by {
            if i > 0 {
                assert(tr[i] == next.trace(arrivals(rest))[i - 1]);
                assert(rest[i - 1] == pages[i]);
                assert(next.search(rest[i - 1].next_page_token) == start.search(
                    pages[i].next_page_token,
                ));
            }
        }
        assert(tr[n - 1] == next.trace(arrivals(rest))[n - 2]);
    }
}

/// Whether `event` is an outcome of a live stream check.
pub open spec fn is_check_outcome(event: EnumEventView) -> bool {
    event is Unreachable || event is Undecodable || event is LiveDetails
}

/// Whether `outcome` says that the video checked is or was a live stream.
pub open spec fn says_live(outcome: EnumEventView) -> bool {
    match outcome {
        EnumEventView::LiveDetails(flags) => flags.len() > 0 && flags[0],
        _ => false,
    }
}

/// The addresses of those videos among `ids` whose check, at the same
/// position in `outcomes`, does not say that it is or was a live stream; in
/// the order of `ids`.
pub open spec fn kept(ids: Seq<Seq<char>>, outcomes: Seq<EnumEventView>) -> Seq<Seq<char>>
    decreases ids.len(),
{
    if ids.len() == 0 || outcomes.len() == 0 {
        seq![]
    } else {
        let rest = kept(ids.drop_first(), outcomes.drop_first());
        if says_live(outcomes[0]) {
            rest
        } else {
            seq![video_url(ids[0])] + rest
        }
    }
}

/// Where no check says that its video is or was a live stream, every video
/// is kept.
pub proof fn lemma_kept_all(ids: Seq<Seq<char>>, outcomes: Seq<EnumEventView>)
    requires
        ids.len() == outcomes.len(),
        forall|i: int| 0 <= i < outcomes.len() ==> !says_live(#[trigger] outcomes[i]),
    ensures
        kept(ids, outcomes) == urls(ids),
    decreases ids.len(),
{
    if ids.len() > 0 {
        lemma_kept_all(ids.drop_first(), outcomes.drop_first());
        assert(outcomes[0] == outcomes[0]);
        assert(kept(ids, outcomes) =~= urls(ids));
    } else {
        assert(kept(ids, outcomes) =~= urls(ids));
    }
}

/// Where streams and premieres are passed over, the checks of the videos of
/// a page never end the listing, however they turn out. Each check but the
/// last is followed by the check of the next video. After the last, the
/// listing goes on behind the page, and the addresses taken are those taken
/// before, followed by those of the videos whose check did not say that they
/// are or were a live stream: a video whose check failed is taken.
pub proof fn lemma_checks_never_end_the_listing(
    start: EnumerationView,
    outcomes: Seq<EnumEventView>,
)
    requires
        start.phase == EnumPhase::Checking,
        start.pending.len() > 0,
        outcomes.len() == start.pending.len(),
        forall|i: int| 0 <= i < outcomes.len() ==> is_check_outcome(#[trigger] outcomes[i]),
    ensures
        ({
            let n = outcomes.len() as int;
            let dealt = start.dealt(start.videos + kept(start.pending, outcomes));
            &&& start.trace(outcomes).len() == n
            &&& forall|i: int|
                0 <= i < n - 1 ==> #[trigger] start.trace(outcomes)[i] == EnumActionView::Get(
                    start.check(start.pending[i + 1]),
                )
            &&& start.trace(outcomes)[n - 1] == dealt.turn_page().1
            &&& start.after(outcomes) == dealt.turn_page().0
        }),
    decreases outcomes.len(),
{
    let n = outcomes.len() as int;
    let first = outcomes[0];
    assert(is_check_outcome(first));
    let keep = !says_live(first);
    let (next, action, notice) = start.step(first);
    let taken = if keep {
        start.videos.push(video_url(start.pending[0]))
    } else {
        start.videos
    };
    let moved = EnumerationView { videos: taken, pending: start.pending.drop_first(), ..start };
    assert((next, action) == moved.proceed());
    let rest = outcomes.drop_first();
    let dealt = start.dealt(start.videos + kept(start.pending, outcomes));
    lemma_trace_len(next, rest);
    if n == 1 {
        assert(moved.pending.len() == 0);
        assert(kept(start.pending.drop_first(), rest) =~= seq![]);
        assert(start.videos + kept(start.pending, outcomes) =~= taken);
        assert(moved.turn_page() == dealt.turn_page());
        assert(next.trace(rest) =~= seq![]);
        assert(start.trace(outcomes) =~= seq![action]);
        assert(next.after(rest) == next);
    } else {
        assert(next == moved.at(EnumPhase::Checking));
        assert forall|i: int| 0 <= i < rest.len() implies is_check_outcome(#[trigger] rest[i]) by {
            assert(rest[i] == outcomes[i + 1]);
        }
        lemma_checks_never_end_the_listing(next, rest);
        let dealt_next = next.dealt(next.videos + kept(next.pending, rest));
        assert(next.videos + kept(next.pending, rest) =~= start.videos + kept(
            start.pending,
            outcomes,
        ));
        assert(dealt_next.turn_page() == dealt.turn_page());
        let tr = start.trace(outcomes);
        assert(tr =~= seq![action] + next.trace(rest));
        assert forall|i: int| 0 <= i < n - 1 implies #[trigger] tr[i] == EnumActionView::Get(
            start.check(start.pending[i + 1]),
        ) by {
            if i == 0 {
                assert(action == EnumActionView::Get(moved.check(moved.pending[0])));
            } else {
                assert(tr[i] == next.trace(rest)[i - 1]);
                assert(next.pending[i] == start.pending[i + 1]);
            }
        }
        assert(tr[n - 1] == next.trace(rest)[n - 2]);
    }
}

} // verus!
