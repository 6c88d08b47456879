//! Getting a video through the cobalt relay.
//!
//! The relay is asked for a stream, its answer is interpreted, the stream is
//! fetched and the bytes are stored. What is sent and what each answer leads
//! to is decided here; sending, fetching and storing is the caller's part.

use vstd::prelude::*;
use vstd::string::*;
use crate::failure::{file_failure, file_message, Failure, FailureKind, FailureModel, FileStep};
use crate::http::{text_of, GetRequest, GetRequestView, PostJSONRequest};
use crate::text::{join, join3};

verus! {

/// What is sent to the relay to ask for a video. On the wire the fields carry
/// these names.
#[allow(non_snake_case)]
#[derive(Clone, Copy, Debug, PartialEq, Eq)]
pub struct RequestBody<'a> {
    pub url: &'a str,
    pub vCodec: &'a str,
    pub vQuality: &'a str,
    pub aFormat: &'a str,
    pub filenamePattern: &'a str,
    pub isAudioOnly: bool,
    pub isTTFullAudio: bool,
    pub isAudioMuted: bool,
    pub dubLang: bool,
    pub disableMetadata: bool,
    pub twitterGif: bool,
    pub tiktokH265: bool,
}

impl<'a> RequestBody<'a> {
    /// Whether this asks for the video at `url` in `codec`, in the highest
    /// quality, with the best audio format, the classic file name pattern
    /// and every special treatment switched off.
    pub open spec fn is_standard(self, url: Seq<char>, codec: Seq<char>) -> bool {
        &&& self.url@ == url
        &&& self.vCodec@ == codec
        &&& self.vQuality@ == "max"@
        &&& self.aFormat@ == "best"@
        &&& self.filenamePattern@ == "classic"@
        &&& !self.isAudioOnly
        &&& !self.isTTFullAudio
        &&& !self.isAudioMuted
        &&& !self.dubLang
        &&& !self.disableMetadata
        &&& !self.twitterGif
        &&& !self.tiktokH265
    }

    /// The request for the video at `url` in `codec`.
    pub fn new(url: &'a str, codec: &'a str) -> (body: RequestBody<'a>)
        ensures
            body.is_standard(url@, codec@),
    {
        RequestBody {
            url,
            vCodec: codec,
            vQuality: "max",
            aFormat: "best",
            filenamePattern: "classic",
            isAudioOnly: false,
            isTTFullAudio: false,
            isAudioMuted: false,
            dubLang: false,
            disableMetadata: false,
            twitterGif: false,
            tiktokH265: false,
        }
    }
}

/// What the relay answers.
#[derive(Clone, Debug, PartialEq, Eq)]
pub struct ResponseBody {
    pub status: String,
    pub text: Option<String>,
    pub url: Option<String>,
}

/// A relay answer as a mathematical value.
pub struct ResponseBodyView {
    pub status: Seq<char>,
    pub text: Option<Seq<char>>,
    pub url: Option<Seq<char>>,
}

impl View for ResponseBody {
    type V = ResponseBodyView;

    open spec fn view(&self) -> ResponseBodyView {
        ResponseBodyView {
            status: self.status@,
            text: text_of(self.text),
            url: text_of(self.url),
        }
    }
}

/// Which video to get, in which codec, and where to store it.
#[derive(Debug)]
pub struct VideoParameters<'a> {
    pub url: &'a String,
    pub video_codec: String,
    pub filename: String,
}

/// The meaning of a relay answer.
#[derive(Clone, Debug, PartialEq, Eq)]
pub enum StreamStatus {
    /// The relay reports an error, with this message.
    ErrorMsg(String),
    /// The relay refuses because of too many requests.
    RateLimited,
    /// The video can be fetched from this address.
    Stream(String),
    /// The relay answered with this status, which is not understood.
    Unsupported(String),
}

/// The meaning of a relay answer as a mathematical value.
pub enum StreamStatusView {
    ErrorMsg(Seq<char>),
    RateLimited,
    Stream(Seq<char>),
    Unsupported(Seq<char>),
}

impl View for StreamStatus {
    type V = StreamStatusView;

    open spec fn view(&self) -> StreamStatusView {
        match self {
            StreamStatus::ErrorMsg(s) => StreamStatusView::ErrorMsg(s@),
            StreamStatus::RateLimited => StreamStatusView::RateLimited,
            StreamStatus::Stream(s) => StreamStatusView::Stream(s@),
            StreamStatus::Unsupported(s) => StreamStatusView::Unsupported(s@),
        }
    }
}

/// The message for an error answer that carries no text.
pub open spec fn missing_text_message() -> Seq<char> {
    "The cobalt api reported an error without a message."@
}

/// The message for a stream answer that carries no address.
pub open spec fn missing_url_message() -> Seq<char> {
    "The cobalt api announced a stream without its address."@
}

impl ResponseBodyView {
    /// What the answer means. The status `error` needs a text and the status
    /// `stream` an address: without it the answer cannot be decoded. Every
    /// status other than `error`, `rate-limit` and `stream` is kept as it
    /// came.
    pub open spec fn meaning(self) -> Result<StreamStatusView, FailureModel> {
        if self.status == "error"@ {
            match self.text {
                Some(t) => Ok(StreamStatusView::ErrorMsg(t)),
                None => Err(FailureModel::ParseFailure(missing_text_message())),
            }
        } else if self.status == "rate-limit"@ {
            Ok(StreamStatusView::RateLimited)
        } else if self.status == "stream"@ {
            match self.url {
                Some(u) => Ok(StreamStatusView::Stream(u)),
                None => Err(FailureModel::ParseFailure(missing_url_message())),
            }
        } else {
            Ok(StreamStatusView::Unsupported(self.status))
        }
    }
}

/// Tells whether `s` reads `word`.
fn reads(s: &String, word: &str) -> (r: bool)
    ensures
        r == (s@ == word@),
{
    let w = String::from_str(word);
    *s == w
}

impl StreamStatus {
    /// Decodes a relay answer.
    pub fn decode(response: ResponseBody) -> (r: Result<StreamStatus, Failure>)
        ensures
            match r {
                Ok(status) => response@.meaning() == Ok::<StreamStatusView, FailureModel>(status@),
                Err(failure) => response@.meaning() == Err::<StreamStatusView, FailureModel>(
                    failure@,
                ),
            },
    {
        if reads(&response.status, "error") {
            match response.text {
                Some(t) => Ok(StreamStatus::ErrorMsg(t)),
                None => Err(
                    Failure::ParseFailure(
                        String::from_str("The cobalt api reported an error without a message."),
                    ),
                ),
            }
        } else if reads(&response.status, "rate-limit") {
            Ok(StreamStatus::RateLimited)
        } else if reads(&response.status, "stream") {
            match response.url {
                Some(u) => Ok(StreamStatus::Stream(u)),
                None => Err(
                    Failure::ParseFailure(
                        String::from_str("The cobalt api announced a stream without its address."),
                    ),
                ),
            }
        } else {
            Ok(StreamStatus::Unsupported(response.status))
        }
    }
}

/// The address of the relay that is used where no other is named.
pub fn default_relay_base() -> (base: String)
    ensures
        base@ == "https://api.cobalt.tools"@,
{
    String::from_str("https://api.cobalt.tools")
}

/// The address to which requests for a video are posted, for a relay at
/// `relay_base`.
pub open spec fn relay_endpoint(relay_base: Seq<char>) -> Seq<char> {
    relay_base + "/api/json"@
}

/// The request that asks the relay at `relay_base` for the video that
/// `params` names: a post of the standard body that accepts JSON.
pub fn submission<'a>(params: &'a VideoParameters<'a>, relay_base: &str) -> (request:
    PostJSONRequest<RequestBody<'a>>)
    ensures
        request.url@ == relay_endpoint(relay_base@),
        text_of(request.accept) == Some("application/json"@),
        request.json.is_standard(params.url@, params.video_codec@),
{
    PostJSONRequest {
        url: join(relay_base, "/api/json"),
        accept: Some(String::from_str("application/json")),
        json: RequestBody::new(params.url.as_str(), params.video_codec.as_str()),
    }
}

/// A file to store: its name and all of its bytes.
#[derive(Clone, Debug, PartialEq, Eq)]
pub struct DownloadTarget {
    pub filename: String,
    pub bytes: Vec<u8>,
}

/// A file to store as a mathematical value.
pub struct DownloadTargetView {
    pub filename: Seq<char>,
    pub bytes: Seq<u8>,
}

impl View for DownloadTarget {
    type V = DownloadTargetView;

    open spec fn view(&self) -> DownloadTargetView {
        DownloadTargetView { filename: self.filename@, bytes: self.bytes@ }
    }
}

/// How far the acquisition of a video has come.
#[derive(Clone, Copy, Debug, PartialEq, Eq, Structural)]
pub enum AcquirePhase {
    /// The request was posted; the relay's answer is awaited.
    Submitted,
    /// The relay named a stream; its bytes are awaited.
    Resolved,
    /// The bytes were handed out for storing; the outcome is awaited.
    Persisting,
    /// The acquisition has succeeded or failed; nothing more is awaited.
    Finished,
}

/// What happened to the step that was last asked for.
#[derive(Clone, Debug, PartialEq, Eq)]
pub enum AcquireEvent {
    /// The post did not get through.
    RelayUnreachable,
    /// The relay's answer was not the expected JSON; the text says why.
    AnswerUndecodable(String),
    /// The relay answered.
    Answered(ResponseBody),
    /// The stream could not be requested; the text says why.
    StreamUnreachable(String),
    /// The stream broke off before its end; the text says why.
    StreamBroken(String),
    /// The stream was read to its end: these are its bytes.
    Fetched(Vec<u8>),
    /// The file could not be created; the text says why.
    CreateFailed(String),
    /// Not all bytes could be written; the text says why.
    WriteFailed(String),
    /// The written bytes could not be flushed; the text says why.
    FlushFailed(String),
    /// All bytes were written and flushed.
    Written,
}

/// An event as a mathematical value.
pub enum AcquireEventView {
    RelayUnreachable,
    AnswerUndecodable(Seq<char>),
    Answered(ResponseBodyView),
    StreamUnreachable(Seq<char>),
    StreamBroken(Seq<char>),
    Fetched(Seq<u8>),
    CreateFailed(Seq<char>),
    WriteFailed(Seq<char>),
    FlushFailed(Seq<char>),
    Written,
}

impl View for AcquireEvent {
    type V = AcquireEventView;

    open spec fn view(&self) -> AcquireEventView {
        match self {
            AcquireEvent::RelayUnreachable => AcquireEventView::RelayUnreachable,
            AcquireEvent::AnswerUndecodable(s) => AcquireEventView::AnswerUndecodable(s@),
            AcquireEvent::Answered(r) => AcquireEventView::Answered(r@),
            AcquireEvent::StreamUnreachable(s) => AcquireEventView::StreamUnreachable(s@),
            AcquireEvent::StreamBroken(s) => AcquireEventView::StreamBroken(s@),
            AcquireEvent::Fetched(b) => AcquireEventView::Fetched(b@),
            AcquireEvent::CreateFailed(s) => AcquireEventView::CreateFailed(s@),
            AcquireEvent::WriteFailed(s) => AcquireEventView::WriteFailed(s@),
            AcquireEvent::FlushFailed(s) => AcquireEventView::FlushFailed(s@),
            AcquireEvent::Written => AcquireEventView::Written,
        }
    }
}

/// What is to be done next.
#[derive(Clone, Debug, PartialEq, Eq)]
pub enum AcquireAction {
    /// Send this request and read the whole body of the answer.
    Get(GetRequest),
    /// Create this file, write all of these bytes to it and flush it.
    Write(DownloadTarget),
    /// Nothing: the video is stored.
    Succeed,
    /// Nothing: the acquisition has failed.
    Fail(Failure),
}

/// An action as a mathematical value.
pub enum AcquireActionView {
    Get(GetRequestView),
    Write(DownloadTargetView),
    Succeed,
    Fail(FailureModel),
}

impl View for AcquireAction {
    type V = AcquireActionView;

    open spec fn view(&self) -> AcquireActionView {
        match self {
            AcquireAction::Get(r) => AcquireActionView::Get(r@),
            AcquireAction::Write(t) => AcquireActionView::Write(t@),
            AcquireAction::Succeed => AcquireActionView::Succeed,
            AcquireAction::Fail(f) => AcquireActionView::Fail(f@),
        }
    }
}

/// The acquisition of one video, between two steps.
#[derive(Clone, Debug, PartialEq, Eq)]
pub struct Acquisition {
    phase: AcquirePhase,
    endpoint: String,
    filename: String,
}

/// An acquisition as a mathematical value.
pub struct AcquisitionView {
    pub phase: AcquirePhase,
    /// Where the request was posted.
    pub endpoint: Seq<char>,
    /// Where the video is to be stored.
    pub filename: Seq<char>,
}

impl View for Acquisition {
    type V = AcquisitionView;

    closed spec fn view(&self) -> AcquisitionView {
        AcquisitionView { phase: self.phase, endpoint: self.endpoint@, filename: self.filename@ }
    }
}

/// The answer of the relay with these three parts.
pub open spec fn answered(
    status: Seq<char>,
    text: Option<Seq<char>>,
    url: Option<Seq<char>>,
) -> AcquireEventView {
    AcquireEventView::Answered(ResponseBodyView { status, text, url })
}

/// The order to store `bytes` in the file `filename`.
pub open spec fn write_of(filename: Seq<char>, bytes: Seq<u8>) -> AcquireActionView {
    AcquireActionView::Write(DownloadTargetView { filename, bytes })
}

/// The message for a post to `endpoint` that did not get through.
pub open spec fn unreachable_message(endpoint: Seq<char>) -> Seq<char> {
    "Got an error while posting to "@ + endpoint + "! Maybe check your internet connection?"@
}

/// The message for a relay answer that is not the expected JSON.
pub open spec fn undecodable_message(detail: Seq<char>) -> Seq<char> {
    "Got an error decoding the cobalt api's answer! Error: "@ + detail
}

/// The message for a stream that could not be requested.
pub open spec fn stream_unreachable_message(detail: Seq<char>) -> Seq<char> {
    "Got an error requesting the cobalt api's video! Error: "@ + detail
}

/// The message for a stream that broke off.
pub open spec fn stream_broken_message(detail: Seq<char>) -> Seq<char> {
    "Got an error decoding the cobalt api's video! Error: "@ + detail
}

/// The message for an event that does not answer the step that was asked for.
pub open spec fn out_of_turn_message() -> Seq<char> {
    "This event does not answer the step that was asked for."@
}

impl AcquisitionView {
    /// The acquisition that awaits the answer to a request posted to
    /// `endpoint`, for a video to be stored in `filename`.
    pub open spec fn start(endpoint: Seq<char>, filename: Seq<char>) -> AcquisitionView {
        AcquisitionView { phase: AcquirePhase::Submitted, endpoint, filename }
    }

    /// The acquisition after it has ended.
    pub open spec fn finished(self) -> AcquisitionView {
        AcquisitionView { phase: AcquirePhase::Finished, ..self }
    }

    /// The acquisition in another phase.
    pub open spec fn at(self, phase: AcquirePhase) -> AcquisitionView {
        AcquisitionView { phase, ..self }
    }

    /// What `event` leads to: the acquisition afterwards, and what is to be
    /// done next.
    ///
    /// While the answer is awaited: a post that did not get through and an
    /// answer that cannot be decoded end the acquisition, as does an answer
    /// that reports an error, a rate limit or a status that is not
    /// understood; an answer that names a stream leads to a plain `GET` of
    /// that address. While the stream is awaited: its bytes are handed out,
    /// unchanged, to be stored under the file name; a stream that cannot be
    /// requested or breaks off ends the acquisition. While the outcome of
    /// storing is awaited: it ends the acquisition, with success only where
    /// all bytes were written and flushed. An event that does not fit the
    /// phase ends the acquisition as a failure.
    pub open spec fn step(self, event: AcquireEventView) -> (AcquisitionView, AcquireActionView) {
        match (self.phase, event) {
            (AcquirePhase::Submitted, AcquireEventView::RelayUnreachable) => (
                self.finished(),
                AcquireActionView::Fail(
                    FailureModel::Transport(unreachable_message(self.endpoint)),
                ),
            ),
            (AcquirePhase::Submitted, AcquireEventView::AnswerUndecodable(detail)) => (
                self.finished(),
                AcquireActionView::Fail(FailureModel::ParseFailure(undecodable_message(detail))),
            ),
            (AcquirePhase::Submitted, AcquireEventView::Answered(response)) => {
                match response.meaning() {
                    Ok(StreamStatusView::Stream(url)) => (
                        self.at(AcquirePhase::Resolved),
                        AcquireActionView::Get(GetRequestView::plain(url)),
                    ),
                    Ok(StreamStatusView::ErrorMsg(text)) => (
                        self.finished(),
                        AcquireActionView::Fail(FailureModel::UpstreamError(text)),
                    ),
                    Ok(StreamStatusView::RateLimited) => (
                        self.finished(),
                        AcquireActionView::Fail(FailureModel::RateLimited),
                    ),
                    Ok(StreamStatusView::Unsupported(status)) => (
                        self.finished(),
                        AcquireActionView::Fail(FailureModel::Unsupported(status)),
                    ),
                    Err(failure) => (self.finished(), AcquireActionView::Fail(failure)),
                }
            },
            (AcquirePhase::Resolved, AcquireEventView::StreamUnreachable(detail)) => (
                self.finished(),
                AcquireActionView::Fail(
                    FailureModel::Transport(stream_unreachable_message(detail)),
                ),
            ),
            (AcquirePhase::Resolved, AcquireEventView::StreamBroken(detail)) => (
                self.finished(),
                AcquireActionView::Fail(FailureModel::Transport(stream_broken_message(detail))),
            ),
            (AcquirePhase::Resolved, AcquireEventView::Fetched(bytes)) => (
                self.at(AcquirePhase::Persisting),
                write_of(self.filename, bytes),
            ),
            (AcquirePhase::Persisting, AcquireEventView::CreateFailed(detail)) => (
                self.finished(),
                AcquireActionView::Fail(
                    FailureModel::Filesystem(file_message(FileStep::Create, self.filename, detail)),
                ),
            ),
            (AcquirePhase::Persisting, AcquireEventView::WriteFailed(detail)) => (
                self.finished(),
                AcquireActionView::Fail(
                    FailureModel::Filesystem(file_message(FileStep::Write, self.filename, detail)),
                ),
            ),
            (AcquirePhase::Persisting, AcquireEventView::FlushFailed(detail)) => (
                self.finished(),
                AcquireActionView::Fail(
                    FailureModel::Filesystem(file_message(FileStep::Flush, self.filename, detail)),
                ),
            ),
            (AcquirePhase::Persisting, AcquireEventView::Written) => (
                self.finished(),
                AcquireActionView::Succeed,
            ),
            _ => (
                self.finished(),
                AcquireActionView::Fail(FailureModel::Precondition(out_of_turn_message())),
            ),
        }
    }
}

impl Acquisition {
    /// Begins the acquisition of the video that `params` names through the
    /// relay at `relay_base`: gives the request to post, and the acquisition
    /// that awaits the answer.
    pub fn begin<'a>(params: &'a VideoParameters<'a>, relay_base: &str) -> (r: (
        Acquisition,
        PostJSONRequest<RequestBody<'a>>,
    ))
        ensures
            r.0@ == AcquisitionView::start(relay_endpoint(relay_base@), params.filename@),
            r.1.url@ == relay_endpoint(relay_base@),
            text_of(r.1.accept) == Some("application/json"@),
            r.1.json.is_standard(params.url@, params.video_codec@),
    {
        let request = submission(params, relay_base);
        let acquisition = Acquisition {
            phase: AcquirePhase::Submitted,
            endpoint: request.url.clone(),
            filename: params.filename.clone(),
        };
        (acquisition, request)
    }

    /// How far the acquisition has come.
    pub fn phase(&self) -> (p: AcquirePhase)
        ensures
            p == self@.phase,
    {
        self.phase
    }

    /// Takes in what happened to the step that was last asked for, and says
    /// what is to be done next.
    pub fn step(&mut self, event: AcquireEvent) -> (action: AcquireAction)
        ensures
            (final(self)@, action@) == old(self)@.step(event@),
    {
        let phase = self.phase;
        self.phase = AcquirePhase::Finished;
        match (phase, event) {
            (AcquirePhase::Submitted, AcquireEvent::RelayUnreachable) => {
                AcquireAction::Fail(
                    Failure::Transport(
                        join3(
                            "Got an error while posting to ",
                            self.endpoint.as_str(),
                            "! Maybe check your internet connection?",
                        ),
                    ),
                )
            },
            (AcquirePhase::Submitted, AcquireEvent::AnswerUndecodable(detail)) => {
                AcquireAction::Fail(
                    Failure::ParseFailure(
                        join(
                            "Got an error decoding the cobalt api's answer! Error: ",
                            detail.as_str(),
                        ),
                    ),
                )
            },
            (AcquirePhase::Submitted, AcquireEvent::Answered(response)) => {
                match StreamStatus::decode(response) {
                    Ok(StreamStatus::Stream(url)) => {
                        self.phase = AcquirePhase::Resolved;
                        AcquireAction::Get(GetRequest { url, accept: None })
                    },
                    Ok(StreamStatus::ErrorMsg(text)) => AcquireAction::Fail(
                        Failure::UpstreamError(text),
                    ),
                    Ok(StreamStatus::RateLimited) => AcquireAction::Fail(Failure::RateLimited),
                    Ok(StreamStatus::Unsupported(status)) => AcquireAction::Fail(
                        Failure::Unsupported(status),
                    ),
                    Err(failure) => AcquireAction::Fail(failure),
                }
            },
            (AcquirePhase::Resolved, AcquireEvent::StreamUnreachable(detail)) => {
                AcquireAction::Fail(
                    Failure::Transport(
                        join(
                            "Got an error requesting the cobalt api's video! Error: ",
                            detail.as_str(),
                        ),
                    ),
                )
            },
            (AcquirePhase::Resolved, AcquireEvent::StreamBroken(detail)) => {
                AcquireAction::Fail(
                    Failure::Transport(
                        join(
                            "Got an error decoding the cobalt api's video! Error: ",
                            detail.as_str(),
                        ),
                    ),
                )
            },
            (AcquirePhase::Resolved, AcquireEvent::Fetched(bytes)) => {
                self.phase = AcquirePhase::Persisting;
                AcquireAction::Write(DownloadTarget { filename: self.filename.clone(), bytes })
            },
            (AcquirePhase::Persisting, AcquireEvent::CreateFailed(detail)) => {
                AcquireAction::Fail(file_failure(FileStep::Create, self.filename.as_str(), detail.as_str()))
            },
            (AcquirePhase::Persisting, AcquireEvent::WriteFailed(detail)) => {
                AcquireAction::Fail(file_failure(FileStep::Write, self.filename.as_str(), detail.as_str()))
            },
            (AcquirePhase::Persisting, AcquireEvent::FlushFailed(detail)) => {
                AcquireAction::Fail(file_failure(FileStep::Flush, self.filename.as_str(), detail.as_str()))
            },
            (AcquirePhase::Persisting, AcquireEvent::Written) => AcquireAction::Succeed,
            _ => AcquireAction::Fail(
                Failure::Precondition(
                    String::from_str("This event does not answer the step that was asked for."),
                ),
            ),
        }
    }
}

impl AcquisitionView {
    /// What is asked for, step by step, as `events` come in one after the
    /// other.
    pub open spec fn trace(self, events: Seq<AcquireEventView>) -> Seq<AcquireActionView>
        decreases events.len(),
    {
        if events.len() == 0 {
            seq![]
        } else {
            let (next, action) = self.step(events[0]);
            seq![action] + next.trace(events.drop_first())
        }
    }
}

/// The three status words of the relay differ from one another.
proof fn lemma_status_words()
    ensures
        "error"@ != "rate-limit"@,
        "error"@ != "stream"@,
        "rate-limit"@ != "stream"@,
{
    reveal_strlit("error");
    reveal_strlit("rate-limit");
    reveal_strlit("stream");
    assert("error"@.len() == 5);
    assert("rate-limit"@.len() == 10);
    assert("stream"@.len() == 6);
}

/// When the relay names a stream and the stream is read to its end, a plain
/// `GET` of the named address is asked for, then the bytes read are handed
/// out unchanged to be stored under the chosen file name, and once they are
/// stored the acquisition has succeeded.
pub proof fn lemma_stream_is_stored_verbatim(
    start: AcquisitionView,
    text: Option<Seq<char>>,
    url: Seq<char>,
    bytes: Seq<u8>,
)
    requires
        start.phase == AcquirePhase::Submitted,
    ensures
        start.trace(
            seq![
                answered("stream"@, text, Some(url)),
                AcquireEventView::Fetched(bytes),
                AcquireEventView::Written,
            ],
        ) == seq![
            AcquireActionView::Get(GetRequestView::plain(url)),
            write_of(start.filename, bytes),
            AcquireActionView::Succeed,
        ],
{
    lemma_status_words();
    let answer = answered("stream"@, text, Some(url));
    let events = seq![answer, AcquireEventView::Fetched(bytes), AcquireEventView::Written];
    let resolved = start.step(events[0]).0;
    let persisting = resolved.step(events[1]).0;
    let finished = persisting.step(events[2]).0;
    let rest1 = events.drop_first();
    let rest2 = rest1.drop_first();
    let rest3 = rest2.drop_first();
    assert(rest1[0] == events[1]);
    assert(rest2[0] == events[2]);
    assert(rest3.len() == 0);
    assert(finished.trace(rest3) =~= seq![]);
    assert(persisting.trace(rest2) =~= seq![AcquireActionView::Succeed]);
    assert(resolved.trace(rest1) =~= seq![
        write_of(start.filename, bytes),
        AcquireActionView::Succeed,
    ]);
    assert(start.trace(events) =~= seq![
        AcquireActionView::Get(GetRequestView::plain(url)),
        write_of(start.filename, bytes),
        AcquireActionView::Succeed,
    ]);
}

/// Bytes are handed out for storing only when a stream has been read to its
/// end, and they are the bytes that were read, under the chosen file name.
pub proof fn lemma_write_follows_fetch(before: AcquisitionView, event: AcquireEventView)
    requires
        before.step(event).1 is Write,
    ensures
        before.phase == AcquirePhase::Resolved,
        event is Fetched,
        before.step(event).1 == write_of(before.filename, event->Fetched_0),
{
}

/// Once an acquisition has ended, whatever comes in is answered with a
/// failure: nothing is fetched, nothing is stored, and no success is
/// reported.
pub proof fn lemma_nothing_after_the_end(
    ended: AcquisitionView,
    events: Seq<AcquireEventView>,
    i: int,
)
    requires
        ended.phase == AcquirePhase::Finished,
        0 <= i < events.len(),
    ensures
        ended.trace(events).len() == events.len(),
        ended.trace(events)[i] is Fail,
    decreases events.len(),
{
    let next = ended.step(events[0]).0;
    lemma_trace_len(next, events.drop_first());
    if i > 0 {
        lemma_nothing_after_the_end(next, events.drop_first(), i - 1);
    }
}

/// Every event is answered with one action.
pub proof fn lemma_trace_len(start: AcquisitionView, events: Seq<AcquireEventView>)
    ensures
        start.trace(events).len() == events.len(),
    decreases events.len(),
{
    if events.len() > 0 {
        lemma_trace_len(start.step(events[0]).0, events.drop_first());
    }
}

/// When the relay answers that the rate limit is reached, the acquisition
/// fails as a refusal of the relay, and whatever comes in afterwards, no
/// bytes are ever handed out for storing.
pub proof fn lemma_rate_limit_stores_nothing(
    start: AcquisitionView,
    text: Option<Seq<char>>,
    url: Option<Seq<char>>,
    later: Seq<AcquireEventView>,
    i: int,
)
    requires
        start.phase == AcquirePhase::Submitted,
        0 <= i <= later.len(),
    ensures
        ({
            let answer = answered("rate-limit"@, text, url);
            let actions = start.trace(seq![answer] + later);
            &&& actions.len() == later.len() + 1
            &&& actions[0] == AcquireActionView::Fail(FailureModel::RateLimited)
            &&& FailureModel::RateLimited.kind() == FailureKind::UpstreamRejected
            &&& !(actions[i] is Write)
        }),
{
    lemma_status_words();
    let answer = answered("rate-limit"@, text, url);
    let events = seq![answer] + later;
    let ended = start.step(answer).0;
    assert(events[0] == answer);
    assert(events.drop_first() =~= later);
    lemma_trace_len(ended, later);
    if i > 0 {
        lemma_nothing_after_the_end(ended, later, i - 1);
    }
}

/// A status that is none of `error`, `rate-limit` and `stream` ends the
/// acquisition with a failure of its own that names the status; it is a
/// refusal of the relay, and never a success.
pub proof fn lemma_unknown_status_is_unsupported(
    start: AcquisitionView,
    response: ResponseBodyView,
)
    requires
        start.phase == AcquirePhase::Submitted,
        response.status != "error"@,
        response.status != "rate-limit"@,
        response.status != "stream"@,
    ensures
        response.meaning() == Ok::<StreamStatusView, FailureModel>(
            StreamStatusView::Unsupported(response.status),
        ),
        start.step(AcquireEventView::Answered(response)) == (
            start.finished(),
            AcquireActionView::Fail(FailureModel::Unsupported(response.status)),
        ),
        FailureModel::Unsupported(response.status).kind()
            == FailureKind::UpstreamRejected,
{
}

} // verus!
