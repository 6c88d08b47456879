//! The ways in which archiving a video can fail.

use vstd::prelude::*;
use vstd::string::*;
use crate::text::{join, join3};

verus! {

/// The category of a failure.
#[derive(Clone, Copy, Debug, PartialEq, Eq, Structural)]
pub enum FailureKind {
    /// The network could not be used: no connection, no name, no secure channel.
    Transport,
    /// The relay answered and refused: an error, a rate limit, or a status
    /// that is not understood.
    UpstreamRejected,
    /// An answer was not the expected JSON, or lacked a part it must have.
    ParseFailure,
    /// The input was malformed, or an answer named no item where one is needed.
    Precondition,
    /// A file could not be created, written or flushed.
    Filesystem,
}

/// A failure, with what is known about it.
#[derive(Clone, Debug, PartialEq, Eq)]
pub enum Failure {
    /// The network failed; the text describes the request and the fault.
    Transport(String),
    /// The relay reported an error; the text is its message, unchanged.
    UpstreamError(String),
    /// The relay refused because of too many requests.
    RateLimited,
    /// The relay answered with a status that is not understood; the text is
    /// that status, unchanged.
    Unsupported(String),
    /// An answer could not be decoded; the text describes the fault.
    ParseFailure(String),
    /// An input or an answer did not meet what the step needs; the text says
    /// what was missing.
    Precondition(String),
    /// A file operation failed; the text names the file and the fault.
    Filesystem(String),
}

/// A failure as a mathematical value.
pub enum FailureModel {
    Transport(Seq<char>),
    UpstreamError(Seq<char>),
    RateLimited,
    Unsupported(Seq<char>),
    ParseFailure(Seq<char>),
    Precondition(Seq<char>),
    Filesystem(Seq<char>),
}

impl FailureModel {
    /// The category that the failure belongs to. All three refusals of the
    /// relay fall under `UpstreamRejected`.
    pub open spec fn kind(self) -> FailureKind {
        match self {
            FailureModel::Transport(_) => FailureKind::Transport,
            FailureModel::UpstreamError(_) => FailureKind::UpstreamRejected,
            FailureModel::RateLimited => FailureKind::UpstreamRejected,
            FailureModel::Unsupported(_) => FailureKind::UpstreamRejected,
            FailureModel::ParseFailure(_) => FailureKind::ParseFailure,
            FailureModel::Precondition(_) => FailureKind::Precondition,
            FailureModel::Filesystem(_) => FailureKind::Filesystem,
        }
    }

    /// The one message under which the failure is reported.
    pub open spec fn message(self) -> Seq<char> {
        match self {
            FailureModel::Transport(detail) => detail,
            FailureModel::UpstreamError(text) => "Got an error posting to the cobalt api! Message: "@
                + text,
            FailureModel::RateLimited => "Rate-limited from the cobalt api."@,
            FailureModel::Unsupported(status) => "No implementation for status "@ + status + "."@,
            FailureModel::ParseFailure(detail) => detail,
            FailureModel::Precondition(detail) => detail,
            FailureModel::Filesystem(detail) => detail,
        }
    }
}

impl View for Failure {
    type V = FailureModel;

    open spec fn view(&self) -> FailureModel {
        match self {
            Failure::Transport(s) => FailureModel::Transport(s@),
            Failure::UpstreamError(s) => FailureModel::UpstreamError(s@),
            Failure::RateLimited => FailureModel::RateLimited,
            Failure::Unsupported(s) => FailureModel::Unsupported(s@),
            Failure::ParseFailure(s) => FailureModel::ParseFailure(s@),
            Failure::Precondition(s) => FailureModel::Precondition(s@),
            Failure::Filesystem(s) => FailureModel::Filesystem(s@),
        }
    }
}

impl Failure {
    /// The category that the failure belongs to.
    pub fn kind(&self) -> (k: FailureKind)
        ensures
            k == self@.kind(),
    {
        match self {
            Failure::Transport(_) => FailureKind::Transport,
            Failure::UpstreamError(_) => FailureKind::UpstreamRejected,
            Failure::RateLimited => FailureKind::UpstreamRejected,
            Failure::Unsupported(_) => FailureKind::UpstreamRejected,
            Failure::ParseFailure(_) => FailureKind::ParseFailure,
            Failure::Precondition(_) => FailureKind::Precondition,
            Failure::Filesystem(_) => FailureKind::Filesystem,
        }
    }

    /// The one message under which the failure is reported.
    pub fn message(&self) -> (m: String)
        ensures
            m@ == self@.message(),
    {
        match self {
            Failure::Transport(detail) => detail.clone(),
            Failure::UpstreamError(text) => join(
                "Got an error posting to the cobalt api! Message: ",
                text.as_str(),
            ),
            Failure::RateLimited => String::from_str("Rate-limited from the cobalt api."),
            Failure::Unsupported(status) => join3(
                "No implementation for status ",
                status.as_str(),
                ".",
            ),
            Failure::ParseFailure(detail) => detail.clone(),
            Failure::Precondition(detail) => detail.clone(),
            Failure::Filesystem(detail) => detail.clone(),
        }
    }
}

/// An operation on a file.
#[derive(Clone, Copy, Debug, PartialEq, Eq, Structural)]
pub enum FileStep {
    Create,
    Write,
    Flush,
}

impl FileStep {
    /// The words that name the operation in a message.
    pub open spec fn verb(self) -> Seq<char> {
        match self {
            FileStep::Create => "create"@,
            FileStep::Write => "write to"@,
            FileStep::Flush => "flush"@,
        }
    }
}

/// The message for the operation `step` that failed on the file `filename`;
/// `detail` says why.
pub open spec fn file_message(step: FileStep, filename: Seq<char>, detail: Seq<char>) -> Seq<
    char,
> {
    "Couldn't "@ + step.verb() + " file "@ + filename + ". Error: "@ + detail
}

/// The failure of the operation `step` on the file `filename`; `detail` says
/// why it failed.
pub fn file_failure(step: FileStep, filename: &str, detail: &str) -> (f: Failure)
    ensures
        f@ == FailureModel::Filesystem(file_message(step, filename@, detail@)),
{
    let verb = match step {
        FileStep::Create => "create",
        FileStep::Write => "write to",
        FileStep::Flush => "flush",
    };
    let head = join3("Couldn't ", verb, " file ");
    let tail = join3(filename, ". Error: ", detail);
    let m = join(head.as_str(), tail.as_str());
    assert(m@ =~= file_message(step, filename@, detail@));
    Failure::Filesystem(m)
}

} // verus!
