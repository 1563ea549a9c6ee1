//! The ways in which a download fails.

use vstd::prelude::*;
use crate::text::join;

verus! {

/// Why a download was given up. Each variant carries the text that came with
/// the failure where it arose; nothing rewrites it on the way to the caller.
#[derive(Debug, Clone, PartialEq, Eq)]
pub enum DownloadError {
    /// The network failed, at any phase.
    TransportError(String),
    /// An answer of the service could not be read, or lacks a member that
    /// must be there.
    MalformedResponse(String),
    /// The service declined the job; the text is the one it sent.
    SubmissionRejected(String),
    /// The service reported that processing failed; the text is the one it sent.
    JobFailed(String),
    /// The local file could not be created or written.
    IOError(String),
}

/// A [`DownloadError`] with its text as a sequence of characters.
pub enum DownloadErrorView {
    TransportError(Seq<char>),
    MalformedResponse(Seq<char>),
    SubmissionRejected(Seq<char>),
    JobFailed(Seq<char>),
    IOError(Seq<char>),
}

impl View for DownloadError {
    type V = DownloadErrorView;

    open spec fn view(&self) -> DownloadErrorView {
        match self {
            DownloadError::TransportError(text) => DownloadErrorView::TransportError(text@),
            DownloadError::MalformedResponse(text) => DownloadErrorView::MalformedResponse(text@),
            DownloadError::SubmissionRejected(text) => DownloadErrorView::SubmissionRejected(text@),
            DownloadError::JobFailed(text) => DownloadErrorView::JobFailed(text@),
            DownloadError::IOError(text) => DownloadErrorView::IOError(text@),
        }
    }
}

impl DownloadErrorView {
    /// The text that came with the failure.
    pub open spec fn detail(self) -> Seq<char> {
        match self {
            DownloadErrorView::TransportError(text) => text,
            DownloadErrorView::MalformedResponse(text) => text,
            DownloadErrorView::SubmissionRejected(text) => text,
            DownloadErrorView::JobFailed(text) => text,
            DownloadErrorView::IOError(text) => text,
        }
    }

    /// The sentence shown to a person.
    pub open spec fn message(self) -> Seq<char> {
        match self {
            DownloadErrorView::SubmissionRejected(text) => "Initial request failed: "@ + text
                + ". Please check the Spotify ID and try again."@,
            DownloadErrorView::JobFailed(text) => "API request failed: "@ + text,
            _ => self.detail(),
        }
    }
}

impl DownloadError {
    /// A copy of the error, with the same text.
    pub fn duplicate(&self) -> (copy: DownloadError)
        ensures
            copy@ == self@,
    {
        match self {
            DownloadError::TransportError(text) => DownloadError::TransportError(text.clone()),
            DownloadError::MalformedResponse(text) => DownloadError::MalformedResponse(text.clone()),
            DownloadError::SubmissionRejected(text) => DownloadError::SubmissionRejected(text.clone()),
            DownloadError::JobFailed(text) => DownloadError::JobFailed(text.clone()),
            DownloadError::IOError(text) => DownloadError::IOError(text.clone()),
        }
    }

    /// The text that came with the failure.
    pub fn detail(&self) -> (text: &str)
        ensures
            text@ == self@.detail(),
    {
        match self {
            DownloadError::TransportError(text) => text.as_str(),
            DownloadError::MalformedResponse(text) => text.as_str(),
            DownloadError::SubmissionRejected(text) => text.as_str(),
            DownloadError::JobFailed(text) => text.as_str(),
            DownloadError::IOError(text) => text.as_str(),
        }
    }

    /// The sentence shown to a person: the failure's own text, framed for the
    /// two failures that the service itself reports.
    pub fn message(&self) -> (sentence: String)
        ensures
            sentence@ == self@.message(),
    {
        match self {
            DownloadError::SubmissionRejected(text) => join("Initial request failed: ", text.as_str()).concat(
                ". Please check the Spotify ID and try again.",
            ),
            DownloadError::JobFailed(text) => join("API request failed: ", text.as_str()),
            _ => self.detail().to_owned(),
        }
    }
}

} // verus!
