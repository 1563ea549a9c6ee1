//! Polling a job: where its status is asked for, and what an answer means.

use vstd::prelude::*;
use crate::error::DownloadError;
use crate::error::DownloadErrorView;
use crate::json::members;
use crate::json::parse;
use crate::json::parsed;
use crate::json::spec_undecodable;
use crate::json::string_at;
use crate::json::undecodable;
use crate::json::Members;
use crate::submit::JobHandle;
use crate::submit::JobHandleView;
use crate::text::join;
use crate::text::same_text;
use crate::text::spec_text_or;
use crate::text::text_or;

verus! {

/// Where a job stands. Only `Completed` and `Failed` are final.
#[derive(Debug, Clone, PartialEq, Eq)]
pub enum JobStatus {
    Pending,
    Completed,
    /// Processing failed; the text is the service's, or a placeholder.
    Failed(String),
}

/// A [`JobStatus`] with its texts as sequences of characters.
pub enum JobStatusView {
    Pending,
    Completed,
    Failed(Seq<char>),
}

impl View for JobStatus {
    type V = JobStatusView;

    open spec fn view(&self) -> JobStatusView {
        match self {
            JobStatus::Pending => JobStatusView::Pending,
            JobStatus::Completed => JobStatusView::Completed,
            JobStatus::Failed(text) => JobStatusView::Failed(text@),
        }
    }
}

/// What the protocol reads in the answer to a status query: the members
/// `status` and `message`, each where it is there and holds a string.
#[derive(Debug, Clone, PartialEq, Eq)]
pub struct StatusReply {
    pub status: Option<String>,
    pub message: Option<String>,
}

/// A [`StatusReply`] with its texts as sequences of characters.
pub struct StatusReplyView {
    pub status: Option<Seq<char>>,
    pub message: Option<Seq<char>>,
}

impl View for StatusReply {
    type V = StatusReplyView;

    open spec fn view(&self) -> StatusReplyView {
        StatusReplyView { status: self.status.deep_view(), message: self.message.deep_view() }
    }
}

/// The view of a reply or of the error in its place.
pub open spec fn status_view(outcome: Result<StatusReply, DownloadError>) -> Result<
    StatusReplyView,
    DownloadErrorView,
> {
    match outcome {
        Ok(reply) => Ok(reply@),
        Err(error) => Err(error@),
    }
}

impl StatusReplyView {
    /// What the protocol reads in a document's members.
    pub open spec fn of(members: Members) -> StatusReplyView {
        StatusReplyView { status: members.text("status"@), message: members.text("message"@) }
    }

    /// What an answer's body is read as: the reply, or the error for a body
    /// that is no JSON document.
    pub open spec fn decoded(body: Seq<u8>) -> Result<StatusReplyView, DownloadErrorView> {
        match parsed(body) {
            Some(members) => Ok(StatusReplyView::of(members)),
            None => Err(spec_undecodable()),
        }
    }

    /// Where the job stands. The status `completed` and the status `error`
    /// are final; with any other status, or none, the job is still pending.
    pub open spec fn status(self) -> JobStatusView {
        if self.status == Some("completed"@) {
            JobStatusView::Completed
        } else if self.status == Some("error"@) {
            JobStatusView::Failed(spec_text_or(self.message, "Unknown error"@))
        } else {
            JobStatusView::Pending
        }
    }
}

impl StatusReply {
    /// Reads the answer to a status query out of a parsed document.
    pub fn read(document: &serde_json::Value) -> (reply: StatusReply)
        ensures
            reply@ == StatusReplyView::of(members(*document)),
    {
        StatusReply { status: string_at(document, "status"), message: string_at(document, "message") }
    }

    /// Reads the answer to a status query out of its body.
    pub fn decode(body: &[u8]) -> (outcome: Result<StatusReply, DownloadError>)
        ensures
            status_view(outcome) == StatusReplyView::decoded(body@),
    {
        match parse(body) {
            Ok(document) => Ok(StatusReply::read(&document)),
            Err(_) => Err(undecodable()),
        }
    }

    /// Where the job stands.
    pub fn status(self) -> (status: JobStatus)
        ensures
            status@ == self@.status(),
    {
        match self.status {
            Some(word) => {
                if same_text(word.as_str(), "completed") {
                    JobStatus::Completed
                } else if same_text(word.as_str(), "error") {
                    JobStatus::Failed(text_or(self.message, "Unknown error"))
                } else {
                    JobStatus::Pending
                }
            },
            None => JobStatus::Pending,
        }
    }
}

impl JobHandleView {
    /// The address at which the job's status is asked for.
    pub open spec fn status_url(self) -> Seq<char> {
        "https://"@ + self.server + ".lucida.to/api/fetch/request/"@ + self.handoff
    }
}

impl JobHandle {
    /// The address at which the job's status is asked for: on the job's own
    /// server, under its handoff.
    pub fn status_url(&self) -> (url: String)
        ensures
            url@ == self@.status_url(),
    {
        join("https://", self.server.as_str()).concat(".lucida.to/api/fetch/request/").concat(
            self.handoff.as_str(),
        )
    }
}

} // verus!
