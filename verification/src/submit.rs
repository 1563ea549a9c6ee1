//! Submitting a conversion job: the request that is sent, and what the
//! service's acknowledgment means.

use vstd::prelude::*;
use crate::error::DownloadError;
use crate::error::DownloadErrorView;
use crate::format::AudioFormat;
use crate::format::Encoding;
use crate::json::flag_at;
use crate::json::members;
use crate::json::parse;
use crate::json::parsed;
use crate::json::spec_undecodable;
use crate::json::string_at;
use crate::json::undecodable;
use crate::json::Members;
use crate::text::join;
use crate::text::owned;
use crate::text::spec_text_or;
use crate::text::text_or;
use crate::text::text_view;

verus! {

/// The address to which a job is posted.
pub open spec fn spec_submission_endpoint() -> Seq<char> {
    "https://lucida.to/api/load?url=/api/fetch/stream/v2"@
}

/// The address of a track at the streaming service.
pub open spec fn spec_source_url(track_id: Seq<char>) -> Seq<char> {
    "https://open.spotify.com/track/"@ + track_id
}

/// The address to which a job is posted.
pub fn submission_endpoint() -> (url: &'static str)
    ensures
        url@ == spec_submission_endpoint(),
{
    "https://lucida.to/api/load?url=/api/fetch/stream/v2"
}

/// The address of a track at the streaming service.
pub fn source_url(track_id: &str) -> (url: String)
    ensures
        url@ == spec_source_url(track_id@),
{
    join("https://open.spotify.com/track/", track_id)
}

/// The authorization that a submission carries. The caller supplies it; the
/// library holds none of its own.
#[derive(Debug, Clone, PartialEq, Eq)]
pub struct Token {
    /// When the token expires, in seconds since the epoch.
    pub expiry: u64,
    pub primary: String,
}

/// A [`Token`] with its texts as sequences of characters.
pub struct TokenView {
    pub expiry: u64,
    pub primary: Seq<char>,
}

impl View for Token {
    type V = TokenView;

    open spec fn view(&self) -> TokenView {
        TokenView { expiry: self.expiry, primary: self.primary@ }
    }
}

/// What a caller asks for: a track, the region to fetch it from, the
/// encoding to deliver, and the pause between two status queries. A request
/// is made once and read from then on; nothing changes it.
#[derive(Debug, Clone, PartialEq, Eq)]
pub struct DownloadRequest {
    track_id: String,
    region: Option<String>,
    encoding: Encoding,
    poll_interval_secs: u64,
}

/// A [`DownloadRequest`] with its texts as sequences of characters.
pub struct DownloadRequestView {
    pub track_id: Seq<char>,
    /// A country code; without one the service chooses.
    pub region: Option<Seq<char>>,
    pub encoding: Encoding,
    /// The pause between two status queries, in seconds.
    pub poll_interval_secs: u64,
}

impl View for DownloadRequest {
    type V = DownloadRequestView;

    closed spec fn view(&self) -> DownloadRequestView {
        DownloadRequestView {
            track_id: self.track_id@,
            region: self.region.deep_view(),
            encoding: self.encoding,
            poll_interval_secs: self.poll_interval_secs,
        }
    }
}

/// The region selector of a submission.
#[derive(Debug, Clone, PartialEq, Eq)]
pub struct Account {
    pub id: String,
    /// Sent under the key `type`.
    pub kind: String,
}

/// An [`Account`] with its texts as sequences of characters.
pub struct AccountView {
    pub id: Seq<char>,
    pub kind: Seq<char>,
}

impl View for Account {
    type V = AccountView;

    open spec fn view(&self) -> AccountView {
        AccountView { id: self.id@, kind: self.kind@ }
    }
}

/// Whether the service should pass the result on to a file host.
#[derive(Debug, Clone, PartialEq, Eq)]
pub struct Upload {
    pub enabled: bool,
    pub service: String,
}

/// An [`Upload`] with its texts as sequences of characters.
pub struct UploadView {
    pub enabled: bool,
    pub service: Seq<char>,
}

impl View for Upload {
    type V = UploadView;

    open spec fn view(&self) -> UploadView {
        UploadView { enabled: self.enabled, service: self.service@ }
    }
}

/// The body of a submission. Each field is sent as the member of the same
/// name, but for [`Account::kind`].
#[derive(Debug, Clone, PartialEq, Eq)]
pub struct SubmissionPayload {
    pub account: Account,
    pub downscale: String,
    pub handoff: bool,
    pub metadata: bool,
    pub private: bool,
    pub token: Token,
    pub upload: Upload,
    pub url: String,
}

/// A [`SubmissionPayload`] with its texts as sequences of characters.
pub struct SubmissionPayloadView {
    pub account: AccountView,
    pub downscale: Seq<char>,
    pub handoff: bool,
    pub metadata: bool,
    pub private: bool,
    pub token: TokenView,
    pub upload: UploadView,
    pub url: Seq<char>,
}

impl View for SubmissionPayload {
    type V = SubmissionPayloadView;

    open spec fn view(&self) -> SubmissionPayloadView {
        SubmissionPayloadView {
            account: self.account@,
            downscale: self.downscale@,
            handoff: self.handoff,
            metadata: self.metadata,
            private: self.private,
            token: self.token@,
            upload: self.upload@,
            url: self.url@,
        }
    }
}

impl DownloadRequestView {
    /// The region that is sent: the caller's, or `auto`.
    pub open spec fn region_id(self) -> Seq<char> {
        spec_text_or(self.region, "auto"@)
    }

    /// The body of the submission for this request.
    pub open spec fn payload(self, token: TokenView) -> SubmissionPayloadView {
        SubmissionPayloadView {
            account: AccountView { id: self.region_id(), kind: "country"@ },
            downscale: self.encoding.downscale(),
            handoff: true,
            metadata: false,
            private: true,
            token: token,
            upload: UploadView { enabled: false, service: "pixeldrain"@ },
            url: spec_source_url(self.track_id),
        }
    }
}

impl DownloadRequest {
    /// A request for `track_id` in a format of the catalog, with a pause of
    /// one second between two status queries.
    pub fn new(track_id: &str, region: Option<&str>, format: AudioFormat) -> (request: DownloadRequest)
        ensures
            request@ == (DownloadRequestView {
                track_id: track_id@,
                region: text_view(region),
                encoding: Encoding::Catalog(format),
                poll_interval_secs: 1,
            }),
    {
        DownloadRequest {
            track_id: track_id.to_owned(),
            region: owned(region),
            encoding: Encoding::Catalog(format),
            poll_interval_secs: 1,
        }
    }

    /// The same request for another encoding.
    pub fn with_encoding(self, encoding: Encoding) -> (request: DownloadRequest)
        ensures
            request@ == (DownloadRequestView { encoding, ..self@ }),
    {
        DownloadRequest {
            track_id: self.track_id,
            region: self.region,
            encoding,
            poll_interval_secs: self.poll_interval_secs,
        }
    }

    /// The same request with a pause of `seconds` between two status queries.
    pub fn with_poll_interval(self, seconds: u64) -> (request: DownloadRequest)
        ensures
            request@ == (DownloadRequestView { poll_interval_secs: seconds, ..self@ }),
    {
        DownloadRequest {
            track_id: self.track_id,
            region: self.region,
            encoding: self.encoding,
            poll_interval_secs: seconds,
        }
    }

    pub fn track_id(&self) -> (track_id: &str)
        ensures
            track_id@ == self@.track_id,
    {
        self.track_id.as_str()
    }

    /// The country code, if the caller gave one.
    pub fn region(&self) -> (region: Option<&str>)
        ensures
            text_view(region) == self@.region,
    {
        match &self.region {
            Some(code) => Some(code.as_str()),
            None => None,
        }
    }

    pub fn encoding(&self) -> (encoding: Encoding)
        ensures
            encoding == self@.encoding,
    {
        self.encoding
    }

    /// The pause between two status queries, in seconds.
    pub fn poll_interval_secs(&self) -> (seconds: u64)
        ensures
            seconds == self@.poll_interval_secs,
    {
        self.poll_interval_secs
    }

    /// The body of the submission for this request: the track's address, the
    /// region, the encoding profile, uploads switched off, and `token`.
    pub fn payload(&self, token: &Token) -> (payload: SubmissionPayload)
        ensures
            payload@ == self@.payload(token@),
    {
        let region = match &self.region {
            Some(code) => code.clone(),
            None => "auto".to_owned(),
        };
        SubmissionPayload {
            account: Account { id: region, kind: "country".to_owned() },
            downscale: self.encoding.to_downscale_string().to_owned(),
            handoff: true,
            metadata: false,
            private: true,
            token: Token { expiry: token.expiry, primary: token.primary.clone() },
            upload: Upload { enabled: false, service: "pixeldrain".to_owned() },
            url: source_url(self.track_id.as_str()),
        }
    }
}

/// The identifiers under which the service runs an accepted job. Every later
/// address is built from them.
#[derive(Debug, Clone, PartialEq, Eq)]
pub struct JobHandle {
    pub handoff: String,
    pub server: String,
}

/// A [`JobHandle`] with its texts as sequences of characters.
pub struct JobHandleView {
    pub handoff: Seq<char>,
    pub server: Seq<char>,
}

impl View for JobHandle {
    type V = JobHandleView;

    open spec fn view(&self) -> JobHandleView {
        JobHandleView { handoff: self.handoff@, server: self.server@ }
    }
}

/// What the protocol reads in the acknowledgment of a submission: the members
/// `success`, `error`, `handoff` and `server`, each where it is there and of
/// the right type.
#[derive(Debug, Clone, PartialEq, Eq)]
pub struct SubmissionReply {
    pub success: Option<bool>,
    pub error: Option<String>,
    pub handoff: Option<String>,
    pub server: Option<String>,
}

/// A [`SubmissionReply`] with its texts as sequences of characters.
pub struct SubmissionReplyView {
    pub success: Option<bool>,
    pub error: Option<Seq<char>>,
    pub handoff: Option<Seq<char>>,
    pub server: Option<Seq<char>>,
}

impl View for SubmissionReply {
    type V = SubmissionReplyView;

    open spec fn view(&self) -> SubmissionReplyView {
        SubmissionReplyView {
            success: self.success,
            error: self.error.deep_view(),
            handoff: self.handoff.deep_view(),
            server: self.server.deep_view(),
        }
    }
}

/// The view of a handle or of the error in its place.
pub open spec fn handle_view(outcome: Result<JobHandle, DownloadError>) -> Result<
    JobHandleView,
    DownloadErrorView,
> {
    match outcome {
        Ok(handle) => Ok(handle@),
        Err(error) => Err(error@),
    }
}

/// The view of a reply or of the error in its place.
pub open spec fn submission_view(outcome: Result<SubmissionReply, DownloadError>) -> Result<
    SubmissionReplyView,
    DownloadErrorView,
> {
    match outcome {
        Ok(reply) => Ok(reply@),
        Err(error) => Err(error@),
    }
}

impl SubmissionReplyView {
    /// What the protocol reads in a document's members.
    pub open spec fn of(members: Members) -> SubmissionReplyView {
        SubmissionReplyView {
            success: members.flag("success"@),
            error: members.text("error"@),
            handoff: members.text("handoff"@),
            server: members.text("server"@),
        }
    }

    /// What an answer's body is read as: the reply, or the error for a body
    /// that is no JSON document.
    pub open spec fn decoded(body: Seq<u8>) -> Result<SubmissionReplyView, DownloadErrorView> {
        match parsed(body) {
            Some(members) => Ok(SubmissionReplyView::of(members)),
            None => Err(spec_undecodable()),
        }
    }

    /// The job handle of an accepted submission, or the error.
    ///
    /// A reply whose `success` is anything but `true` is a rejection, with
    /// the service's `error` text. An accepted one must name a handoff and a
    /// server.
    pub open spec fn outcome(self) -> Result<JobHandleView, DownloadErrorView> {
        if self.success != Some(true) {
            Err(DownloadErrorView::SubmissionRejected(spec_text_or(self.error, "Unknown error"@)))
        } else if self.handoff is None {
            Err(DownloadErrorView::MalformedResponse("No handoff value in response"@))
        } else if self.server is None {
            Err(DownloadErrorView::MalformedResponse("No server value in response"@))
        } else {
            Ok(JobHandleView { handoff: self.handoff->0, server: self.server->0 })
        }
    }
}

impl SubmissionReply {
    /// Reads the acknowledgment out of a parsed document.
    pub fn read(document: &serde_json::Value) -> (reply: SubmissionReply)
        ensures
            reply@ == SubmissionReplyView::of(members(*document)),
    {
        SubmissionReply {
            success: flag_at(document, "success"),
            error: string_at(document, "error"),
            handoff: string_at(document, "handoff"),
            server: string_at(document, "server"),
        }
    }

    /// Reads the acknowledgment out of the body of the service's answer.
    pub fn decode(body: &[u8]) -> (outcome: Result<SubmissionReply, DownloadError>)
        ensures
            submission_view(outcome) == SubmissionReplyView::decoded(body@),
    {
        match parse(body) {
            Ok(document) => Ok(SubmissionReply::read(&document)),
            Err(_) => Err(undecodable()),
        }
    }

    /// The job handle of an accepted submission, or the error.
    pub fn outcome(self) -> (outcome: Result<JobHandle, DownloadError>)
        ensures
            handle_view(outcome) == self@.outcome(),
    {
        let accepted = match self.success {
            Some(flag) => flag,
            None => false,
        };
        if !accepted {
            return Err(DownloadError::SubmissionRejected(text_or(self.error, "Unknown error")));
        }
        let handoff = match self.handoff {
            Some(handoff) => handoff,
            None => {
                return Err(DownloadError::MalformedResponse("No handoff value in response".to_owned()));
            },
        };
        let server = match self.server {
            Some(server) => server,
            None => {
                return Err(DownloadError::MalformedResponse("No server value in response".to_owned()));
            },
        };
        Ok(JobHandle { handoff, server })
    }
}

} // verus!
