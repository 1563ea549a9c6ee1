//! The download as a state machine.
//!
//! A [`Session`] is the state of one download. At every moment it waits for
//! one thing to be done outside: the [`Action`] that [`Session::pending`]
//! names. The driver does it and reports with an [`Event`];
//! [`Session::advance`] gives the state that follows. Nothing here touches
//! the network, the file system or a clock.

use vstd::prelude::*;
use crate::error::DownloadError;
use crate::error::DownloadErrorView;
use crate::format::Encoding;
use crate::poll::JobStatus;
use crate::poll::JobStatusView;
use crate::poll::StatusReply;
use crate::poll::StatusReplyView;
use crate::submit::submission_endpoint;
use crate::submit::spec_submission_endpoint;
use crate::submit::DownloadRequest;
use crate::submit::DownloadRequestView;
use crate::submit::JobHandle;
use crate::submit::JobHandleView;
use crate::submit::SubmissionPayload;
use crate::submit::SubmissionPayloadView;
use crate::submit::SubmissionReply;
use crate::submit::SubmissionReplyView;
use crate::submit::Token;
use crate::submit::TokenView;
use crate::transfer::DownloadResult;
use crate::transfer::DownloadResultView;
use crate::transfer::Progress;

verus! {

/// What the driver reports.
#[derive(Debug, Clone, PartialEq, Eq)]
pub enum Event {
    /// The submission was answered.
    Submitted(SubmissionReply),
    /// A status query was answered.
    Polled(StatusReply),
    /// The transfer has begun and the local file was created.
    Opened { content_length: Option<u64> },
    /// A piece of the file arrived and was written.
    Written { len: u64 },
    /// The transfer has ended and the local file is closed.
    Closed { elapsed_ms: u128 },
    /// The network failed; the text says how.
    TransportFailed(String),
    /// The local file could not be created or written; the text says how.
    IoFailed(String),
}

/// An [`Event`] with its texts as sequences of characters.
pub enum EventView {
    Submitted(SubmissionReplyView),
    Polled(StatusReplyView),
    Opened { content_length: Option<u64> },
    Written { len: u64 },
    Closed { elapsed_ms: u128 },
    TransportFailed(Seq<char>),
    IoFailed(Seq<char>),
}

impl View for Event {
    type V = EventView;

    open spec fn view(&self) -> EventView {
        match self {
            Event::Submitted(reply) => EventView::Submitted(reply@),
            Event::Polled(reply) => EventView::Polled(reply@),
            Event::Opened { content_length } => EventView::Opened { content_length: *content_length },
            Event::Written { len } => EventView::Written { len: *len },
            Event::Closed { elapsed_ms } => EventView::Closed { elapsed_ms: *elapsed_ms },
            Event::TransportFailed(text) => EventView::TransportFailed(text@),
            Event::IoFailed(text) => EventView::IoFailed(text@),
        }
    }
}

/// What the driver is to do next.
#[derive(Debug, Clone, PartialEq, Eq)]
pub enum Action {
    /// Post `payload` to `url`; report `Submitted` with the answer.
    Submit { url: String, payload: SubmissionPayload },
    /// Query `url` at once; report `Polled` with the answer.
    Poll { url: String },
    /// The job is still pending: show that the download is alive, let
    /// `seconds` pass, then query `url` and report `Polled` with the answer.
    Wait { seconds: u64, url: String },
    /// Request `url` and create the file `file_name` in the destination
    /// directory; report `Opened` with the announced length.
    Open { url: String, file_name: String },
    /// Show `progress`, then write the next piece of the file and report
    /// `Written`, or `Closed` when there is none left.
    Receive { progress: Progress },
    /// Hand the result to the caller.
    Finish(DownloadResult),
    /// Hand the error to the caller.
    Abort(DownloadError),
}

/// An [`Action`] with its texts as sequences of characters.
pub enum ActionView {
    Submit { url: Seq<char>, payload: SubmissionPayloadView },
    Poll { url: Seq<char> },
    Wait { seconds: u64, url: Seq<char> },
    Open { url: Seq<char>, file_name: Seq<char> },
    Receive { progress: Progress },
    Finish(DownloadResultView),
    Abort(DownloadErrorView),
}

impl View for Action {
    type V = ActionView;

    open spec fn view(&self) -> ActionView {
        match self {
            Action::Submit { url, payload } => ActionView::Submit { url: url@, payload: payload@ },
            Action::Poll { url } => ActionView::Poll { url: url@ },
            Action::Wait { seconds, url } => ActionView::Wait { seconds: *seconds, url: url@ },
            Action::Open { url, file_name } => ActionView::Open { url: url@, file_name: file_name@ },
            Action::Receive { progress } => ActionView::Receive { progress: *progress },
            Action::Finish(result) => ActionView::Finish(result@),
            Action::Abort(error) => ActionView::Abort(error@),
        }
    }
}

/// The state of one download.
#[derive(Debug, Clone, PartialEq, Eq)]
pub enum Session {
    /// The job is to be submitted.
    Submitting { request: DownloadRequest, token: Token },
    /// The job was accepted; `ticks` status queries found it pending.
    Polling { encoding: Encoding, interval_secs: u64, handle: JobHandle, ticks: u64 },
    /// The job is completed and the transfer is to be opened.
    Opening { encoding: Encoding, handle: JobHandle },
    /// The file is being transferred.
    Streaming { encoding: Encoding, handle: JobHandle, progress: Progress },
    /// The file is written.
    Finished(DownloadResult),
    /// The download was given up.
    Failed(DownloadError),
}

/// A [`Session`] with its texts as sequences of characters.
pub enum SessionView {
    Submitting { request: DownloadRequestView, token: TokenView },
    Polling { encoding: Encoding, interval_secs: u64, handle: JobHandleView, ticks: u64 },
    Opening { encoding: Encoding, handle: JobHandleView },
    Streaming { encoding: Encoding, handle: JobHandleView, progress: Progress },
    Finished(DownloadResultView),
    Failed(DownloadErrorView),
}

impl View for Session {
    type V = SessionView;

    open spec fn view(&self) -> SessionView {
        match self {
            Session::Submitting { request, token } => SessionView::Submitting {
                request: request@,
                token: token@,
            },
            Session::Polling { encoding, interval_secs, handle, ticks } => SessionView::Polling {
                encoding: *encoding,
                interval_secs: *interval_secs,
                handle: handle@,
                ticks: *ticks,
            },
            Session::Opening { encoding, handle } => SessionView::Opening {
                encoding: *encoding,
                handle: handle@,
            },
            Session::Streaming { encoding, handle, progress } => SessionView::Streaming {
                encoding: *encoding,
                handle: handle@,
                progress: *progress,
            },
            Session::Finished(result) => SessionView::Finished(result@),
            Session::Failed(error) => SessionView::Failed(error@),
        }
    }
}

/// One more than `ticks`, held at the largest count there is.
pub open spec fn spec_next_tick(ticks: u64) -> u64 {
    if ticks < u64::MAX {
        (ticks + 1) as u64
    } else {
        ticks
    }
}

impl SessionView {
    /// Whether the download has ended, well or badly.
    pub open spec fn is_final(self) -> bool {
        self is Finished || self is Failed
    }

    /// The state after a submission was answered with `reply`.
    pub open spec fn submitted(request: DownloadRequestView, reply: SubmissionReplyView) -> SessionView {
        match reply.outcome() {
            Ok(handle) => SessionView::Polling {
                encoding: request.encoding,
                interval_secs: request.poll_interval_secs,
                handle,
                ticks: 0,
            },
            Err(error) => SessionView::Failed(error),
        }
    }

    /// The state after a status query for `handle` was answered with `reply`.
    pub open spec fn polled(
        encoding: Encoding,
        interval_secs: u64,
        handle: JobHandleView,
        ticks: u64,
        reply: StatusReplyView,
    ) -> SessionView {
        match reply.status() {
            JobStatusView::Completed => SessionView::Opening { encoding, handle },
            JobStatusView::Failed(text) => SessionView::Failed(DownloadErrorView::JobFailed(text)),
            JobStatusView::Pending => SessionView::Polling {
                encoding,
                interval_secs,
                handle,
                ticks: spec_next_tick(ticks),
            },
        }
    }

    /// The state that follows on `event`.
    ///
    /// A final state stays as it is. Before that, a failure ends the
    /// download with the error of its kind and the reported text, unchanged;
    /// the answer that the state waits for moves it on; and any other event
    /// leaves it as it is.
    pub open spec fn advance(self, event: EventView) -> SessionView {
        match (self, event) {
            (SessionView::Finished(_), _) => self,
            (SessionView::Failed(_), _) => self,
            (_, EventView::TransportFailed(text)) => SessionView::Failed(
                DownloadErrorView::TransportError(text),
            ),
            (_, EventView::IoFailed(text)) => SessionView::Failed(DownloadErrorView::IOError(text)),
            (SessionView::Submitting { request, token }, EventView::Submitted(reply)) => {
                SessionView::submitted(request, reply)
            },
            (
                SessionView::Polling { encoding, interval_secs, handle, ticks },
                EventView::Polled(reply),
            ) => SessionView::polled(encoding, interval_secs, handle, ticks, reply),
            (SessionView::Opening { encoding, handle }, EventView::Opened { content_length }) => {
                SessionView::Streaming {
                    encoding,
                    handle,
                    progress: Progress { written: 0, expected: content_length },
                }
            },
            (SessionView::Streaming { encoding, handle, progress }, EventView::Written { len }) => {
                SessionView::Streaming { encoding, handle, progress: progress.spec_advanced(len) }
            },
            (SessionView::Streaming { encoding, handle, progress }, EventView::Closed { elapsed_ms }) => {
                SessionView::Finished(
                    DownloadResultView {
                        file_name: handle.file_name(encoding),
                        bytes_written: progress.written,
                        elapsed_ms,
                    },
                )
            },
            _ => self,
        }
    }

    /// What the driver is to do in this state.
    pub open spec fn pending(self) -> ActionView {
        match self {
            SessionView::Submitting { request, token } => ActionView::Submit {
                url: spec_submission_endpoint(),
                payload: request.payload(token),
            },
            SessionView::Polling { encoding, interval_secs, handle, ticks } => {
                if ticks == 0 {
                    ActionView::Poll { url: handle.status_url() }
                } else {
                    ActionView::Wait { seconds: interval_secs, url: handle.status_url() }
                }
            },
            SessionView::Opening { encoding, handle } => ActionView::Open {
                url: handle.download_url(),
                file_name: handle.file_name(encoding),
            },
            SessionView::Streaming { encoding, handle, progress } => ActionView::Receive { progress },
            SessionView::Finished(result) => ActionView::Finish(result),
            SessionView::Failed(error) => ActionView::Abort(error),
        }
    }

    /// The state that follows when the answer with `body` arrives.
    ///
    /// The body is read as the answer that the state waits for and the
    /// download goes on with it; a body that is no JSON document ends the
    /// download. A state that waits for no answer stays as it is.
    pub open spec fn receive(self, body: Seq<u8>) -> SessionView {
        match self {
            SessionView::Submitting { .. } => match SubmissionReplyView::decoded(body) {
                Ok(reply) => self.advance(EventView::Submitted(reply)),
                Err(error) => SessionView::Failed(error),
            },
            SessionView::Polling { .. } => match StatusReplyView::decoded(body) {
                Ok(reply) => self.advance(EventView::Polled(reply)),
                Err(error) => SessionView::Failed(error),
            },
            _ => self,
        }
    }
}

impl Session {
    /// The state in which a download begins.
    pub fn new(request: DownloadRequest, token: Token) -> (session: Session)
        ensures
            session@ == (SessionView::Submitting { request: request@, token: token@ }),
    {
        Session::Submitting { request, token }
    }

    /// Whether the download has ended, well or badly.
    pub fn is_final(&self) -> (ended: bool)
        ensures
            ended == self@.is_final(),
    {
        match self {
            Session::Finished(_) => true,
            Session::Failed(_) => true,
            _ => false,
        }
    }

    /// The state that follows on `event`.
    pub fn advance(self, event: Event) -> (after: Session)
        ensures
            after@ == self@.advance(event@),
    {
        match self {
            Session::Finished(result) => Session::Finished(result),
            Session::Failed(error) => Session::Failed(error),
            Session::Submitting { request, token } => match event {
                Event::TransportFailed(text) => Session::Failed(DownloadError::TransportError(text)),
                Event::IoFailed(text) => Session::Failed(DownloadError::IOError(text)),
                Event::Submitted(reply) => match reply.outcome() {
                    Ok(handle) => Session::Polling {
                        encoding: request.encoding(),
                        interval_secs: request.poll_interval_secs(),
                        handle,
                        ticks: 0,
                    },
                    Err(error) => Session::Failed(error),
                },
                _ => Session::Submitting { request, token },
            },
            Session::Polling { encoding, interval_secs, handle, ticks } => match event {
                Event::TransportFailed(text) => Session::Failed(DownloadError::TransportError(text)),
                Event::IoFailed(text) => Session::Failed(DownloadError::IOError(text)),
                Event::Polled(reply) => match reply.status() {
                    JobStatus::Completed => Session::Opening { encoding, handle },
                    JobStatus::Failed(text) => Session::Failed(DownloadError::JobFailed(text)),
                    JobStatus::Pending => {
                        let ticks: u64 = if ticks < u64::MAX {
                            ticks + 1
                        } else {
                            ticks
                        };
                        Session::Polling { encoding, interval_secs, handle, ticks }
                    },
                },
                _ => Session::Polling { encoding, interval_secs, handle, ticks },
            },
            Session::Opening { encoding, handle } => match event {
                Event::TransportFailed(text) => Session::Failed(DownloadError::TransportError(text)),
                Event::IoFailed(text) => Session::Failed(DownloadError::IOError(text)),
                Event::Opened { content_length } => Session::Streaming {
                    encoding,
                    handle,
                    progress: Progress::start(content_length),
                },
                _ => Session::Opening { encoding, handle },
            },
            Session::Streaming { encoding, handle, progress } => match event {
                Event::TransportFailed(text) => Session::Failed(DownloadError::TransportError(text)),
                Event::IoFailed(text) => Session::Failed(DownloadError::IOError(text)),
                Event::Written { len } => Session::Streaming {
                    encoding,
                    handle,
                    progress: progress.advanced(len),
                },
                Event::Closed { elapsed_ms } => Session::Finished(
                    DownloadResult {
                        file_name: handle.file_name(encoding),
                        bytes_written: progress.written,
                        elapsed_ms,
                    },
                ),
                _ => Session::Streaming { encoding, handle, progress },
            },
        }
    }

    /// What the driver is to do in this state.
    pub fn pending(&self) -> (action: Action)
        ensures
            action@ == self@.pending(),
    {
        match self {
            Session::Submitting { request, token } => Action::Submit {
                url: submission_endpoint().to_owned(),
                payload: request.payload(token),
            },
            Session::Polling { encoding: _, interval_secs, handle, ticks } => {
                if *ticks == 0 {
                    Action::Poll { url: handle.status_url() }
                } else {
                    Action::Wait { seconds: *interval_secs, url: handle.status_url() }
                }
            },
            Session::Opening { encoding, handle } => Action::Open {
                url: handle.download_url(),
                file_name: handle.file_name(*encoding),
            },
            Session::Streaming { encoding: _, handle: _, progress } => Action::Receive {
                progress: *progress,
            },
            Session::Finished(result) => Action::Finish(result.duplicate()),
            Session::Failed(error) => Action::Abort(error.duplicate()),
        }
    }

    /// The state that follows when the answer with `body` arrives: the body
    /// is read as the answer that the state waits for, and a body that is no
    /// JSON document ends the download. A state that waits for no answer
    /// stays as it is.
    pub fn receive(self, body: &[u8]) -> (after: Session)
        ensures
            after@ == self@.receive(body@),
    {
        match self {
            Session::Submitting { request, token } => match SubmissionReply::decode(body) {
                Ok(reply) => Session::Submitting { request, token }.advance(Event::Submitted(reply)),
                Err(error) => Session::Failed(error),
            },
            Session::Polling { encoding, interval_secs, handle, ticks } => match StatusReply::decode(
                body,
            ) {
                Ok(reply) => Session::Polling { encoding, interval_secs, handle, ticks }.advance(
                    Event::Polled(reply),
                ),
                Err(error) => Session::Failed(error),
            },
            other => other,
        }
    }
}

/// The entry to the library: a download is begun here and carried on step by
/// step.
pub struct Downcida;

impl Downcida {
    /// Begins a download: the state, and the submission to send.
    pub fn begin(request: DownloadRequest, token: Token) -> (begun: (Session, Action))
        ensures
            begun.0@ == (SessionView::Submitting { request: request@, token: token@ }),
            begun.1@ == begun.0@.pending(),
    {
        let session = Session::new(request, token);
        let action = session.pending();
        (session, action)
    }

    /// Carries the download on by one event: the state that follows, and
    /// what is to be done in it.
    pub fn step(session: Session, event: Event) -> (stepped: (Session, Action))
        ensures
            stepped.0@ == session@.advance(event@),
            stepped.1@ == stepped.0@.pending(),
    {
        let after = session.advance(event);
        let action = after.pending();
        (after, action)
    }

    /// Carries the download on by the body of an answer: the state that
    /// follows, and what is to be done in it.
    pub fn answer(session: Session, body: &[u8]) -> (stepped: (Session, Action))
        ensures
            stepped.0@ == session@.receive(body@),
            stepped.1@ == stepped.0@.pending(),
    {
        let after = session.receive(body);
        let action = after.pending();
        (after, action)
    }
}

} // verus!
