//! What holds of every download, whatever the service answers and whatever
//! the driver reports. The laws speak of runs: a state carried through a
//! sequence of events.

use vstd::prelude::*;
use crate::error::DownloadErrorView;
use crate::format::Encoding;
use crate::poll::StatusReplyView;
use crate::session::ActionView;
use crate::session::EventView;
use crate::session::SessionView;
use crate::submit::DownloadRequestView;
use crate::submit::JobHandleView;
use crate::submit::SubmissionReplyView;
use crate::submit::TokenView;
use crate::text::spec_text_or;
use crate::transfer::DownloadResultView;
use crate::transfer::Progress;

verus! {

impl SessionView {
    /// The state after all of `events`, taken in order.
    pub open spec fn run(self, events: Seq<EventView>) -> SessionView
        decreases events.len(),
    {
        if events.len() == 0 {
            self
        } else {
            self.advance(events[0]).run(events.drop_first())
        }
    }

    /// Whether this state belongs to the job `handle` with `encoding`: it
    /// works on that job, or it has failed, or it has finished with the
    /// file named after that job.
    pub open spec fn serves(self, handle: JobHandleView, encoding: Encoding) -> bool {
        match self {
            SessionView::Submitting { .. } => false,
            SessionView::Polling { encoding: e, handle: h, .. } => e == encoding && h == handle,
            SessionView::Opening { encoding: e, handle: h } => e == encoding && h == handle,
            SessionView::Streaming { encoding: e, handle: h, .. } => e == encoding && h == handle,
            SessionView::Finished(result) => result.file_name == handle.file_name(encoding),
            SessionView::Failed(_) => true,
        }
    }
}

/// The handle that the service issues in the course of `events`: that of the
/// first answer to the submission, if it accepts the job and no failure
/// comes before it.
pub open spec fn issued_handle(events: Seq<EventView>) -> Option<JobHandleView>
    decreases events.len(),
{
    if events.len() == 0 {
        None
    } else {
        match events[0] {
            EventView::Submitted(reply) => match reply.outcome() {
                Ok(handle) => Some(handle),
                Err(_) => None,
            },
            EventView::TransportFailed(_) => None,
            EventView::IoFailed(_) => None,
            _ => issued_handle(events.drop_first()),
        }
    }
}

/// The sum of the lengths in `lens`.
pub open spec fn total_len(lens: Seq<u64>) -> nat
    decreases lens.len(),
{
    if lens.len() == 0 {
        0
    } else {
        lens[0] as nat + total_len(lens.drop_first())
    }
}

/// The events of a transfer in which pieces of the lengths `lens` are
/// written one after the other.
pub open spec fn writes(lens: Seq<u64>) -> Seq<EventView> {
    Seq::new(lens.len(), |i: int| EventView::Written { len: lens[i] })
}

/// A run over two sequences of events, one after the other, is the run over
/// the first followed by the run over the second.
pub proof fn lemma_run_in_two_parts(state: SessionView, first: Seq<EventView>, second: Seq<EventView>)
    ensures
        state.run(first + second) == state.run(first).run(second),
    decreases first.len(),
{
    if first.len() == 0 {
        assert(first + second =~= second);
    } else {
        assert((first + second)[0] == first[0]);
        assert((first + second).drop_first() =~= first.drop_first() + second);
        lemma_run_in_two_parts(state.advance(first[0]), first.drop_first(), second);
    }
}

/// A download that has ended stays as it ended: no event changes a finished
/// or a failed state.
pub proof fn law_ended_download_stays(state: SessionView, events: Seq<EventView>)
    requires
        state.is_final(),
    ensures
        state.run(events) == state,
    decreases events.len(),
{
    if events.len() > 0 {
        law_ended_download_stays(state, events.drop_first());
    }
}

/// A state that belongs to a job goes on belonging to it.
pub proof fn lemma_job_is_kept(
    state: SessionView,
    handle: JobHandleView,
    encoding: Encoding,
    events: Seq<EventView>,
)
    requires
        state.serves(handle, encoding),
    ensures
        state.run(events).serves(handle, encoding),
    decreases events.len(),
{
    if events.len() > 0 {
        lemma_job_is_kept(state.advance(events[0]), handle, encoding, events.drop_first());
    }
}

/// A download works on one job and no other: once the submission is
/// answered, the download has failed, or it belongs to the job that the
/// service issued with that answer and to the requested encoding, whatever
/// is reported afterwards.
pub proof fn law_download_serves_one_job(
    request: DownloadRequestView,
    token: TokenView,
    events: Seq<EventView>,
)
    ensures
        ({
            let end = (SessionView::Submitting { request, token }).run(events);
            ||| end == (SessionView::Submitting { request, token })
            ||| end is Failed
            ||| (issued_handle(events) is Some && end.serves(
                issued_handle(events)->0,
                request.encoding,
            ))
        }),
    decreases events.len(),
{
    let start = SessionView::Submitting { request, token };
    if events.len() > 0 {
        let after = start.advance(events[0]);
        let rest = events.drop_first();
        match events[0] {
            EventView::Submitted(reply) => {
                match reply.outcome() {
                    Ok(handle) => {
                        lemma_job_is_kept(after, handle, request.encoding, rest);
                    },
                    Err(_) => {
                        law_ended_download_stays(after, rest);
                    },
                }
            },
            EventView::TransportFailed(_) => {
                law_ended_download_stays(after, rest);
            },
            EventView::IoFailed(_) => {
                law_ended_download_stays(after, rest);
            },
            _ => {
                law_download_serves_one_job(request, token, rest);
            },
        }
    }
}

/// Every download that finishes names its file after the job that the
/// service issued: the handoff, a dot, and the extension of the requested
/// encoding.
pub proof fn law_finished_download_names_file(
    request: DownloadRequestView,
    token: TokenView,
    events: Seq<EventView>,
)
    requires
        (SessionView::Submitting { request, token }).run(events) is Finished,
    ensures
        issued_handle(events) is Some,
        (SessionView::Submitting { request, token }).run(events)->Finished_0.file_name
            == issued_handle(events)->0.handoff + "."@ + request.encoding.extension(),
{
    law_download_serves_one_job(request, token, events);
}

/// A submission that the service does not accept ends the download with
/// `SubmissionRejected` and the service's own error text, or `Unknown error`
/// where it sent none. Whatever is reported afterwards, the download stays
/// failed and asks for nothing but to hand that error to the caller: no
/// status is queried and no file is created.
pub proof fn law_rejected_submission_ends_download(
    request: DownloadRequestView,
    token: TokenView,
    reply: SubmissionReplyView,
    later: Seq<EventView>,
)
    requires
        reply.success != Some(true),
    ensures
        (SessionView::Submitting { request, token }).run(seq![EventView::Submitted(reply)] + later)
            == SessionView::Failed(
            DownloadErrorView::SubmissionRejected(spec_text_or(reply.error, "Unknown error"@)),
        ),
        (SessionView::Submitting { request, token }).run(
            seq![EventView::Submitted(reply)] + later,
        ).pending() == ActionView::Abort(
            DownloadErrorView::SubmissionRejected(spec_text_or(reply.error, "Unknown error"@)),
        ),
{
    let start = SessionView::Submitting { request, token };
    let first = seq![EventView::Submitted(reply)];
    let failed = start.advance(first[0]);
    assert(first.drop_first() =~= Seq::<EventView>::empty());
    assert(start.run(first) == failed.run(first.drop_first()));
    assert(start.run(first) == failed);
    lemma_run_in_two_parts(start, first, later);
    law_ended_download_stays(failed, later);
}

/// A status answer of `error` ends the download with `JobFailed` and the
/// service's message, or `Unknown error` where it sent none. Whatever is
/// reported afterwards, the download stays failed and asks for nothing but
/// to hand that error to the caller: the status is not queried again.
pub proof fn law_failed_job_ends_polling(
    encoding: Encoding,
    interval_secs: u64,
    handle: JobHandleView,
    ticks: u64,
    reply: StatusReplyView,
    later: Seq<EventView>,
)
    requires
        reply.status == Some("error"@),
    ensures
        (SessionView::Polling { encoding, interval_secs, handle, ticks }).run(
            seq![EventView::Polled(reply)] + later,
        ) == SessionView::Failed(
            DownloadErrorView::JobFailed(spec_text_or(reply.message, "Unknown error"@)),
        ),
        (SessionView::Polling { encoding, interval_secs, handle, ticks }).run(
            seq![EventView::Polled(reply)] + later,
        ).pending() == ActionView::Abort(
            DownloadErrorView::JobFailed(spec_text_or(reply.message, "Unknown error"@)),
        ),
{
    let start = SessionView::Polling { encoding, interval_secs, handle, ticks };
    let first = seq![EventView::Polled(reply)];
    let failed = start.advance(first[0]);
    assert("error"@ != "completed"@) by {
        reveal_strlit("error");
        reveal_strlit("completed");
        assert("error"@.len() == 5);
        assert("completed"@.len() == 9);
    }
    assert(first.drop_first() =~= Seq::<EventView>::empty());
    assert(start.run(first) == failed.run(first.drop_first()));
    assert(start.run(first) == failed);
    lemma_run_in_two_parts(start, first, later);
    law_ended_download_stays(failed, later);
}

/// The events of a polling phase in which the status queries are answered
/// with `replies`, one after the other.
pub open spec fn polls(replies: Seq<StatusReplyView>) -> Seq<EventView> {
    Seq::new(replies.len(), |i: int| EventView::Polled(replies[i]))
}

/// While the job is pending, every status answer is counted and nothing
/// else changes: after `replies`, all of them pending, the download is still
/// polling the same job and has seen as many pending answers more. Once it
/// has seen one, it asks for a wait of the interval before the next query.
pub proof fn law_pending_answers_are_counted(
    encoding: Encoding,
    interval_secs: u64,
    handle: JobHandleView,
    ticks: u64,
    replies: Seq<StatusReplyView>,
)
    requires
        forall|i: int| 0 <= i < replies.len() ==> (#[trigger] replies[i]).status() is Pending,
        ticks + replies.len() <= u64::MAX,
    ensures
        (SessionView::Polling { encoding, interval_secs, handle, ticks }).run(polls(replies))
            == (SessionView::Polling {
            encoding,
            interval_secs,
            handle,
            ticks: (ticks + replies.len()) as u64,
        }),
        ticks + replies.len() > 0 ==> (SessionView::Polling {
            encoding,
            interval_secs,
            handle,
            ticks,
        }).run(polls(replies)).pending() == (ActionView::Wait {
            seconds: interval_secs,
            url: handle.status_url(),
        }),
    decreases replies.len(),
{
    if replies.len() > 0 {
        assert(polls(replies)[0] == EventView::Polled(replies[0]));
        assert(polls(replies).drop_first() =~= polls(replies.drop_first()));
        assert(replies[0].status() is Pending);
        assert forall|i: int| 0 <= i < replies.drop_first().len() implies (
        #[trigger] replies.drop_first()[i]).status() is Pending by {
            assert(replies.drop_first()[i] == replies[i + 1]);
        }
        law_pending_answers_are_counted(
            encoding,
            interval_secs,
            handle,
            (ticks + 1) as u64,
            replies.drop_first(),
        );
    } else {
        assert(polls(replies).len() == 0);
    }
}

/// Writing pieces adds their lengths to the count of written bytes and
/// changes nothing else.
pub proof fn lemma_writes_add_up(
    encoding: Encoding,
    handle: JobHandleView,
    progress: Progress,
    lens: Seq<u64>,
)
    requires
        progress.written + total_len(lens) <= u64::MAX,
    ensures
        (SessionView::Streaming { encoding, handle, progress }).run(writes(lens))
            == (SessionView::Streaming {
            encoding,
            handle,
            progress: Progress {
                written: (progress.written + total_len(lens)) as u64,
                expected: progress.expected,
            },
        }),
    decreases lens.len(),
{
    if lens.len() > 0 {
        assert(writes(lens)[0] == EventView::Written { len: lens[0] });
        assert(writes(lens).drop_first() =~= writes(lens.drop_first()));
        lemma_writes_add_up(encoding, handle, progress.spec_advanced(lens[0]), lens.drop_first());
    } else {
        assert(writes(lens).len() == 0);
    }
}

/// A transfer that ends has written what arrived: the count of written
/// bytes is the sum of the pieces' lengths, whatever length the service had
/// announced, be it more, less or none.
pub proof fn law_written_bytes_are_what_arrived(
    encoding: Encoding,
    handle: JobHandleView,
    announced: Option<u64>,
    lens: Seq<u64>,
    elapsed_ms: u128,
)
    requires
        total_len(lens) <= u64::MAX,
    ensures
        (SessionView::Streaming {
            encoding,
            handle,
            progress: Progress { written: 0, expected: announced },
        }).run(writes(lens) + seq![EventView::Closed { elapsed_ms }]) == SessionView::Finished(
            DownloadResultView {
                file_name: handle.file_name(encoding),
                bytes_written: total_len(lens) as u64,
                elapsed_ms,
            },
        ),
{
    let progress = Progress { written: 0, expected: announced };
    let start = SessionView::Streaming { encoding, handle, progress };
    let last = seq![EventView::Closed { elapsed_ms }];
    lemma_writes_add_up(encoding, handle, progress, lens);
    lemma_run_in_two_parts(start, writes(lens), last);
    let streamed = start.run(writes(lens));
    assert(last.drop_first() =~= Seq::<EventView>::empty());
    assert(streamed.run(last) == streamed.advance(last[0]).run(last.drop_first()));
}

/// Whether `text` holds a character that separates the parts of a path.
pub open spec fn has_separator(text: Seq<char>) -> bool {
    exists|i: int| 0 <= i < text.len() && (#[trigger] text[i] == '/' || text[i] == '\\')
}

/// No extension holds a path separator.
pub proof fn lemma_extensions_are_plain(encoding: Encoding)
    ensures
        !has_separator(encoding.extension()),
{
    reveal_strlit("flac");
    reveal_strlit("m4a");
    reveal_strlit("mp3");
    reveal_strlit("ogg");
    reveal_strlit("opus");
    reveal_strlit("wav");
}

/// The file name holds a path separator only where the handoff holds one:
/// a job whose handoff is a plain name gets a plain file name, which lies in
/// the directory it is joined to.
pub proof fn law_file_name_is_plain_as_the_handoff(handle: JobHandleView, encoding: Encoding)
    ensures
        has_separator(handle.file_name(encoding)) == has_separator(handle.handoff),
{
    let name = handle.file_name(encoding);
    let stem = handle.handoff;
    let extension = encoding.extension();
    reveal_strlit(".");
    lemma_extensions_are_plain(encoding);
    assert(name.len() == stem.len() + 1 + extension.len());
    if has_separator(stem) {
        let i = choose|i: int| 0 <= i < stem.len() && (#[trigger] stem[i] == '/' || stem[i] == '\\');
        assert(name[i] == stem[i]);
    }
    if has_separator(name) {
        let i = choose|i: int| 0 <= i < name.len() && (#[trigger] name[i] == '/' || name[i] == '\\');
        if i < stem.len() {
            assert(stem[i] == name[i]);
        } else if i == stem.len() {
            assert(name[i] == "."@[0]);
        } else {
            assert(name[i] == extension[i - stem.len() - 1]);
        }
    }
}

/// Two jobs with different handoffs get different file names, also with the
/// same encoding.
pub proof fn lemma_file_name_tells_handoffs_apart(
    first: JobHandleView,
    second: JobHandleView,
    encoding: Encoding,
)
    requires
        first.handoff != second.handoff,
    ensures
        first.file_name(encoding) != second.file_name(encoding),
{
    let tail = "."@ + encoding.extension();
    let a = first.handoff + tail;
    let b = second.handoff + tail;
    assert(first.file_name(encoding) =~= a);
    assert(second.file_name(encoding) =~= b);
    if a == b {
        assert(first.handoff.len() == second.handoff.len()) by {
            assert(a.len() == first.handoff.len() + tail.len());
            assert(b.len() == second.handoff.len() + tail.len());
        }
        assert(first.handoff =~= second.handoff) by {
            assert forall|i: int| 0 <= i < first.handoff.len() implies first.handoff[i]
                == second.handoff[i] by {
                assert(a[i] == first.handoff[i]);
                assert(b[i] == second.handoff[i]);
            }
        }
    }
}

/// Two downloads of the same request are independent: each works under the
/// handle that its own submission was answered with, and where the service
/// issued different handoffs, the two files have different names.
pub proof fn law_downloads_are_independent(
    request: DownloadRequestView,
    token: TokenView,
    first: SubmissionReplyView,
    second: SubmissionReplyView,
)
    requires
        first.outcome() is Ok,
        second.outcome() is Ok,
        first.handoff != second.handoff,
    ensures
        (SessionView::Submitting { request, token }).advance(EventView::Submitted(first)).serves(
            first.outcome()->Ok_0,
            request.encoding,
        ),
        (SessionView::Submitting { request, token }).advance(EventView::Submitted(second)).serves(
            second.outcome()->Ok_0,
            request.encoding,
        ),
        first.outcome()->Ok_0.file_name(request.encoding) != second.outcome()->Ok_0.file_name(
            request.encoding,
        ),
{
    lemma_file_name_tells_handoffs_apart(
        first.outcome()->Ok_0,
        second.outcome()->Ok_0,
        request.encoding,
    );
}

} // verus!
