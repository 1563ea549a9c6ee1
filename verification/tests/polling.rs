use downcida::Action;
use downcida::AudioFormat;
use downcida::DownloadError;
use downcida::Downcida;
use downcida::Encoding;
use downcida::Event;
use downcida::JobHandle;
use downcida::JobStatus;
use downcida::Session;
use downcida::StatusReply;

fn handle() -> JobHandle {
    JobHandle { handoff: "h-123".to_string(), server: "hund".to_string() }
}

fn polling(ticks: u64) -> Session {
    Session::Polling {
        encoding: Encoding::Catalog(AudioFormat::FLAC),
        interval_secs: 1,
        handle: handle(),
        ticks,
    }
}

fn status(word: Option<&str>, message: Option<&str>) -> StatusReply {
    StatusReply { status: word.map(String::from), message: message.map(String::from) }
}

#[test]
fn status_url_is_on_the_jobs_server() {
    assert_eq!(handle().status_url(), "https://hund.lucida.to/api/fetch/request/h-123");
}

#[test]
fn completed_and_error_are_final() {
    assert_eq!(status(Some("completed"), None).status(), JobStatus::Completed);
    assert_eq!(
        status(Some("error"), Some("conversion failed")).status(),
        JobStatus::Failed("conversion failed".to_string())
    );
}

#[test]
fn error_without_message_uses_the_placeholder() {
    assert_eq!(status(Some("error"), None).status(), JobStatus::Failed("Unknown error".to_string()));
}

#[test]
fn any_other_status_is_pending() {
    assert_eq!(status(Some("pending"), None).status(), JobStatus::Pending);
    assert_eq!(status(Some("working"), Some("42%")).status(), JobStatus::Pending);
    assert_eq!(status(Some("Completed"), None).status(), JobStatus::Pending);
    assert_eq!(status(Some("completed "), None).status(), JobStatus::Pending);
    assert_eq!(status(Some(""), None).status(), JobStatus::Pending);
    assert_eq!(status(None, Some("no status")).status(), JobStatus::Pending);
}

#[test]
fn message_of_a_completed_job_is_not_read() {
    assert_eq!(status(Some("completed"), Some("done")).status(), JobStatus::Completed);
}

#[test]
fn status_decode_reads_status_and_message() {
    assert_eq!(
        StatusReply::decode(br#"{"status":"error","message":"conversion failed"}"#),
        Ok(status(Some("error"), Some("conversion failed")))
    );
    assert_eq!(StatusReply::decode(br#"{"status":"pending"}"#), Ok(status(Some("pending"), None)));
    assert_eq!(StatusReply::decode(br#"{"status":3,"message":false}"#), Ok(status(None, None)));
    assert_eq!(StatusReply::decode(b"null"), Ok(status(None, None)));
}

#[test]
fn status_decode_refuses_what_is_no_json() {
    assert_eq!(
        StatusReply::decode(b"Bad Gateway"),
        Err(DownloadError::MalformedResponse("Response body is not valid JSON".to_string()))
    );
}

#[test]
fn status_read_takes_a_parsed_document() {
    let document =
        serde_json::from_str::<serde_json::Value>(r#"{"status":"completed","progress":1}"#).unwrap();
    assert_eq!(StatusReply::read(&document), status(Some("completed"), None));
}

#[test]
fn first_query_is_made_at_once() {
    assert_eq!(
        polling(0).pending(),
        Action::Poll { url: "https://hund.lucida.to/api/fetch/request/h-123".to_string() }
    );
}

#[test]
fn three_pending_answers_give_three_waits() {
    let mut session = polling(0);
    let mut waits = 0;
    for _ in 0..3 {
        let (after, action) = Downcida::answer(session, br#"{"status":"pending"}"#);
        assert_eq!(
            action,
            Action::Wait {
                seconds: 1,
                url: "https://hund.lucida.to/api/fetch/request/h-123".to_string()
            }
        );
        waits += 1;
        session = after;
    }
    assert_eq!(session, polling(3));
    let (after, action) = Downcida::answer(session, br#"{"status":"completed"}"#);
    assert_eq!(waits, 3);
    assert_eq!(
        after,
        Session::Opening { encoding: Encoding::Catalog(AudioFormat::FLAC), handle: handle() }
    );
    assert_eq!(
        action,
        Action::Open {
            url: "https://hund.lucida.to/api/fetch/request/h-123/download".to_string(),
            file_name: "h-123.flac".to_string(),
        }
    );
}

#[test]
fn job_completed_at_the_first_query_gives_no_wait() {
    let (after, action) = Downcida::step(polling(0), Event::Polled(status(Some("completed"), None)));
    assert!(matches!(after, Session::Opening { .. }));
    assert!(matches!(action, Action::Open { .. }));
}

#[test]
fn wait_uses_the_requested_interval() {
    let session = Session::Polling {
        encoding: Encoding::Original,
        interval_secs: 30,
        handle: handle(),
        ticks: 0,
    };
    let (_, action) = Downcida::step(session, Event::Polled(status(Some("pending"), None)));
    assert_eq!(
        action,
        Action::Wait {
            seconds: 30,
            url: "https://hund.lucida.to/api/fetch/request/h-123".to_string()
        }
    );
}

#[test]
fn pending_answers_are_counted_up_to_the_largest_count() {
    let (after, _) = Downcida::step(polling(u64::MAX - 1), Event::Polled(status(None, None)));
    assert_eq!(after, polling(u64::MAX));
    let (after, action) = Downcida::step(after, Event::Polled(status(None, None)));
    assert_eq!(after, polling(u64::MAX));
    assert!(matches!(action, Action::Wait { .. }));
}

#[test]
fn failed_job_ends_polling() {
    let body = br#"{"status":"error","message":"conversion failed"}"#;
    let (session, action) = Downcida::answer(polling(2), body);
    let error = DownloadError::JobFailed("conversion failed".to_string());
    assert_eq!(session, Session::Failed(error.clone()));
    assert_eq!(action, Action::Abort(error.clone()));
    assert!(session.is_final());

    let (session, action) = Downcida::answer(session, br#"{"status":"completed"}"#);
    assert_eq!(session, Session::Failed(error.clone()));
    assert_eq!(action, Action::Abort(error.clone()));
    let (session, action) = Downcida::step(session, Event::Polled(status(Some("pending"), None)));
    assert_eq!(session, Session::Failed(error.clone()));
    assert_eq!(action, Action::Abort(error));
}

#[test]
fn undecodable_status_ends_the_download() {
    let (session, action) = Downcida::answer(polling(1), b"<html>");
    let error = DownloadError::MalformedResponse("Response body is not valid JSON".to_string());
    assert_eq!(session, Session::Failed(error.clone()));
    assert_eq!(action, Action::Abort(error));
}

#[test]
fn transport_failure_while_polling_ends_the_download() {
    let (session, action) =
        Downcida::step(polling(1), Event::TransportFailed("connection reset".to_string()));
    let error = DownloadError::TransportError("connection reset".to_string());
    assert_eq!(session, Session::Failed(error.clone()));
    assert_eq!(action, Action::Abort(error));
}
