use downcida::submit::source_url;
use downcida::submit::submission_endpoint;
use downcida::AudioFormat;
use downcida::DownloadError;
use downcida::DownloadRequest;
use downcida::Encoding;
use downcida::JobHandle;
use downcida::SubmissionReply;
use downcida::Token;

fn token() -> Token {
    Token { expiry: 1_900_000_000, primary: "an-injected-token".to_string() }
}

fn reply(
    success: Option<bool>,
    error: Option<&str>,
    handoff: Option<&str>,
    server: Option<&str>,
) -> SubmissionReply {
    SubmissionReply {
        success,
        error: error.map(String::from),
        handoff: handoff.map(String::from),
        server: server.map(String::from),
    }
}

#[test]
fn source_url_points_at_the_track() {
    assert_eq!(
        source_url("5xPcP28rWbFUlYDOhcH58l"),
        "https://open.spotify.com/track/5xPcP28rWbFUlYDOhcH58l"
    );
    assert_eq!(source_url(""), "https://open.spotify.com/track/");
}

#[test]
fn submissions_go_to_the_load_endpoint() {
    assert_eq!(submission_endpoint(), "https://lucida.to/api/load?url=/api/fetch/stream/v2");
}

#[test]
fn new_request_polls_every_second() {
    let request = DownloadRequest::new("abc", Some("AU"), AudioFormat::MP3);
    assert_eq!(request.track_id(), "abc");
    assert_eq!(request.region(), Some("AU"));
    assert_eq!(request.encoding(), Encoding::Catalog(AudioFormat::MP3));
    assert_eq!(request.poll_interval_secs(), 1);
    assert_eq!(DownloadRequest::new("abc", None, AudioFormat::MP3).region(), None);
}

#[test]
fn request_can_be_made_for_another_encoding_and_interval() {
    let request = DownloadRequest::new("abc", Some("AU"), AudioFormat::MP3)
        .with_encoding(Encoding::Original)
        .with_poll_interval(7);
    assert_eq!(request.track_id(), "abc");
    assert_eq!(request.region(), Some("AU"));
    assert_eq!(request.encoding(), Encoding::Original);
    assert_eq!(request.poll_interval_secs(), 7);
    let request = request.with_encoding(Encoding::Catalog(AudioFormat::WAV));
    assert_eq!(request.encoding(), Encoding::Catalog(AudioFormat::WAV));
    assert_eq!(request.poll_interval_secs(), 7);
}

#[test]
fn lossless_submission_asks_for_flac_16() {
    let request = DownloadRequest::new("5xPcP28rWbFUlYDOhcH58l", Some("US"), AudioFormat::FLAC);
    let payload = request.payload(&token());
    assert_eq!(payload.downscale, "flac-16");
    assert_eq!(payload.url, "https://open.spotify.com/track/5xPcP28rWbFUlYDOhcH58l");
    assert_eq!(payload.account.id, "US");
    assert_eq!(payload.account.kind, "country");
    assert!(payload.handoff);
    assert!(!payload.metadata);
    assert!(payload.private);
    assert!(!payload.upload.enabled);
    assert_eq!(payload.upload.service, "pixeldrain");
    assert_eq!(payload.token, token());
}

#[test]
fn submission_without_region_lets_the_service_choose() {
    let request = DownloadRequest::new("abc", None, AudioFormat::OGG);
    let payload = request.payload(&token());
    assert_eq!(payload.account.id, "auto");
    assert_eq!(payload.downscale, "ogg-320");
}

#[test]
fn unconverted_submission_asks_for_original() {
    let request =
        DownloadRequest::new("abc", None, AudioFormat::MP3).with_encoding(Encoding::Original);
    assert_eq!(request.payload(&token()).downscale, "original");
}

#[test]
fn accepted_submission_gives_the_handle() {
    let outcome = reply(Some(true), None, Some("h-123"), Some("hund")).outcome();
    assert_eq!(
        outcome,
        Ok(JobHandle { handoff: "h-123".to_string(), server: "hund".to_string() })
    );
}

#[test]
fn rejection_carries_the_server_text() {
    let outcome = reply(Some(false), Some("Track not found"), None, None).outcome();
    assert_eq!(outcome, Err(DownloadError::SubmissionRejected("Track not found".to_string())));
}

#[test]
fn rejection_wins_over_a_handle() {
    let outcome = reply(Some(false), Some("no"), Some("h"), Some("s")).outcome();
    assert_eq!(outcome, Err(DownloadError::SubmissionRejected("no".to_string())));
}

#[test]
fn rejection_without_text_uses_the_placeholder() {
    let outcome = reply(Some(false), None, None, None).outcome();
    assert_eq!(outcome, Err(DownloadError::SubmissionRejected("Unknown error".to_string())));
}

#[test]
fn missing_success_flag_is_a_rejection() {
    let outcome = reply(None, Some("why"), Some("h"), Some("s")).outcome();
    assert_eq!(outcome, Err(DownloadError::SubmissionRejected("why".to_string())));
}

#[test]
fn accepted_submission_without_handoff_is_malformed() {
    let outcome = reply(Some(true), None, None, Some("s")).outcome();
    assert_eq!(
        outcome,
        Err(DownloadError::MalformedResponse("No handoff value in response".to_string()))
    );
}

#[test]
fn accepted_submission_without_server_is_malformed() {
    let outcome = reply(Some(true), None, Some("h"), None).outcome();
    assert_eq!(
        outcome,
        Err(DownloadError::MalformedResponse("No server value in response".to_string()))
    );
}

#[test]
fn missing_handoff_is_reported_before_missing_server() {
    let outcome = reply(Some(true), None, None, None).outcome();
    assert_eq!(
        outcome,
        Err(DownloadError::MalformedResponse("No handoff value in response".to_string()))
    );
}

#[test]
fn submission_decode_reads_the_four_members() {
    let body = br#"{"success":true,"handoff":"h-123","server":"hund","extra":[1,2]}"#;
    assert_eq!(
        SubmissionReply::decode(body),
        Ok(reply(Some(true), None, Some("h-123"), Some("hund")))
    );
    let body = br#"{"success":false,"error":"Track not found"}"#;
    assert_eq!(
        SubmissionReply::decode(body),
        Ok(reply(Some(false), Some("Track not found"), None, None))
    );
}

#[test]
fn decode_skips_members_of_another_type() {
    let body = br#"{"success":"true","error":7,"handoff":null,"server":{"name":"x"}}"#;
    assert_eq!(SubmissionReply::decode(body), Ok(reply(None, None, None, None)));
}

#[test]
fn decode_of_a_document_that_is_no_object_reads_nothing() {
    assert_eq!(SubmissionReply::decode(b"[true]"), Ok(reply(None, None, None, None)));
    assert_eq!(SubmissionReply::decode(b"\"success\""), Ok(reply(None, None, None, None)));
}

#[test]
fn decode_keeps_escapes_and_unicode() {
    let body = "{\"success\":false,\"error\":\"caf\\u00e9 \\\"ferm\u{e9}\\\"\"}";
    assert_eq!(
        SubmissionReply::decode(body.as_bytes()),
        Ok(reply(Some(false), Some("caf\u{e9} \"ferm\u{e9}\""), None, None))
    );
}

#[test]
fn submission_decode_refuses_what_is_no_json() {
    let refused = Err(DownloadError::MalformedResponse("Response body is not valid JSON".to_string()));
    assert_eq!(SubmissionReply::decode(b"<html>busy</html>"), refused);
    assert_eq!(SubmissionReply::decode(b""), refused);
    assert_eq!(SubmissionReply::decode(b"{\"success\":true"), refused);
    assert_eq!(SubmissionReply::decode(&[0xff, 0xfe]), refused);
}

#[test]
fn submission_read_takes_a_parsed_document() {
    let document = serde_json::from_str::<serde_json::Value>(
        r#"{"success":true,"handoff":"h","server":"s","error":"ignored"}"#,
    )
    .unwrap();
    assert_eq!(
        SubmissionReply::read(&document),
        reply(Some(true), Some("ignored"), Some("h"), Some("s"))
    );
}
