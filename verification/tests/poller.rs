use assembly_cli::error::{ApiError, Field};
use assembly_cli::http::{Method, Reply};
use assembly_cli::json::Json;
use assembly_cli::transcribe::{
    named_transcript, transcript_file, FileWrite, PollState, PollStep, Transcriber,
    POLL_INTERVAL_SECS,
};

fn body(text: &str) -> Reply {
    Reply::Body(text.as_bytes().to_vec())
}

fn text(s: &str) -> Json {
    Json::String(s.to_string())
}

fn object(members: Vec<(&str, Json)>) -> Json {
    Json::Object(members.into_iter().map(|(name, value)| (name.to_string(), value)).collect())
}

fn service() -> Transcriber<'static> {
    Transcriber::new("secret", "https://api.example/v2/transcript")
}

struct Run {
    gets: usize,
    sleeps: usize,
    slept_seconds: u64,
    outcome: Result<Json, ApiError>,
}

/// Follows a job as the client does, with the service's replies scripted.
fn follow(transcript_id: &str, replies: Vec<Reply>) -> Run {
    let service = service();
    let mut poller = service.wait_for_transcription(transcript_id);
    let mut run = Run {
        gets: 0,
        sleeps: 0,
        slept_seconds: 0,
        outcome: Err(ApiError::Transport(String::new())),
    };
    for reply in replies {
        assert_eq!(poller.state(), PollState::Pending);
        let request = poller.request();
        assert_eq!(request.method, Method::Get);
        assert_eq!(request.url, format!("https://api.example/v2/transcript/{}", transcript_id));
        run.gets += 1;
        match poller.observe(reply) {
            PollStep::Wait { seconds } => {
                run.sleeps += 1;
                run.slept_seconds += seconds;
            }
            PollStep::Complete { payload } => {
                assert_eq!(poller.state(), PollState::Completed);
                run.outcome = Ok(payload);
                return run;
            }
            PollStep::Fail(error) => {
                assert_eq!(poller.state(), PollState::Failed);
                run.outcome = Err(error);
                return run;
            }
        }
    }
    panic!("the script ran out before the run ended");
}

#[test]
fn wait_for_transcription_starts_pending_at_the_jobs_address() {
    let service = service();
    let poller = service.wait_for_transcription("abc123");
    assert_eq!(poller.endpoint(), "https://api.example/v2/transcript/abc123");
    assert_eq!(poller.transcript_id(), "abc123");
    assert_eq!(poller.state(), PollState::Pending);
}

#[test]
fn request_is_a_get_with_the_headers_of_the_service() {
    let service = service();
    let poller = service.wait_for_transcription("abc123");
    let request = poller.request();
    assert_eq!(request.method, Method::Get);
    assert_eq!(request.url, "https://api.example/v2/transcript/abc123");
    assert_eq!(request.headers, service.headers());
    assert_eq!(request.headers.get("authorization").unwrap().as_bytes(), b"secret");
    assert_eq!(request.body, None);
}

#[test]
fn poll_interval_is_ten_seconds() {
    assert_eq!(POLL_INTERVAL_SECS, 10);
}

#[test]
fn poller_asks_three_times_and_sleeps_twice_until_completed() {
    let run = follow(
        "abc123",
        vec![
            body("{\"status\": \"processing\"}"),
            body("{\"status\": \"processing\"}"),
            body("{\"status\": \"completed\", \"id\": \"abc123\", \"text\": \"hello\"}"),
            body("{\"status\": \"processing\"}"),
        ],
    );
    assert_eq!(run.gets, 3);
    assert_eq!(run.sleeps, 2);
    assert_eq!(run.slept_seconds, 20);
    assert_eq!(
        run.outcome,
        Ok(object(vec![("id", text("abc123")), ("status", text("completed")), ("text", text("hello"))]))
    );
}

#[test]
fn poller_fails_at_once_on_a_reported_error() {
    let run = follow(
        "abc123",
        vec![
            body("{\"status\": \"error\", \"error\": \"bad audio\"}"),
            body("{\"status\": \"completed\"}"),
        ],
    );
    assert_eq!(run.gets, 1);
    assert_eq!(run.sleeps, 0);
    assert_eq!(run.outcome, Err(ApiError::ServiceReported(text("bad audio"))));
}

#[test]
fn poller_hands_on_a_structured_report() {
    let run = follow(
        "abc123",
        vec![body("{\"status\": \"error\", \"error\": {\"code\": \"E7\"}}")],
    );
    assert_eq!(run.outcome, Err(ApiError::ServiceReported(object(vec![("code", text("E7"))]))));
}

#[test]
fn poller_completes_on_the_first_reply() {
    let run = follow("abc123", vec![body("{\"status\": \"completed\"}")]);
    assert_eq!(run.gets, 1);
    assert_eq!(run.sleeps, 0);
    assert_eq!(run.outcome, Ok(object(vec![("status", text("completed"))])));
}

#[test]
fn poller_fails_where_the_exchange_fails() {
    let run = follow(
        "abc123",
        vec![
            body("{\"status\": \"queued\"}"),
            Reply::Failed("timed out".to_string()),
        ],
    );
    assert_eq!(run.gets, 2);
    assert_eq!(run.sleeps, 1);
    assert_eq!(run.outcome, Err(ApiError::Transport("timed out".to_string())));
}

#[test]
fn poller_fails_on_a_body_that_is_no_text() {
    let reply = Reply::Body(vec![b'{', b'"', 0xff, b'"', b':', b'1', b'}']);
    let run = follow("abc123", vec![reply]);
    assert!(matches!(run.outcome, Err(ApiError::MalformedResponse(_))));
}

#[test]
fn poller_fails_on_a_body_that_is_no_json() {
    let run = follow("abc123", vec![body("Bad Gateway")]);
    assert_eq!(run.gets, 1);
    assert_eq!(run.sleeps, 0);
    assert!(matches!(run.outcome, Err(ApiError::MalformedResponse(_))));
}

#[test]
fn decide_waits_ten_seconds_on_any_other_status() {
    for status in ["queued", "processing", "", "Completed", "ERROR", "done"] {
        let service = service();
        let mut poller = service.wait_for_transcription("abc123");
        let step = poller.decide(object(vec![("status", text(status))]));
        assert_eq!(step, PollStep::Wait { seconds: 10 });
        assert_eq!(poller.state(), PollState::Pending);
    }
}

#[test]
fn decide_completes_with_the_whole_payload() {
    let service = service();
    let mut poller = service.wait_for_transcription("abc123");
    let payload = || {
        object(vec![
            ("id", text("abc123")),
            ("status", text("completed")),
            ("confidence", Json::Number(serde_json::Number::from_f64(0.93).unwrap())),
            ("words", Json::Array(vec![object(vec![("text", text("hi"))])])),
        ])
    };
    assert_eq!(poller.decide(payload()), PollStep::Complete { payload: payload() });
    assert_eq!(poller.state(), PollState::Completed);
}

#[test]
fn decide_misses_the_status_of_a_reply_without_one() {
    let service = service();
    let mut poller = service.wait_for_transcription("abc123");
    let step = poller.decide(object(vec![("id", text("abc123"))]));
    assert_eq!(
        step,
        PollStep::Fail(ApiError::MissingField {
            field: Field::Status,
            document: object(vec![("id", text("abc123"))]),
        })
    );
    assert_eq!(poller.state(), PollState::Failed);
}

#[test]
fn decide_misses_a_status_that_is_no_string() {
    let service = service();
    let mut poller = service.wait_for_transcription("abc123");
    let step = poller.decide(object(vec![("status", Json::Bool(true))]));
    assert_eq!(
        step,
        PollStep::Fail(ApiError::MissingField {
            field: Field::Status,
            document: object(vec![("status", Json::Bool(true))]),
        })
    );
    let mut poller = service.wait_for_transcription("abc123");
    assert_eq!(
        poller.decide(Json::Array(vec![])),
        PollStep::Fail(ApiError::MissingField { field: Field::Status, document: Json::Array(vec![]) })
    );
}

#[test]
fn decide_misses_the_report_of_a_failure_without_one() {
    let service = service();
    let mut poller = service.wait_for_transcription("abc123");
    let step = poller.decide(object(vec![("status", text("error"))]));
    assert_eq!(
        step,
        PollStep::Fail(ApiError::MissingField {
            field: Field::Error,
            document: object(vec![("status", text("error"))]),
        })
    );
    assert_eq!(poller.state(), PollState::Failed);
}

#[test]
fn decide_hands_on_a_report_that_is_null() {
    let service = service();
    let mut poller = service.wait_for_transcription("abc123");
    let step = poller.decide(object(vec![("status", text("error")), ("error", Json::Null)]));
    assert_eq!(step, PollStep::Fail(ApiError::ServiceReported(Json::Null)));
}

#[test]
fn named_transcript_is_named_after_the_job() {
    assert_eq!(
        named_transcript("abc123", "{}".to_string()),
        FileWrite { file_name: "abc123.json".to_string(), contents: "{}".to_string() }
    );
}

#[test]
fn transcript_file_holds_the_payload_indented() {
    let payload = object(vec![("status", text("completed")), ("id", text("abc123"))]);
    assert_eq!(
        transcript_file("abc123", &payload),
        Ok(FileWrite {
            file_name: "abc123.json".to_string(),
            contents: "{\n  \"id\": \"abc123\",\n  \"status\": \"completed\"\n}".to_string(),
        })
    );
}

#[test]
fn transcript_reads_back_as_it_was_delivered() {
    let delivered = "{\"id\":\"abc123\",\"status\":\"completed\",\"confidence\":0.93,\
                     \"words\":[{\"text\":\"hi\",\"start\":0,\"end\":120}],\"summary\":null}";
    let run = follow("abc123", vec![body(delivered)]);
    let payload = run.outcome.unwrap();
    let file = transcript_file("abc123", &payload).unwrap();
    assert_eq!(Json::parse(&file.contents), Ok(payload));
    assert_eq!(Json::parse(&file.contents), Json::parse(delivered));
}

#[test]
fn a_completed_job_is_fetched_and_stored_again() {
    let delivered = "{\"status\": \"completed\", \"text\": \"hello\"}";
    let first = follow("abc123", vec![body(delivered)]);
    let second = follow("abc123", vec![body(delivered)]);
    assert_eq!(first.gets, 1);
    assert_eq!(second.gets, 1);
    assert_eq!(first.outcome, second.outcome);
    let first_file = transcript_file("abc123", &first.outcome.unwrap()).unwrap();
    let second_file = transcript_file("abc123", &second.outcome.unwrap()).unwrap();
    assert_eq!(first_file, second_file);
    let service = service();
    assert_eq!(
        service.wait_for_transcription("abc123").request(),
        service.wait_for_transcription("abc123").request()
    );
}
