use assembly_cli::cli::QuestionArgs;
use assembly_cli::error::{ApiError, Field};
use assembly_cli::http::{Method, Reply};
use assembly_cli::json::Json;
use assembly_cli::question_answer::{
    parse_questions, question_array, read_answer, read_answers, read_optional_text,
    read_optional_texts, read_question, read_questions, read_texts, report, run, text_array,
    Answer, Question, QuestionAnswer,
};

fn body(text: &str) -> Reply {
    Reply::Body(text.as_bytes().to_vec())
}

fn text(s: &str) -> Json {
    Json::String(s.to_string())
}

fn object(members: Vec<(&str, Json)>) -> Json {
    Json::Object(members.into_iter().map(|(name, value)| (name.to_string(), value)).collect())
}

fn answer(question: &str, answer: &str) -> Answer {
    Answer { question: question.to_string(), answer: answer.to_string() }
}

fn plain(question: &str) -> Question {
    Question { question: question.to_string(), answer_format: None, answer_options: None }
}

fn full() -> Question {
    Question {
        question: "Was the caller satisfied?".to_string(),
        answer_format: Some("one word".to_string()),
        answer_options: Some(vec!["yes".to_string(), "no".to_string()]),
    }
}

#[test]
fn question_answer_new_keeps_address_and_headers() {
    let client = QuestionAnswer::new("secret", "https://api.example/lemur/v3/question");
    assert_eq!(client.api_url(), "https://api.example/lemur/v3/question");
    assert_eq!(client.headers().len(), 2);
    assert_eq!(client.headers().get("authorization").unwrap().as_bytes(), b"secret");
    assert_eq!(client.headers().get("content-type").unwrap().as_bytes(), b"application/json");
}

#[test]
fn ask_builds_the_one_request() {
    let client = QuestionAnswer::new("secret", "https://api.example/lemur/v3/question");
    let request = client.ask(vec!["t1".to_string(), "t2".to_string()], vec![plain("Q1"), full()]);
    assert_eq!(request.method, Method::Post);
    assert_eq!(request.url, "https://api.example/lemur/v3/question");
    assert_eq!(request.headers, client.headers());
    assert_eq!(
        request.body,
        Some(object(vec![
            ("transcript_ids", Json::Array(vec![text("t1"), text("t2")])),
            (
                "questions",
                Json::Array(vec![
                    object(vec![
                        ("question", text("Q1")),
                        ("answer_format", Json::Null),
                        ("answer_options", Json::Null),
                    ]),
                    object(vec![
                        ("question", text("Was the caller satisfied?")),
                        ("answer_format", text("one word")),
                        ("answer_options", Json::Array(vec![text("yes"), text("no")])),
                    ]),
                ])
            ),
            ("final_model", text("basic")),
        ]))
    );
}

#[test]
fn ask_body_reads_as_the_service_expects() {
    let client = QuestionAnswer::new("secret", "https://api.example/lemur/v3/question");
    let request = client.ask(vec!["t1".to_string()], vec![plain("Q1")]);
    assert_eq!(
        request.body.unwrap().to_text(),
        Ok("{\"final_model\":\"basic\",\"questions\":[{\"answer_format\":null,\"answer_options\":null,\
            \"question\":\"Q1\"}],\"transcript_ids\":[\"t1\"]}"
            .to_string())
    );
}

#[test]
fn ask_with_nothing_to_ask_sends_empty_lists() {
    let client = QuestionAnswer::new("secret", "https://api.example/lemur/v3/question");
    let request = client.ask(vec![], vec![]);
    assert_eq!(
        request.body,
        Some(object(vec![
            ("transcript_ids", Json::Array(vec![])),
            ("questions", Json::Array(vec![])),
            ("final_model", text("basic")),
        ]))
    );
}

#[test]
fn text_array_holds_the_texts_in_order() {
    assert_eq!(
        text_array(&vec!["b".to_string(), "a".to_string()]),
        Json::Array(vec![text("b"), text("a")])
    );
    assert_eq!(text_array(&vec![]), Json::Array(vec![]));
}

#[test]
fn to_json_writes_missing_hints_as_null() {
    assert_eq!(
        plain("Q1").to_json(),
        object(vec![
            ("question", text("Q1")),
            ("answer_format", Json::Null),
            ("answer_options", Json::Null),
        ])
    );
}

#[test]
fn question_array_holds_the_records_in_order() {
    assert_eq!(
        question_array(&vec![full(), plain("Q2")]),
        Json::Array(vec![full().to_json(), plain("Q2").to_json()])
    );
}

#[test]
fn questions_survive_the_way_into_a_request_and_back() {
    let questions = vec![plain("Q1"), full(), plain("")];
    assert_eq!(read_questions(&question_array(&questions)), Some(questions));
    assert_eq!(read_question(&full().to_json()), Some(full()));
}

#[test]
fn answers_reads_one_pair() {
    let reply = body("{\"response\":[{\"question\":\"Q1\",\"answer\":\"A1\"}]}");
    let answers = QuestionAnswer::replied(reply).unwrap();
    assert_eq!(answers, vec![answer("Q1", "A1")]);
    assert_eq!(report(&answers), vec!["Question: Q1".to_string(), "Answer: A1".to_string()]);
}

#[test]
fn answers_keeps_the_order_of_the_service() {
    let response = object(vec![(
        "response",
        Json::Array(vec![
            object(vec![("question", text("Q2")), ("answer", text("A2"))]),
            object(vec![("answer", text("A1")), ("question", text("Q1")), ("unused", Json::Null)]),
        ]),
    )]);
    assert_eq!(
        QuestionAnswer::answers(response),
        Ok(vec![answer("Q2", "A2"), answer("Q1", "A1")])
    );
}

#[test]
fn answers_reads_an_empty_list() {
    let response = object(vec![("response", Json::Array(vec![]))]);
    assert_eq!(QuestionAnswer::answers(response), Ok(vec![]));
    assert_eq!(report(&vec![]), Vec::<String>::new());
}

#[test]
fn answers_misses_the_response_of_a_reply_without_one() {
    let reply = body("{\"error\":\"no such transcript\"}");
    assert_eq!(
        QuestionAnswer::replied(reply),
        Err(ApiError::MissingField {
            field: Field::Response,
            document: object(vec![("error", text("no such transcript"))]),
        })
    );
    assert_eq!(
        QuestionAnswer::answers(Json::Array(vec![])),
        Err(ApiError::MissingField { field: Field::Response, document: Json::Array(vec![]) })
    );
}

#[test]
fn answers_rejects_a_response_that_is_no_list_of_answers() {
    let cases = vec![
        object(vec![("response", text("nothing"))]),
        object(vec![("response", Json::Null)]),
        object(vec![("response", object(vec![("question", text("Q")), ("answer", text("A"))]))]),
        object(vec![("response", Json::Array(vec![text("A1")]))]),
        object(vec![("response", Json::Array(vec![object(vec![("question", text("Q1"))])]))]),
        object(vec![(
            "response",
            Json::Array(vec![
                object(vec![("question", text("Q1")), ("answer", text("A1"))]),
                object(vec![("question", text("Q2")), ("answer", Json::Null)]),
            ]),
        )]),
    ];
    for response in cases {
        let outcome = QuestionAnswer::answers(response);
        assert!(matches!(outcome, Err(ApiError::AnswerParse(_))));
    }
    let response = || object(vec![("response", Json::Array(vec![Json::Bool(true)]))]);
    assert_eq!(QuestionAnswer::answers(response()), Err(ApiError::AnswerParse(response())));
}

#[test]
fn replied_fails_on_transport_and_on_what_is_no_json() {
    assert_eq!(
        QuestionAnswer::replied(Reply::Failed("dns".to_string())),
        Err(ApiError::Transport("dns".to_string()))
    );
    let outcome = QuestionAnswer::replied(body("not json"));
    assert!(matches!(outcome, Err(ApiError::MalformedResponse(_))));
}

#[test]
fn read_answer_needs_both_strings() {
    assert_eq!(
        read_answer(&object(vec![("question", text("Q")), ("answer", text("A"))])),
        Some(answer("Q", "A"))
    );
    assert_eq!(read_answer(&object(vec![("question", text("Q"))])), None);
    assert_eq!(read_answer(&object(vec![("answer", text("A"))])), None);
    assert_eq!(read_answer(&Json::Array(vec![text("Q"), text("A")])), None);
    assert_eq!(read_answers(&Json::Null), None);
}

#[test]
fn report_shows_question_then_answer_for_each_pair() {
    let answers = vec![answer("Q1", "A1"), answer("Q2", "")];
    assert_eq!(
        report(&answers),
        vec![
            "Question: Q1".to_string(),
            "Answer: A1".to_string(),
            "Question: Q2".to_string(),
            "Answer: ".to_string(),
        ]
    );
}

#[test]
fn parse_questions_reads_records_with_and_without_hints() {
    let text = "[{\"question\": \"Q1\"},
                 {\"question\": \"Was the caller satisfied?\", \"answer_format\": \"one word\",
                  \"answer_options\": [\"yes\", \"no\"]},
                 {\"question\": \"Q3\", \"answer_format\": null, \"answer_options\": null, \"note\": 1}]";
    assert_eq!(parse_questions(text), Ok(vec![plain("Q1"), full(), plain("Q3")]));
    assert_eq!(parse_questions("[]"), Ok(vec![]));
}

#[test]
fn parse_questions_rejects_what_is_no_json() {
    assert!(matches!(parse_questions("[{\"question\": "), Err(ApiError::QuestionParse(_))));
}

#[test]
fn parse_questions_rejects_what_is_no_list_of_questions() {
    let wrong = Err(ApiError::QuestionParse("expected a list of question records".to_string()));
    assert_eq!(parse_questions("{\"question\": \"Q1\"}"), wrong);
    assert_eq!(parse_questions("[\"Q1\"]"), wrong);
    assert_eq!(parse_questions("[{\"answer_format\": \"one word\"}]"), wrong);
    assert_eq!(parse_questions("[{\"question\": 1}]"), wrong);
    assert_eq!(parse_questions("[{\"question\": \"Q1\", \"answer_format\": 7}]"), wrong);
    assert_eq!(parse_questions("[{\"question\": \"Q1\", \"answer_options\": \"yes\"}]"), wrong);
    assert_eq!(parse_questions("[{\"question\": \"Q1\", \"answer_options\": [\"yes\", 2]}]"), wrong);
}

#[test]
fn read_texts_reads_arrays_of_strings() {
    assert_eq!(
        read_texts(&Json::Array(vec![text("a"), text("b")])),
        Some(vec!["a".to_string(), "b".to_string()])
    );
    assert_eq!(read_texts(&Json::Array(vec![text("a"), Json::Null])), None);
    assert_eq!(read_texts(&text("a")), None);
}

#[test]
fn optional_hints_may_be_missing_or_null() {
    assert_eq!(read_optional_text(None), Some(None));
    assert_eq!(read_optional_text(Some(&Json::Null)), Some(None));
    assert_eq!(read_optional_text(Some(&text("x"))), Some(Some("x".to_string())));
    assert_eq!(read_optional_text(Some(&Json::Bool(true))), None);
    assert_eq!(read_optional_texts(None), Some(None));
    assert_eq!(read_optional_texts(Some(&Json::Null)), Some(None));
    assert_eq!(
        read_optional_texts(Some(&Json::Array(vec![text("x")]))),
        Some(Some(vec!["x".to_string()]))
    );
    assert_eq!(read_optional_texts(Some(&text("x"))), None);
}

#[test]
fn question_run_hands_the_arguments_on() {
    let args = QuestionArgs {
        questions_file_path: std::path::PathBuf::from("questions.json"),
        transcript_id: vec!["t1".to_string(), "t2".to_string()],
    };
    let inquiry = run("secret", Some("https://api.example/lemur/v3/question"), args).unwrap();
    assert_eq!(inquiry.client.api_url(), "https://api.example/lemur/v3/question");
    assert_eq!(inquiry.client.headers().get("authorization").unwrap().as_bytes(), b"secret");
    assert_eq!(inquiry.questions_file_path, std::path::PathBuf::from("questions.json"));
    assert_eq!(inquiry.transcript_ids, vec!["t1".to_string(), "t2".to_string()]);
}

#[test]
fn question_run_fails_without_the_address_of_the_service() {
    let args = QuestionArgs {
        questions_file_path: std::path::PathBuf::from("questions.json"),
        transcript_id: vec![],
    };
    let outcome = run("secret", None, args);
    assert_eq!(
        outcome.err(),
        Some(ApiError::Configuration("QUESTION_URL not set.".to_string()))
    );
}
