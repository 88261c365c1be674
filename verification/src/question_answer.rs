//! Questions put to finished transcripts, and the answers that come back.
//!
//! A [`QuestionAnswer`] says which request carries a batch of questions and
//! reads the list of answers from the reply.

use crate::cli::QuestionArgs;
use crate::error::{missing_setting, require_setting, ApiError, ApiErrorView, Field};
use crate::headers::{client_headers, header_entries, is_header_text, json_headers};
use crate::http::{Method, Reply, ReplyView, Request, RequestView};
use crate::json::{items_of, json_of, lemma_items_of, push_member, Json, JsonView};
use crate::text::join;
use crate::wire::parsed;
use reqwest::header::{HeaderMap, HeaderValue};
use vstd::prelude::*;
use vstd::utf8::encode_utf8;

verus! {

/// One question, with optional hints on the form of its answer.
#[derive(Debug, PartialEq)]
pub struct Question {
    pub question: String,
    pub answer_format: Option<String>,
    pub answer_options: Option<Vec<String>>,
}

/// The mathematical value of a [`Question`].
pub struct QuestionView {
    pub question: Seq<char>,
    pub answer_format: Option<Seq<char>>,
    pub answer_options: Option<Seq<Seq<char>>>,
}

/// One answer of the service: the question as the service repeats it, and
/// what it answers.
#[derive(Debug, PartialEq)]
pub struct Answer {
    pub question: String,
    pub answer: String,
}

/// The mathematical value of an [`Answer`].
pub struct AnswerView {
    pub question: Seq<char>,
    pub answer: Seq<char>,
}

/// The values of a list of texts, in their order.
pub open spec fn texts_of(texts: Seq<String>) -> Seq<Seq<char>> {
    Seq::new(texts.len(), |i: int| texts[i]@)
}

/// The values of a list of questions, in their order.
pub open spec fn questions_view(questions: Seq<Question>) -> Seq<QuestionView> {
    Seq::new(questions.len(), |i: int| questions[i]@)
}

/// The values of a list of answers, in their order.
pub open spec fn answers_view(answers: Seq<Answer>) -> Seq<AnswerView> {
    Seq::new(answers.len(), |i: int| answers[i]@)
}

impl View for Question {
    type V = QuestionView;

    open spec fn view(&self) -> QuestionView {
        QuestionView {
            question: self.question@,
            answer_format: match self.answer_format {
                Some(format) => Some(format@),
                None => None,
            },
            answer_options: match self.answer_options {
                Some(options) => Some(texts_of(options@)),
                None => None,
            },
        }
    }
}

impl View for Answer {
    type V = AnswerView;

    open spec fn view(&self) -> AnswerView {
        AnswerView { question: self.question@, answer: self.answer@ }
    }
}

/// A text where there is one, and `null` where there is none.
pub open spec fn optional_text(text: Option<Seq<char>>) -> JsonView {
    match text {
        Some(text) => JsonView::String(text),
        None => JsonView::Null,
    }
}

/// The array of the strings `texts`.
pub open spec fn text_list(texts: Seq<Seq<char>>) -> JsonView {
    JsonView::Array(Seq::new(texts.len(), |i: int| JsonView::String(texts[i])))
}

/// The array of the strings `texts` where there are any, and `null` where
/// there are none.
pub open spec fn optional_text_list(texts: Option<Seq<Seq<char>>>) -> JsonView {
    match texts {
        Some(texts) => text_list(texts),
        None => JsonView::Null,
    }
}

/// The record that stands for a question in a request: its three members, a
/// missing hint as `null`.
pub open spec fn question_value(question: QuestionView) -> JsonView {
    JsonView::Object(
        Map::empty().insert("question"@, JsonView::String(question.question)).insert(
            "answer_format"@,
            optional_text(question.answer_format),
        ).insert("answer_options"@, optional_text_list(question.answer_options)),
    )
}

/// The array of the records of `questions`, in their order.
pub open spec fn question_list(questions: Seq<QuestionView>) -> JsonView {
    JsonView::Array(Seq::new(questions.len(), |i: int| question_value(questions[i])))
}

/// The body of the request that puts `questions` to the transcripts
/// `transcript_ids`.
pub open spec fn question_body(
    transcript_ids: Seq<Seq<char>>,
    questions: Seq<QuestionView>,
) -> JsonView {
    JsonView::Object(
        Map::empty().insert("transcript_ids"@, text_list(transcript_ids)).insert(
            "questions"@,
            question_list(questions),
        ).insert("final_model"@, JsonView::String("basic"@)),
    )
}

/// The answer that a record holds: its members `question` and `answer`, both
/// strings. Further members do not count.
pub open spec fn answer_of(item: JsonView) -> Option<AnswerView> {
    match (item.text_field("question"@), item.text_field("answer"@)) {
        (Some(question), Some(answer)) => Some(AnswerView { question, answer }),
        _ => None,
    }
}

/// The answers that a document holds: it is an array, and every item of it
/// holds an answer.
pub open spec fn answers_of(list: JsonView) -> Option<Seq<AnswerView>> {
    match list {
        JsonView::Array(items) => if forall|i: int|
            0 <= i < items.len() ==> (#[trigger] answer_of(items[i])) is Some {
            Some(Seq::new(items.len(), |i: int| answer_of(items[i])->0))
        } else {
            None
        },
        _ => None,
    }
}

/// The hint that a member gives: none where the member is missing or `null`,
/// the text where it is a string. `None` where it is anything else.
pub open spec fn optional_text_of(member: Option<JsonView>) -> Option<Option<Seq<char>>> {
    match member {
        None => Some(None),
        Some(JsonView::Null) => Some(None),
        Some(JsonView::String(text)) => Some(Some(text)),
        Some(_) => None,
    }
}

/// The texts that a document holds: it is an array, and every item of it is
/// a string.
pub open spec fn texts_in(list: JsonView) -> Option<Seq<Seq<char>>> {
    match list {
        JsonView::Array(items) => if forall|i: int|
            0 <= i < items.len() ==> (#[trigger] items[i].text()) is Some {
            Some(Seq::new(items.len(), |i: int| items[i].text()->0))
        } else {
            None
        },
        _ => None,
    }
}

/// The list of options that a member gives: none where the member is missing
/// or `null`, the texts where it is an array of strings. `None` where it is
/// anything else.
pub open spec fn optional_texts_of(member: Option<JsonView>) -> Option<Option<Seq<Seq<char>>>> {
    match member {
        None => Some(None),
        Some(JsonView::Null) => Some(None),
        Some(list) => match texts_in(list) {
            Some(texts) => Some(Some(texts)),
            None => None,
        },
    }
}

/// The question that a record holds: a member `question` that is a string,
/// and the two hints where they are given. Further members do not count.
pub open spec fn question_of(item: JsonView) -> Option<QuestionView> {
    match (
        item.text_field("question"@),
        optional_text_of(item.field("answer_format"@)),
        optional_texts_of(item.field("answer_options"@)),
    ) {
        (Some(question), Some(answer_format), Some(answer_options)) => Some(
            QuestionView { question, answer_format, answer_options },
        ),
        _ => None,
    }
}

/// The questions that a document holds: it is an array, and every item of it
/// holds a question.
pub open spec fn questions_of(list: JsonView) -> Option<Seq<QuestionView>> {
    match list {
        JsonView::Array(items) => if forall|i: int|
            0 <= i < items.len() ==> (#[trigger] question_of(items[i])) is Some {
            Some(Seq::new(items.len(), |i: int| question_of(items[i])->0))
        } else {
            None
        },
        _ => None,
    }
}

/// What is said of a JSON text that holds no list of questions.
pub open spec fn not_a_question_list() -> Seq<char> {
    "expected a list of question records"@
}

/// What a text of questions says: the questions, where the text is JSON and
/// holds a list of them, and else what is wrong with it. Of a text that is
/// no JSON this says only that the questions cannot be read.
pub open spec fn questions_read(text: Seq<char>, outcome: Result<Vec<Question>, ApiError>) -> bool {
    match parsed(encode_utf8(text)) {
        Some(list) => match questions_of(list) {
            Some(questions) => outcome matches Ok(read) && questions_view(read@) == questions,
            None => outcome matches Err(error) && error@ == ApiErrorView::QuestionParse(
                not_a_question_list(),
            ),
        },
        None => outcome matches Err(ApiError::QuestionParse(_)),
    }
}

/// What a reply to a batch of questions says: the answers in the order of
/// its member `response`; that the member is missing; or that it is no list
/// of answers.
pub open spec fn decoded_answers(response: JsonView) -> Result<Seq<AnswerView>, ApiErrorView> {
    match response.field(Field::Response.key()) {
        None => Err(ApiErrorView::MissingField { field: Field::Response, document: response }),
        Some(list) => match answers_of(list) {
            Some(answers) => Ok(answers),
            None => Err(ApiErrorView::AnswerParse(response)),
        },
    }
}

/// The mathematical value of the outcome of reading answers.
pub open spec fn answers_outcome(outcome: Result<Vec<Answer>, ApiError>) -> Result<
    Seq<AnswerView>,
    ApiErrorView,
> {
    match outcome {
        Ok(answers) => Ok(answers_view(answers@)),
        Err(error) => Err(error@),
    }
}

/// The lines that show `answers`: for each answer, in order, the line of its
/// question and then the line of what was answered.
pub open spec fn answer_lines(answers: Seq<AnswerView>) -> Seq<Seq<char>> {
    Seq::new(
        2 * answers.len(),
        |i: int|
            if i % 2 == 0 {
                "Question: "@ + answers[i / 2].question
            } else {
                "Answer: "@ + answers[i / 2].answer
            },
    )
}

/// The array of the strings `texts`.
pub fn text_array(texts: &Vec<String>) -> (doc: Json)
    ensures
        doc@ == text_list(texts_of(texts@)),
{
    let mut items: Vec<Json> = Vec::new();
    let mut i: usize = 0;
    while i < texts.len()
        invariant
            i <= texts.len(),
            items@.len() == i,
            forall|j: int| 0 <= j < i ==> (#[trigger] items@[j])@ == JsonView::String(texts@[j]@),
        decreases texts.len() - i,
    {
        items.push(Json::string(texts[i].as_str()));
        i = i + 1;
    }
    proof {
        lemma_items_of(items@);
        assert(items_of(items@) =~= text_list(texts_of(texts@))->Array_0);
    }
    Json::Array(items)
}

impl Question {
    /// The record that stands for the question in a request.
    pub fn to_json(&self) -> (doc: Json)
        ensures
            doc@ == question_value(self@),
    {
        let format = match &self.answer_format {
            Some(format) => Json::string(format.as_str()),
            None => Json::Null,
        };
        let options = match &self.answer_options {
            Some(options) => text_array(options),
            None => Json::Null,
        };
        let mut members: Vec<(String, Json)> = Vec::new();
        push_member(&mut members, "question", Json::string(self.question.as_str()));
        push_member(&mut members, "answer_format", format);
        push_member(&mut members, "answer_options", options);
        Json::Object(members)
    }
}

/// The array of the records of `questions`, in their order.
pub fn question_array(questions: &Vec<Question>) -> (doc: Json)
    ensures
        doc@ == question_list(questions_view(questions@)),
{
    let mut items: Vec<Json> = Vec::new();
    let mut i: usize = 0;
    while i < questions.len()
        invariant
            i <= questions.len(),
            items@.len() == i,
            forall|j: int| 0 <= j < i ==> (#[trigger] items@[j])@ == question_value(questions@[j]@),
        decreases questions.len() - i,
    {
        items.push(questions[i].to_json());
        i = i + 1;
    }
    proof {
        lemma_items_of(items@);
        assert(items_of(items@) =~= question_list(questions_view(questions@))->Array_0);
    }
    Json::Array(items)
}

/// The answer that a record holds.
pub fn read_answer(item: &Json) -> (answer: Option<Answer>)
    ensures
        match answer {
            Some(answer) => answer_of(item@) == Some(answer@),
            None => answer_of(item@) is None,
        },
{
    let question = match item.get("question") {
        Some(value) => match value.as_str() {
            Some(text) => Some(text.to_owned()),
            None => None,
        },
        None => None,
    };
    let answer = match item.get("answer") {
        Some(value) => match value.as_str() {
            Some(text) => Some(text.to_owned()),
            None => None,
        },
        None => None,
    };
    match (question, answer) {
        (Some(question), Some(answer)) => Some(Answer { question, answer }),
        _ => None,
    }
}

/// The answers that a document holds.
pub fn read_answers(list: &Json) -> (answers: Option<Vec<Answer>>)
    ensures
        match answers {
            Some(answers) => answers_of(list@) == Some(answers_view(answers@)),
            None => answers_of(list@) is None,
        },
{
    match list.as_array() {
        None => None,
        Some(items) => {
            let ghost values = items_of(items@);
            proof {
                lemma_items_of(items@);
            }
            let mut answers: Vec<Answer> = Vec::new();
            let mut i: usize = 0;
            while i < items.len()
                invariant
                    i <= items.len(),
                    values == items_of(items@),
                    values.len() == items@.len(),
                    forall|j: int| 0 <= j < items@.len() ==> (#[trigger] values[j]) == items@[j]@,
                    list@ == JsonView::Array(values),
                    answers@.len() == i,
                    forall|j: int|
                        0 <= j < i ==> answer_of(values[j]) == Some((#[trigger] answers@[j])@),
                decreases items.len() - i,
            {
                match read_answer(&items[i]) {
                    Some(answer) => {
                        answers.push(answer);
                    },
                    None => {
                        assert(answer_of(values[i as int]) is None);
                        return None;
                    },
                }
                i = i + 1;
            }
            proof {
                assert forall|j: int| 0 <= j < values.len() implies (#[trigger] answer_of(
                    values[j],
                )) is Some by {
                    assert(answer_of(values[j]) == Some(answers@[j]@));
                }
                assert(answers_view(answers@) =~= answers_of(list@)->0);
            }
            Some(answers)
        },
    }
}

/// The texts that a document holds.
pub fn read_texts(list: &Json) -> (texts: Option<Vec<String>>)
    ensures
        match texts {
            Some(texts) => texts_in(list@) == Some(texts_of(texts@)),
            None => texts_in(list@) is None,
        },
{
    match list.as_array() {
        None => None,
        Some(items) => {
            let ghost values = items_of(items@);
            proof {
                lemma_items_of(items@);
            }
            let mut texts: Vec<String> = Vec::new();
            let mut i: usize = 0;
            while i < items.len()
                invariant
                    i <= items.len(),
                    values == items_of(items@),
                    values.len() == items@.len(),
                    forall|j: int| 0 <= j < items@.len() ==> (#[trigger] values[j]) == items@[j]@,
                    list@ == JsonView::Array(values),
                    texts@.len() == i,
                    forall|j: int| 0 <= j < i ==> values[j].text() == Some((#[trigger] texts@[j])@),
                decreases items.len() - i,
            {
                match items[i].as_str() {
                    Some(text) => {
                        texts.push(text.to_owned());
                    },
                    None => {
                        assert(values[i as int].text() is None);
                        return None;
                    },
                }
                i = i + 1;
            }
            proof {
                assert forall|j: int| 0 <= j < values.len() implies (#[trigger] values[j].text())
                    is Some by {
                    assert(values[j].text() == Some(texts@[j]@));
                }
                assert(texts_of(texts@) =~= texts_in(list@)->0);
            }
            Some(texts)
        },
    }
}

/// The hint that a member gives. The outer `None` says that the member is
/// neither missing, nor `null`, nor a string.
pub fn read_optional_text(member: Option<&Json>) -> (hint: Option<Option<String>>)
    ensures
        match hint {
            Some(Some(text)) => optional_text_of(json_of(member)) == Some(Some(text@)),
            Some(None) => optional_text_of(json_of(member)) == Some(None::<Seq<char>>),
            None => optional_text_of(json_of(member)) is None,
        },
{
    match member {
        None => Some(None),
        Some(value) => {
            if value.is_null() {
                Some(None)
            } else {
                match value.as_str() {
                    Some(text) => Some(Some(text.to_owned())),
                    None => None,
                }
            }
        },
    }
}

/// The list of options that a member gives. The outer `None` says that the
/// member is neither missing, nor `null`, nor an array of strings.
pub fn read_optional_texts(member: Option<&Json>) -> (options: Option<Option<Vec<String>>>)
    ensures
        match options {
            Some(Some(texts)) => optional_texts_of(json_of(member)) == Some(
                Some(texts_of(texts@)),
            ),
            Some(None) => optional_texts_of(json_of(member)) == Some(None::<Seq<Seq<char>>>),
            None => optional_texts_of(json_of(member)) is None,
        },
{
    match member {
        None => Some(None),
        Some(value) => {
            if value.is_null() {
                Some(None)
            } else {
                match read_texts(value) {
                    Some(texts) => Some(Some(texts)),
                    None => None,
                }
            }
        },
    }
}

/// The question that a record holds.
pub fn read_question(item: &Json) -> (question: Option<Question>)
    ensures
        match question {
            Some(question) => question_of(item@) == Some(question@),
            None => question_of(item@) is None,
        },
{
    let question = match item.get("question") {
        Some(value) => match value.as_str() {
            Some(text) => Some(text.to_owned()),
            None => None,
        },
        None => None,
    };
    let answer_format = read_optional_text(item.get("answer_format"));
    let answer_options = read_optional_texts(item.get("answer_options"));
    match (question, answer_format, answer_options) {
        (Some(question), Some(answer_format), Some(answer_options)) => Some(
            Question { question, answer_format, answer_options },
        ),
        _ => None,
    }
}

/// The questions that a document holds.
pub fn read_questions(list: &Json) -> (questions: Option<Vec<Question>>)
    ensures
        match questions {
            Some(questions) => questions_of(list@) == Some(questions_view(questions@)),
            None => questions_of(list@) is None,
        },
{
    match list.as_array() {
        None => None,
        Some(items) => {
            let ghost values = items_of(items@);
            proof {
                lemma_items_of(items@);
            }
            let mut questions: Vec<Question> = Vec::new();
            let mut i: usize = 0;
            while i < items.len()
                invariant
                    i <= items.len(),
                    values == items_of(items@),
                    values.len() == items@.len(),
                    forall|j: int| 0 <= j < items@.len() ==> (#[trigger] values[j]) == items@[j]@,
                    list@ == JsonView::Array(values),
                    questions@.len() == i,
                    forall|j: int|
                        0 <= j < i ==> question_of(values[j]) == Some((#[trigger] questions@[j])@),
                decreases items.len() - i,
            {
                match read_question(&items[i]) {
                    Some(question) => {
                        questions.push(question);
                    },
                    None => {
                        assert(question_of(values[i as int]) is None);
                        return None;
                    },
                }
                i = i + 1;
            }
            proof {
                assert forall|j: int| 0 <= j < values.len() implies (#[trigger] question_of(
                    values[j],
                )) is Some by {
                    assert(question_of(values[j]) == Some(questions@[j]@));
                }
                assert(questions_view(questions@) =~= questions_of(list@)->0);
            }
            Some(questions)
        },
    }
}

/// Reads the questions from the text of a file: a JSON array of question
/// records.
pub fn parse_questions(text: &str) -> (outcome: Result<Vec<Question>, ApiError>)
    ensures
        questions_read(text@, outcome),
{
    match Json::parse(text) {
        Err(detail) => Err(ApiError::QuestionParse(detail)),
        Ok(list) => match read_questions(&list) {
            Some(questions) => Ok(questions),
            None => Err(ApiError::QuestionParse("expected a list of question records".to_owned())),
        },
    }
}

/// The lines that show `answers`.
pub fn report(answers: &Vec<Answer>) -> (lines: Vec<String>)
    ensures
        texts_of(lines@) == answer_lines(answers_view(answers@)),
{
    let mut lines: Vec<String> = Vec::new();
    let mut i: usize = 0;
    while i < answers.len()
        invariant
            i <= answers.len(),
            lines@.len() == 2 * i,
            forall|j: int|
                0 <= j < 2 * i ==> (#[trigger] lines@[j])@ == answer_lines(
                    answers_view(answers@),
                )[j],
        decreases answers.len() - i,
    {
        lines.push(join("Question: ", answers[i].question.as_str()));
        lines.push(join("Answer: ", answers[i].answer.as_str()));
        i = i + 1;
    }
    proof {
        assert(texts_of(lines@) =~= answer_lines(answers_view(answers@)));
    }
    lines
}

/// The settings of the question service: its address and the headers that go
/// with every request.
#[derive(Debug)]
pub struct QuestionAnswer<'a> {
    headers: HeaderMap<HeaderValue>,
    api_url: &'a str,
}

/// The mathematical value of a [`QuestionAnswer`].
pub struct QuestionAnswerView {
    pub api_url: Seq<char>,
    pub headers: Map<Seq<char>, Seq<u8>>,
}

impl<'a> View for QuestionAnswer<'a> {
    type V = QuestionAnswerView;

    closed spec fn view(&self) -> QuestionAnswerView {
        QuestionAnswerView { api_url: self.api_url@, headers: header_entries(self.headers) }
    }
}

impl<'a> QuestionAnswer<'a> {
    /// The settings for the service at `api_url`, with `token` as the
    /// authorization. The token must be a text that can stand in a header;
    /// [`accepts_token`](crate::headers::accepts_token) tells.
    pub fn new(token: &str, api_url: &'a str) -> (client: Self)
        requires
            is_header_text(token@),
        ensures
            client@ == (QuestionAnswerView {
                api_url: api_url@,
                headers: client_headers(token@),
            }),
    {
        QuestionAnswer { headers: json_headers(token), api_url }
    }

    /// The address of the service.
    pub fn api_url(&self) -> (url: &'a str)
        ensures
            url@ == self@.api_url,
    {
        self.api_url
    }

    /// The headers that go with every request.
    pub fn headers(&self) -> (headers: &HeaderMap<HeaderValue>)
        ensures
            header_entries(*headers) == self@.headers,
    {
        &self.headers
    }

    /// The one request that puts `questions` to the transcripts
    /// `transcript_ids`.
    pub fn ask(&self, transcript_ids: Vec<String>, questions: Vec<Question>) -> (request: Request<
        '_,
    >)
        ensures
            request@ == (RequestView {
                method: Method::Post,
                url: self@.api_url,
                headers: self@.headers,
                body: Some(question_body(texts_of(transcript_ids@), questions_view(questions@))),
            }),
    {
        let mut members: Vec<(String, Json)> = Vec::new();
        push_member(&mut members, "transcript_ids", text_array(&transcript_ids));
        push_member(&mut members, "questions", question_array(&questions));
        push_member(&mut members, "final_model", Json::string("basic"));
        Request {
            method: Method::Post,
            url: self.api_url.to_owned(),
            headers: &self.headers,
            body: Some(Json::Object(members)),
        }
    }

    /// Reads the answers from the document of a reply.
    pub fn answers(response: Json) -> (outcome: Result<Vec<Answer>, ApiError>)
        ensures
            answers_outcome(outcome) == decoded_answers(response@),
    {
        let read = match response.get(Field::Response.name()) {
            Some(list) => Some(read_answers(list)),
            None => None,
        };
        match read {
            None => Err(ApiError::MissingField { field: Field::Response, document: response }),
            Some(None) => Err(ApiError::AnswerParse(response)),
            Some(Some(answers)) => Ok(answers),
        }
    }

    /// Reads the answers from the exchange that carried the questions.
    pub fn replied(reply: Reply) -> (outcome: Result<Vec<Answer>, ApiError>)
        ensures
            match reply@ {
                ReplyView::Failed(detail) => answers_outcome(outcome) == Err::<
                    Seq<AnswerView>,
                    ApiErrorView,
                >(ApiErrorView::Transport(detail)),
                ReplyView::Body(bytes) => match parsed(bytes) {
                    Some(response) => answers_outcome(outcome) == decoded_answers(response),
                    None => outcome matches Err(ApiError::MalformedResponse(_)),
                },
            },
    {
        match reply {
            Reply::Failed(detail) => Err(ApiError::Transport(detail)),
            Reply::Body(bytes) => match Json::parse_bytes(bytes.as_slice()) {
                Ok(response) => Self::answers(response),
                Err(detail) => Err(ApiError::MalformedResponse(detail)),
            },
        }
    }
}

/// A run of the `question` command that is ready to start: the settings of
/// the service, and where the questions and the transcripts are to be found.
#[derive(Debug)]
pub struct Inquiry<'a> {
    pub client: QuestionAnswer<'a>,
    pub questions_file_path: std::path::PathBuf,
    pub transcript_ids: Vec<String>,
}

/// Prepares a run of the `question` command. `question_url` is the setting
/// `QUESTION_URL`, the address of the service; without it the run fails
/// before anything is read or sent. With it, the token must be a text that
/// can stand in a header.
pub fn run<'a>(token: &str, question_url: Option<&'a str>, args: QuestionArgs) -> (outcome: Result<
    Inquiry<'a>,
    ApiError,
>)
    requires
        question_url is Some ==> is_header_text(token@),
    ensures
        match question_url {
            Some(api_url) => outcome matches Ok(inquiry) && inquiry.questions_file_path
                == args.questions_file_path && inquiry.transcript_ids == args.transcript_id
                && inquiry.client@ == (QuestionAnswerView {
                api_url: api_url@,
                headers: client_headers(token@),
            }),
            None => outcome matches Err(error) && error@ == ApiErrorView::Configuration(
                missing_setting("QUESTION_URL"@),
            ),
        },
{
    let api_url = match require_setting("QUESTION_URL", question_url) {
        Ok(api_url) => api_url,
        Err(error) => {
            return Err(error);
        },
    };
    Ok(
        Inquiry {
            client: QuestionAnswer::new(token, api_url),
            questions_file_path: args.questions_file_path,
            transcript_ids: args.transcript_id,
        },
    )
}

/// The three members of a question's record have three different names.
proof fn lemma_member_names_differ()
    ensures
        "question"@ != "answer_format"@,
        "question"@ != "answer_options"@,
        "answer_format"@ != "answer_options"@,
{
    reveal_strlit("question");
    reveal_strlit("answer_format");
    reveal_strlit("answer_options");
    assert("question"@.len() == 8);
    assert("answer_format"@.len() == 13);
    assert("answer_options"@.len() == 14);
}

/// A question survives the way into a request and back: the record that
/// stands for it holds that question and no other.
pub proof fn lemma_question_round_trip(question: QuestionView)
    ensures
        question_of(question_value(question)) == Some(question),
{
    lemma_member_names_differ();
    let record = question_value(question);
    assert(record.field("question"@) == Some(JsonView::String(question.question)));
    assert(record.field("answer_format"@) == Some(optional_text(question.answer_format)));
    assert(record.field("answer_options"@) == Some(
        optional_text_list(question.answer_options),
    ));
    match question.answer_options {
        Some(options) => {
            let items = text_list(options)->Array_0;
            assert forall|i: int| 0 <= i < items.len() implies (#[trigger] items[i].text())
                is Some by {}
            assert(texts_in(text_list(options))->0 =~= options);
        },
        None => {},
    }
}

/// A list of questions survives the way into a request and back, every
/// question in its place.
pub proof fn lemma_question_list_round_trip(questions: Seq<QuestionView>)
    ensures
        questions_of(question_list(questions)) == Some(questions),
{
    let items = question_list(questions)->Array_0;
    assert forall|i: int| 0 <= i < items.len() implies (#[trigger] question_of(items[i]))
        == Some(questions[i]) by {
        lemma_question_round_trip(questions[i]);
    }
    assert(questions_of(question_list(questions))->0 =~= questions);
}

} // verus!
