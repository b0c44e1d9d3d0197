//! The classifier client's two halves: the request that carries a descriptor
//! to the service, and the label read from what the service answers.
//!
//! Sending the request is the caller's part. It reports what came back as an
//! [`HttpReply`].

use crate::config::{AppConfig, Classification};
use crate::json::{json_parse, parse_json, Json};
use vstd::prelude::*;
use vstd::string::*;

verus! {

/// Why a descriptor could not be classified.
#[derive(Debug, Clone, Copy, PartialEq, Eq, Structural)]
pub enum ClassifyError {
    /// The service could not be reached, or answered with a status other than
    /// a success.
    TransportError,
    /// The answer's body is not a JSON document.
    MalformedResponse,
}

/// What came back from the service.
#[derive(Debug, Clone, PartialEq, Eq)]
pub enum HttpReply {
    /// No answer: the request failed on the way.
    Unreachable,
    /// An answer, with its status code and its body as text.
    Response { status: u16, body: String },
}

/// One message of a chat request.
#[derive(Debug, Clone, PartialEq, Eq)]
pub struct ChatMessage {
    pub role: String,
    pub content: String,
}

/// The request sent to the service: the model to ask and the conversation so
/// far.
#[derive(Debug, Clone, PartialEq, Eq)]
pub struct ChatRequest {
    pub model: String,
    pub messages: Vec<ChatMessage>,
}

/// The label used when the answer names no category.
pub open spec fn fallback_label() -> Seq<char> {
    "others"@
}

/// What the system message says.
pub open spec fn system_text() -> Seq<char> {
    "你是一个分类助手"@
}

/// The instruction up to the list of labels.
pub open spec fn prompt_head() -> Seq<char> {
    "请从下列类型中选择一个最合适的类型并只返回这个 type 的 JSON, 例如 { \"category\": \"movie\" }. 已知类型: ["@
}

/// The instruction between the list of labels and the descriptor.
pub open spec fn prompt_tail() -> Seq<char> {
    "]。 文件夹内容信息: "@
}

/// A label between double quotes.
pub open spec fn quoted(label: Seq<char>) -> Seq<char> {
    "\""@ + label + "\""@
}

/// The labels of the rules, each between double quotes, with a comma and a
/// space between each two neighbours.
pub open spec fn quoted_labels(rules: Seq<Classification>) -> Seq<char>
    decreases rules.len(),
{
    if rules.len() == 0 {
        Seq::empty()
    } else if rules.len() == 1 {
        quoted(rules[0].prompt@)
    } else {
        quoted_labels(rules.drop_last()) + ", "@ + quoted(rules.last().prompt@)
    }
}

/// The user message: the instruction to pick one of the configured labels,
/// followed by the descriptor.
pub open spec fn prompt_text(descriptor: Seq<char>, rules: Seq<Classification>) -> Seq<char> {
    prompt_head() + quoted_labels(rules) + prompt_tail() + descriptor
}

/// `request` asks `config`'s model to classify `descriptor`.
pub open spec fn is_request_for(
    request: ChatRequest,
    descriptor: Seq<char>,
    config: AppConfig,
) -> bool {
    &&& request.model@ == config.model@
    &&& request.messages@.len() == 2
    &&& request.messages@[0].role@ == "system"@
    &&& request.messages@[0].content@ == system_text()
    &&& request.messages@[1].role@ == "user"@
    &&& request.messages@[1].content@ == prompt_text(descriptor, config.classifications@)
}

/// The text of the first choice's message in an answer: the string at
/// `choices[0].message.content`, if the document has one.
pub open spec fn message_content(doc: Json) -> Option<Seq<char>> {
    match doc.member("choices"@) {
        Some(choices) => match choices.element(0) {
            Some(choice) => match choice.member("message"@) {
                Some(message) => match message.member("content"@) {
                    Some(content) => content.text(),
                    None => None,
                },
                None => None,
            },
            None => None,
        },
        None => None,
    }
}

/// The string at `category` in the document that a message carries.
pub open spec fn category(inner: Json) -> Option<Seq<char>> {
    match inner.member("category"@) {
        Some(value) => value.text(),
        None => None,
    }
}

/// The label that a message's text stands for, given what that text parses
/// to: its category, or the fallback where it is no document or names none.
pub open spec fn content_label(parsed: Option<Json>) -> Seq<char> {
    match parsed {
        Some(inner) => match category(inner) {
            Some(label) => label,
            None => fallback_label(),
        },
        None => fallback_label(),
    }
}

/// The label that an answer's document stands for.
pub open spec fn envelope_label(doc: Json) -> Seq<char> {
    match message_content(doc) {
        Some(content) => content_label(json_parse(content)),
        None => fallback_label(),
    }
}

/// The label that an answer's body stands for, or the error where the body is
/// no JSON document.
pub open spec fn body_label(body: Seq<char>) -> Result<Seq<char>, ClassifyError> {
    match json_parse(body) {
        Some(doc) => Ok(envelope_label(doc)),
        None => Err(ClassifyError::MalformedResponse),
    }
}

/// A status code of the success class.
pub open spec fn is_success(status: u16) -> bool {
    200 <= status < 300
}

/// The outcome of a classification, given what came back from the service.
pub open spec fn reply_label(reply: HttpReply) -> Result<Seq<char>, ClassifyError> {
    match reply {
        HttpReply::Unreachable => Err(ClassifyError::TransportError),
        HttpReply::Response { status, body } => if is_success(status) {
            body_label(body@)
        } else {
            Err(ClassifyError::TransportError)
        },
    }
}

/// `res` is `expected`, label for label and error for error.
pub open spec fn label_matches(
    res: Result<String, ClassifyError>,
    expected: Result<Seq<char>, ClassifyError>,
) -> bool {
    match res {
        Ok(label) => expected == Ok::<Seq<char>, ClassifyError>(label@),
        Err(e) => expected == Err::<Seq<char>, ClassifyError>(e),
    }
}

/// Builds the user message for `descriptor`.
pub fn build_prompt(descriptor: &str, rules: &Vec<Classification>) -> (res: String)
    ensures
        res@ == prompt_text(descriptor@, rules@),
{
    let mut out = String::from_str(
        "请从下列类型中选择一个最合适的类型并只返回这个 type 的 JSON, 例如 { \"category\": \"movie\" }. 已知类型: [",
    );
    let mut i: usize = 0;
    assert(rules@.take(0) =~= Seq::<Classification>::empty());
    assert(out@ =~= prompt_head() + quoted_labels(rules@.take(0)));
    while i < rules.len()
        invariant
            i <= rules.len(),
            out@ == prompt_head() + quoted_labels(rules@.take(i as int)),
        decreases rules.len() - i,
    {
        let ghost before = rules@.take(i as int);
        let ghost after = rules@.take(i + 1);
        assert(after.drop_last() =~= before);
        assert(after.last() == rules@[i as int]);
        if i > 0 {
            out.append(", ");
        }
        out.append("\"");
        out.append(rules[i].prompt.as_str());
        out.append("\"");
        i = i + 1;
        assert(out@ =~= prompt_head() + quoted_labels(after));
    }
    assert(rules@.take(i as int) =~= rules@);
    out.append("]。 文件夹内容信息: ");
    out.append(descriptor);
    assert(out@ =~= prompt_text(descriptor@, rules@));
    out
}

/// Builds the request that asks the configured model to classify
/// `descriptor`: a system message and the user message of [`build_prompt`].
pub fn build_request(descriptor: &str, config: &AppConfig) -> (res: ChatRequest)
    ensures
        is_request_for(res, descriptor@, *config),
{
    let system = ChatMessage {
        role: String::from_str("system"),
        content: String::from_str("你是一个分类助手"),
    };
    let user = ChatMessage {
        role: String::from_str("user"),
        content: build_prompt(descriptor, &config.classifications),
    };
    let mut messages: Vec<ChatMessage> = Vec::new();
    messages.push(system);
    messages.push(user);
    ChatRequest { model: config.model.clone(), messages }
}

/// The text of the first choice's message, if the answer has one.
pub fn response_content(doc: &Json) -> (res: Option<&String>)
    ensures
        match res {
            Some(content) => message_content(*doc) == Some(content@),
            None => message_content(*doc) is None,
        },
{
    let choices_key = String::from_str("choices");
    let message_key = String::from_str("message");
    let content_key = String::from_str("content");
    match doc.get(&choices_key) {
        Some(choices) => match choices.at(0) {
            Some(choice) => match choice.get(&message_key) {
                Some(message) => match message.get(&content_key) {
                    Some(content) => content.as_text(),
                    None => None,
                },
                None => None,
            },
            None => None,
        },
        None => None,
    }
}

/// The label that a message's text stands for, given what the text parsed
/// to: the string at `category`, or `others` where the text was no document
/// or the document names no category.
pub fn label_of_content(parsed: &Option<Json>) -> (res: String)
    ensures
        res@ == content_label(*parsed),
{
    let category_key = String::from_str("category");
    match parsed {
        Some(inner) => match inner.get(&category_key) {
            Some(value) => match value.as_text() {
                Some(label) => label.clone(),
                None => String::from_str("others"),
            },
            None => String::from_str("others"),
        },
        None => String::from_str("others"),
    }
}

/// The label that an answer's document stands for: what the first choice's
/// message names as its category, or `others` where the document has no such
/// message.
pub fn label_of_envelope(doc: &Json) -> (res: String)
    ensures
        res@ == envelope_label(*doc),
{
    match response_content(doc) {
        Some(content) => {
            let parsed = parse_json(content.as_str());
            label_of_content(&parsed)
        },
        None => String::from_str("others"),
    }
}

/// The label that an answer's body stands for. Fails with
/// `MalformedResponse` exactly when the body is no JSON document.
pub fn label_of_body(body: &str) -> (res: Result<String, ClassifyError>)
    ensures
        label_matches(res, body_label(body@)),
{
    match parse_json(body) {
        Some(doc) => Ok(label_of_envelope(&doc)),
        None => Err(ClassifyError::MalformedResponse),
    }
}

/// The outcome of a classification. Fails with `TransportError` exactly when
/// nothing came back or the status is no success; otherwise as
/// [`label_of_body`] does on the body.
pub fn classify_reply(reply: &HttpReply) -> (res: Result<String, ClassifyError>)
    ensures
        label_matches(res, reply_label(*reply)),
{
    match reply {
        HttpReply::Unreachable => Err(ClassifyError::TransportError),
        HttpReply::Response { status, body } => {
            if 200 <= *status && *status < 300 {
                label_of_body(body.as_str())
            } else {
                Err(ClassifyError::TransportError)
            }
        },
    }
}

} // verus!
