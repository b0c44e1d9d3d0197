use ai_file_organize::classifier::{
    build_prompt, build_request, classify_reply, label_of_body, label_of_content,
    label_of_envelope, response_content, ClassifyError, HttpReply,
};
use ai_file_organize::config::{AppConfig, Classification};
use ai_file_organize::json::{parse, Json, Member};

fn rule(prompt: &str, dir: &str) -> Classification {
    Classification { prompt: prompt.to_string(), dir: dir.to_string() }
}

fn config(rules: Vec<Classification>) -> AppConfig {
    AppConfig {
        classifications: rules,
        endpoint: "https://example.invalid/v1/chat/completions".to_string(),
        credential: "SECRET-REDACTED".to_string(),
        model: "sorter-1".to_string(),
    }
}

fn object(members: Vec<(&str, Json)>) -> Json {
    Json::Object(
        members
            .into_iter()
            .map(|(key, value)| Member { key: key.to_string(), value })
            .collect(),
    )
}

fn envelope(content: Json) -> Json {
    object(vec![(
        "choices",
        Json::Array(vec![object(vec![("message", object(vec![("content", content)]))])]),
    )])
}

fn ok_reply(body: &str) -> HttpReply {
    HttpReply::Response { status: 200, body: body.to_string() }
}

#[test]
fn response_with_category_yields_that_label() {
    let body = r#"{"choices":[{"message":{"content":"{\"category\":\"movie\"}"}}]}"#;
    assert_eq!(label_of_body(body), Ok("movie".to_string()));
    assert_eq!(classify_reply(&ok_reply(body)), Ok("movie".to_string()));
}

#[test]
fn response_without_category_yields_others() {
    let body = r#"{"choices":[{"message":{"content":"{\"kind\":\"movie\"}"}}]}"#;
    assert_eq!(label_of_body(body), Ok("others".to_string()));
}

#[test]
fn response_without_choices_yields_others() {
    assert_eq!(label_of_body(r#"{"id":"abc"}"#), Ok("others".to_string()));
    assert_eq!(label_of_body("[]"), Ok("others".to_string()));
    assert_eq!(label_of_body("null"), Ok("others".to_string()));
}

#[test]
fn response_with_empty_choices_yields_others() {
    assert_eq!(label_of_body(r#"{"choices":[]}"#), Ok("others".to_string()));
}

#[test]
fn choices_that_are_no_array_yield_others() {
    let body = r#"{"choices":{"0":{"message":{"content":"{\"category\":\"movie\"}"}}}}"#;
    assert_eq!(label_of_body(body), Ok("others".to_string()));
}

#[test]
fn only_the_first_choice_counts() {
    let body = r#"{"choices":[{"message":{"content":"{\"category\":\"anime\"}"}},{"message":{"content":"{\"category\":\"movie\"}"}}]}"#;
    assert_eq!(label_of_body(body), Ok("anime".to_string()));
}

#[test]
fn content_that_is_no_json_yields_others() {
    let body = r#"{"choices":[{"message":{"content":"it is a movie"}}]}"#;
    assert_eq!(label_of_body(body), Ok("others".to_string()));
}

#[test]
fn content_that_is_no_string_yields_others() {
    let body = r#"{"choices":[{"message":{"content":{"category":"movie"}}}]}"#;
    assert_eq!(label_of_body(body), Ok("others".to_string()));
}

#[test]
fn category_that_is_no_string_yields_others() {
    let body = r#"{"choices":[{"message":{"content":"{\"category\":7}"}}]}"#;
    assert_eq!(label_of_body(body), Ok("others".to_string()));
}

#[test]
fn body_that_is_no_json_is_malformed() {
    assert_eq!(label_of_body("<html>busy</html>"), Err(ClassifyError::MalformedResponse));
    assert_eq!(label_of_body(""), Err(ClassifyError::MalformedResponse));
    assert_eq!(label_of_body(r#"{"choices":[]} trailing"#), Err(ClassifyError::MalformedResponse));
    assert_eq!(
        classify_reply(&ok_reply("not json")),
        Err(ClassifyError::MalformedResponse)
    );
}

#[test]
fn no_answer_is_a_transport_error() {
    assert_eq!(classify_reply(&HttpReply::Unreachable), Err(ClassifyError::TransportError));
}

#[test]
fn statuses_outside_the_success_class_are_transport_errors() {
    let body = r#"{"choices":[{"message":{"content":"{\"category\":\"movie\"}"}}]}"#;
    for status in [100u16, 199, 300, 304, 400, 401, 404, 429, 500, 503, 599] {
        let reply = HttpReply::Response { status, body: body.to_string() };
        assert_eq!(classify_reply(&reply), Err(ClassifyError::TransportError));
    }
    for status in [200u16, 201, 204, 299] {
        let reply = HttpReply::Response { status, body: body.to_string() };
        assert_eq!(classify_reply(&reply), Ok("movie".to_string()));
    }
}

#[test]
fn parse_rebuilds_every_kind_of_value() {
    assert_eq!(parse("null"), Some(Json::Null));
    assert_eq!(parse("true"), Some(Json::Bool(true)));
    assert_eq!(parse("12.5"), Some(Json::Number));
    assert_eq!(parse(r#""a\nb""#), Some(Json::Text("a\nb".to_string())));
    assert_eq!(
        parse(r#"[1,"x",[false]]"#),
        Some(Json::Array(vec![
            Json::Number,
            Json::Text("x".to_string()),
            Json::Array(vec![Json::Bool(false)]),
        ]))
    );
    assert_eq!(
        parse(r#"{"a":{"b":null}}"#),
        Some(object(vec![("a", object(vec![("b", Json::Null)]))]))
    );
    assert_eq!(parse("{"), None);
}

#[test]
fn parse_keeps_the_last_of_repeated_members() {
    let doc = parse(r#"{"k":"first","k":"second"}"#).unwrap();
    assert_eq!(doc.get(&"k".to_string()), Some(&Json::Text("second".to_string())));
}

#[test]
fn lookups_on_documents() {
    let doc = object(vec![
        ("a", Json::Number),
        ("b", Json::Text("x".to_string())),
        ("a", Json::Null),
    ]);
    assert_eq!(doc.get(&"a".to_string()), Some(&Json::Number));
    assert_eq!(doc.get(&"b".to_string()), Some(&Json::Text("x".to_string())));
    assert_eq!(doc.get(&"c".to_string()), None);
    assert_eq!(Json::Null.get(&"a".to_string()), None);
    let list = Json::Array(vec![Json::Bool(true), Json::Null]);
    assert_eq!(list.at(0), Some(&Json::Bool(true)));
    assert_eq!(list.at(1), Some(&Json::Null));
    assert_eq!(list.at(2), None);
    assert_eq!(doc.at(0), None);
    assert_eq!(Json::Text("t".to_string()).as_text(), Some(&"t".to_string()));
    assert_eq!(Json::Number.as_text(), None);
}

#[test]
fn envelope_lookups_on_built_documents() {
    let doc = envelope(Json::Text(r#"{"category":"document"}"#.to_string()));
    assert_eq!(response_content(&doc), Some(&r#"{"category":"document"}"#.to_string()));
    assert_eq!(label_of_envelope(&doc), "document");
    assert_eq!(response_content(&envelope(Json::Null)), None);
    assert_eq!(label_of_envelope(&envelope(Json::Null)), "others");
    assert_eq!(label_of_envelope(&Json::Array(vec![])), "others");
}

#[test]
fn label_of_content_by_case() {
    assert_eq!(label_of_content(&None), "others");
    assert_eq!(label_of_content(&Some(Json::Null)), "others");
    assert_eq!(
        label_of_content(&Some(object(vec![("category", Json::Text("anime".to_string()))]))),
        "anime"
    );
    assert_eq!(label_of_content(&Some(object(vec![("category", Json::Bool(true))]))), "others");
    assert_eq!(label_of_content(&Some(object(vec![]))), "others");
}

#[test]
fn prompt_lists_the_configured_labels() {
    let rules = vec![rule("movie", "/out/movies"), rule("others", "/out/misc")];
    assert_eq!(
        build_prompt("└── Dune", &rules),
        "请从下列类型中选择一个最合适的类型并只返回这个 type 的 JSON, 例如 { \"category\": \"movie\" }. 已知类型: [\"movie\", \"others\"]。 文件夹内容信息: └── Dune"
    );
}

#[test]
fn prompt_with_one_label_and_with_none() {
    assert_eq!(
        build_prompt("x", &vec![rule("anime", "/a")]),
        "请从下列类型中选择一个最合适的类型并只返回这个 type 的 JSON, 例如 { \"category\": \"movie\" }. 已知类型: [\"anime\"]。 文件夹内容信息: x"
    );
    assert_eq!(
        build_prompt("", &vec![]),
        "请从下列类型中选择一个最合适的类型并只返回这个 type 的 JSON, 例如 { \"category\": \"movie\" }. 已知类型: []。 文件夹内容信息: "
    );
}

#[test]
fn request_carries_model_and_both_messages() {
    let cfg = config(vec![rule("movie", "/out/movies")]);
    let request = build_request("└── Dune", &cfg);
    assert_eq!(request.model, "sorter-1");
    assert_eq!(request.messages.len(), 2);
    assert_eq!(request.messages[0].role, "system");
    assert_eq!(request.messages[0].content, "你是一个分类助手");
    assert_eq!(request.messages[1].role, "user");
    assert_eq!(request.messages[1].content, build_prompt("└── Dune", &cfg.classifications));
}
