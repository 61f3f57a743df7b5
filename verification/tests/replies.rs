use openai_compatible::content::{
    content_to_text, ChatCompletionChoice, ChatCompletionResponse, ChatCompletionResponseMessage,
    ErrorBody, ErrorResponse, JsonField, JsonValue,
};
use openai_compatible::endpoint::{
    completion_text, read_failed, refused, refused_with, send_failed, HttpStatus,
};

fn string(text: &str) -> JsonValue {
    JsonValue::String(text.to_string())
}

fn object(fields: Vec<(&str, JsonValue)>) -> JsonValue {
    let mut members = Vec::new();
    for (name, value) in fields {
        members.push(JsonField {
            name: name.to_string(),
            value,
        });
    }
    JsonValue::Object(members)
}

fn response(contents: Vec<JsonValue>) -> ChatCompletionResponse {
    let mut choices = Vec::new();
    for content in contents {
        choices.push(ChatCompletionChoice {
            message: ChatCompletionResponseMessage { content },
        });
    }
    ChatCompletionResponse { choices }
}

#[test]
fn extracts_text_from_string_and_part_array_content() {
    assert_eq!(
        content_to_text(&string("plain text")),
        Some("plain text".to_string())
    );
    assert_eq!(
        content_to_text(&JsonValue::Array(vec![
            object(vec![("type", string("text")), ("text", string("hello "))]),
            object(vec![("type", string("text")), ("text", string("world"))]),
        ])),
        Some("hello world".to_string())
    );
}

#[test]
fn parts_without_text_are_left_out() {
    assert_eq!(
        content_to_text(&JsonValue::Array(vec![
            string("a"),
            JsonValue::Null,
            object(vec![("text", JsonValue::Number("1".to_string()))]),
            object(vec![("image", string("x"))]),
            JsonValue::Array(vec![string("nested")]),
            JsonValue::Bool(true),
            string("b"),
        ])),
        Some("ab".to_string())
    );
}

#[test]
fn later_field_counts() {
    assert_eq!(
        content_to_text(&JsonValue::Array(vec![object(vec![
            ("text", string("first")),
            ("text", string("second")),
        ])])),
        Some("second".to_string())
    );
    assert_eq!(
        content_to_text(&JsonValue::Array(vec![object(vec![
            ("text", string("first")),
            ("text", JsonValue::Null),
        ])])),
        None
    );
}

#[test]
fn content_without_text_has_none() {
    assert_eq!(content_to_text(&JsonValue::Array(vec![])), None);
    assert_eq!(content_to_text(&JsonValue::Array(vec![string("")])), None);
    assert_eq!(content_to_text(&JsonValue::Null), None);
    assert_eq!(content_to_text(&JsonValue::Bool(false)), None);
    assert_eq!(content_to_text(&JsonValue::Number("1".to_string())), None);
    assert_eq!(content_to_text(&object(vec![("text", string("x"))])), None);
    assert_eq!(content_to_text(&string("")), Some(String::new()));
}

#[test]
fn texts_of_parts_follow_one_another() {
    let first = || vec![string("a"), string("b")];
    let second = || vec![object(vec![("text", string("c"))])];
    let mut both = first();
    both.extend(second());
    let text = |parts| content_to_text(&JsonValue::Array(parts)).unwrap();
    assert_eq!(text(both), format!("{}{}", text(first()), text(second())));
}

#[test]
fn answer_is_the_text_of_the_first_choice() {
    assert_eq!(
        completion_text(Ok(response(vec![string(" first "), string("second")]))),
        Ok(" first ".to_string())
    );
    assert_eq!(
        completion_text(Ok(response(vec![JsonValue::Array(vec![string("x"), string("y")])]))),
        Ok("xy".to_string())
    );
}

#[test]
fn blank_answers_are_errors() {
    let empty = Err("OpenAI-compatible endpoint returned an empty response.".to_string());
    assert_eq!(completion_text(Ok(response(vec![]))), empty);
    assert_eq!(completion_text(Ok(response(vec![string("")]))), empty);
    assert_eq!(completion_text(Ok(response(vec![string(" \n\u{a0}")]))), empty);
    assert_eq!(completion_text(Ok(response(vec![JsonValue::Null]))), empty);
    assert_eq!(
        completion_text(Ok(response(vec![JsonValue::Null, string("second")]))),
        empty
    );
}

#[test]
fn answers_that_are_not_understood_are_errors() {
    assert_eq!(
        completion_text(Err("EOF while parsing a value at line 1 column 0".to_string())),
        Err("OpenAI-compatible endpoint response was not valid JSON: EOF while parsing a value at line 1 column 0".to_string())
    );
}

#[test]
fn transport_errors_are_shown() {
    assert_eq!(
        send_failed("connection refused"),
        "OpenAI-compatible endpoint request failed: connection refused"
    );
    assert_eq!(
        read_failed("timed out"),
        "OpenAI-compatible endpoint response read failed: timed out"
    );
}

#[test]
fn refusals_show_what_the_endpoint_says() {
    let status = HttpStatus::new(404).unwrap();
    let failure = |message: Option<&str>| {
        Some(ErrorResponse {
            error: Some(ErrorBody {
                message: message.map(|m| m.to_string()),
            }),
        })
    };
    assert_eq!(
        refused(status, "{}".to_string(), failure(Some("no such model"))),
        "OpenAI-compatible endpoint returned 404 Not Found: no such model"
    );
    assert_eq!(
        refused(status, "body".to_string(), failure(None)),
        "OpenAI-compatible endpoint returned 404 Not Found: body"
    );
    assert_eq!(
        refused(status, "body".to_string(), Some(ErrorResponse { error: None })),
        "OpenAI-compatible endpoint returned 404 Not Found: body"
    );
    assert_eq!(
        refused(status, "body".to_string(), None),
        "OpenAI-compatible endpoint returned 404 Not Found: body"
    );
    assert_eq!(
        refused_with("status", "body".to_string(), failure(Some(""))),
        "OpenAI-compatible endpoint returned status: "
    );
}

#[test]
fn statuses_are_shown_with_their_phrases() {
    let shown = |code| refused(HttpStatus::new(code).unwrap(), String::new(), None);
    assert_eq!(
        shown(500),
        "OpenAI-compatible endpoint returned 500 Internal Server Error: "
    );
    assert_eq!(
        shown(599),
        "OpenAI-compatible endpoint returned 599 <unknown status code>: "
    );
}

#[test]
fn every_status_begins_with_its_code() {
    for code in 100..1000u16 {
        let message = refused(HttpStatus::new(code).unwrap(), String::new(), None);
        assert!(message.starts_with(&format!("OpenAI-compatible endpoint returned {code} ")));
    }
}

#[test]
fn statuses_have_three_digits() {
    assert_eq!(HttpStatus::new(99), None);
    assert_eq!(HttpStatus::new(1000), None);
    assert_eq!(HttpStatus::new(100).unwrap().code(), 100);
    assert_eq!(HttpStatus::new(999).unwrap().code(), 999);
    for code in 100..1000u16 {
        let expected = reqwest::StatusCode::from_u16(code).unwrap().is_success();
        assert_eq!(HttpStatus::new(code).unwrap().is_success(), expected);
    }
}
