//! What the endpoint sends back, and the text in it.

use vstd::prelude::*;

verus! {

/// A JSON value.
#[derive(Debug, PartialEq, Eq)]
pub enum JsonValue {
    Null,
    Bool(bool),
    /// A number, as it is written.
    Number(String),
    String(String),
    Array(Vec<JsonValue>),
    Object(Vec<JsonField>),
}

/// A field of a JSON object. Of two fields with one name the later counts.
#[derive(Debug, PartialEq, Eq)]
pub struct JsonField {
    pub name: String,
    pub value: JsonValue,
}

/// The answer to a chat completion request.
#[derive(Debug, PartialEq, Eq)]
pub struct ChatCompletionResponse {
    pub choices: Vec<ChatCompletionChoice>,
}

/// One of the answers that the endpoint offers.
#[derive(Debug, PartialEq, Eq)]
pub struct ChatCompletionChoice {
    pub message: ChatCompletionResponseMessage,
}

/// The message in an answer.
#[derive(Debug, PartialEq, Eq)]
pub struct ChatCompletionResponseMessage {
    pub content: JsonValue,
}

/// The body of a response that refuses a request.
#[derive(Debug, PartialEq, Eq)]
pub struct ErrorResponse {
    pub error: Option<ErrorBody>,
}

/// Why a request was refused.
#[derive(Debug, PartialEq, Eq)]
pub struct ErrorBody {
    pub message: Option<String>,
}

/// The value of the field `name` of the object with `fields`.
pub open spec fn field_value(fields: Seq<JsonField>, name: Seq<char>) -> Option<JsonValue>
    decreases fields.len(),
{
    if fields.len() == 0 {
        None
    } else if fields.last().name@ == name {
        Some(fields.last().value)
    } else {
        field_value(fields.drop_last(), name)
    }
}

/// The string that `value` is.
pub open spec fn string_value(value: JsonValue) -> Option<Seq<char>> {
    match value {
        JsonValue::String(text) => Some(text@),
        _ => None,
    }
}

/// The text of one part of a content that comes in parts: the part itself, or its field `text`.
pub open spec fn part_text(part: JsonValue) -> Option<Seq<char>> {
    match part {
        JsonValue::String(text) => Some(text@),
        JsonValue::Object(fields) => match field_value(fields@, "text"@) {
            Some(value) => string_value(value),
            None => None,
        },
        _ => None,
    }
}

/// The texts of `parts` one after another, leaving out the parts that have none.
pub open spec fn parts_text(parts: Seq<JsonValue>) -> Seq<char> {
    parts.filter_map(|part: JsonValue| part_text(part)).flatten()
}

/// The text of `content`: the string that it is, or the text of the parts that it comes in.
pub open spec fn content_text(content: JsonValue) -> Option<Seq<char>> {
    match content {
        JsonValue::String(text) => Some(text@),
        JsonValue::Array(parts) => if parts_text(parts@).len() == 0 {
            None
        } else {
            Some(parts_text(parts@))
        },
        _ => None,
    }
}

/// The value of the field `name` of the object with `fields`.
fn field<'a>(fields: &'a Vec<JsonField>, name: &str) -> (value: Option<&'a JsonValue>)
    ensures
        value is Some == field_value(fields@, name@) is Some,
        value is Some ==> *value->0 == field_value(fields@, name@)->0,
{
    let wanted = name.to_string();
    let mut rest: usize = fields.len();
    proof {
        assert(fields@.take(rest as int) == fields@);
    }
    while rest > 0
        invariant
            rest <= fields.len(),
            wanted@ == name@,
            field_value(fields@, name@) == field_value(fields@.take(rest as int), name@),
        decreases rest,
    {
        proof {
            assert(fields@.take(rest as int).drop_last() == fields@.take(rest - 1));
        }
        if fields[rest - 1].name == wanted {
            return Some(&fields[rest - 1].value);
        }
        rest = rest - 1;
    }
    None
}

/// The text of one part of a content that comes in parts.
fn text_of_part(part: &JsonValue) -> (text: Option<&String>)
    ensures
        text is Some == part_text(*part) is Some,
        text is Some ==> text->0@ == part_text(*part)->0,
{
    match part {
        JsonValue::String(text) => Some(text),
        JsonValue::Object(fields) => match field(fields, "text") {
            Some(JsonValue::String(text)) => Some(text),
            _ => None,
        },
        _ => None,
    }
}

/// The text of `content`: the string that it is, or the texts of the parts that it comes in. A
/// content in parts without any text has none.
pub fn content_to_text(content: &JsonValue) -> (text: Option<String>)
    ensures
        crate::api::opt_view(text) == content_text(*content),
{
    match content {
        JsonValue::String(text) => Some(text.clone()),
        JsonValue::Array(parts) => {
            let mut text = String::new();
            let ghost of_part = |part: JsonValue| part_text(part);
            let mut i: usize = 0;
            proof {
                assert(parts@.take(0).filter_map(of_part) == Seq::<Seq<char>>::empty());
            }
            while i < parts.len()
                invariant
                    i <= parts.len(),
                    of_part == (|part: JsonValue| part_text(part)),
                    text@ == parts@.take(i as int).filter_map(of_part).flatten(),
                decreases parts.len() - i,
            {
                proof {
                    let texts = parts@.take(i as int).filter_map(of_part);
                    parts@.lemma_filter_map_take_succ(of_part, i as int);
                    if let Some(piece) = part_text(parts@[i as int]) {
                        assert(texts + seq![piece] == texts.push(piece));
                        texts.lemma_flatten_push(piece);
                    }
                }
                if let Some(piece) = text_of_part(&parts[i]) {
                    text.append(piece.as_str());
                }
                i = i + 1;
            }
            proof {
                assert(parts@.take(i as int) == parts@);
            }
            if text.as_str().is_empty() {
                None
            } else {
                Some(text)
            }
        },
        _ => None,
    }
}

} // verus!
