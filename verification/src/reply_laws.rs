//! What a reply of the endpoint comes to, said of its parts.

use vstd::prelude::*;

use crate::content;
use crate::content::{ChatCompletionResponse, ErrorResponse, JsonField, JsonValue};
use crate::endpoint;
use crate::laws;
use crate::text;

verus! {

/// The value of a field is that of the last field with its name.
pub proof fn law_field_value(fields: Seq<JsonField>, name: Seq<char>, i: int)
    requires
        0 <= i < fields.len(),
        fields[i].name@ == name,
        forall|j: int| i < j < fields.len() ==> (#[trigger] fields[j]).name@ != name,
    ensures
        content::field_value(fields, name) == Some(fields[i].value),
    decreases fields.len(),
{
    assert(fields[fields.len() - 1] == fields.last());
    if i < fields.len() - 1 {
        assert(fields.last().name@ != name);
        assert forall|j: int| i < j < fields.drop_last().len() implies (
        #[trigger] fields.drop_last()[j]).name@ != name by {
            assert(fields[j].name@ != name);
        }
        law_field_value(fields.drop_last(), name, i);
    }
}

/// A field that is not there has no value.
pub proof fn law_no_field(fields: Seq<JsonField>, name: Seq<char>)
    requires
        forall|j: int| 0 <= j < fields.len() ==> (#[trigger] fields[j]).name@ != name,
    ensures
        content::field_value(fields, name) is None,
    decreases fields.len(),
{
    if fields.len() > 0 {
        assert(fields[fields.len() - 1].name@ != name);
        assert forall|j: int| 0 <= j < fields.drop_last().len() implies (
        #[trigger] fields.drop_last()[j]).name@ != name by {
            assert(fields[j].name@ != name);
        }
        law_no_field(fields.drop_last(), name);
    }
}

/// The text of a part that is an object is the string in the last of its fields called `text`.
pub proof fn law_object_part(part: JsonValue, fields: Seq<JsonField>, i: int)
    requires
        part matches JsonValue::Object(members) && members@ == fields,
        0 <= i < fields.len(),
        fields[i].name@ == "text"@,
        forall|j: int| i < j < fields.len() ==> (#[trigger] fields[j]).name@ != "text"@,
    ensures
        content::part_text(part) == (match fields[i].value {
            JsonValue::String(piece) => Some(piece@),
            _ => None,
        }),
{
    law_field_value(fields, "text"@, i);
}

/// A part that is a string is its own text. One that is neither a string nor an object with a
/// field called `text` has none.
pub proof fn law_other_part(part: JsonValue)
    ensures
        part matches JsonValue::String(piece) ==> content::part_text(part) == Some(piece@),
        part matches JsonValue::Object(fields) ==> ((forall|j: int|
            0 <= j < fields@.len() ==> (#[trigger] fields@[j]).name@ != "text"@)
            ==> content::part_text(part) is None),
        part is Null || part is Bool || part is Number || part is Array ==> content::part_text(
            part,
        ) is None,
{
    if let JsonValue::Object(fields) = part {
        if forall|j: int| 0 <= j < fields@.len() ==> (#[trigger] fields@[j]).name@ != "text"@ {
            law_no_field(fields@, "text"@);
        }
    }
}

/// A part adds its text, where it has one, to that of the parts before it. No parts have none.
pub proof fn law_part_appended(parts: Seq<JsonValue>, part: JsonValue)
    ensures
        content::parts_text(Seq::empty()) == Seq::<char>::empty(),
        content::part_text(part) matches Some(piece) ==> content::parts_text(parts.push(part))
            == content::parts_text(parts) + piece,
        content::part_text(part) is None ==> content::parts_text(parts.push(part))
            == content::parts_text(parts),
{
    let of_part = |part: JsonValue| content::part_text(part);
    assert(parts.push(part) == parts + seq![part]);
    laws::law_parts_text_grows(parts, seq![part]);
    Seq::lemma_filter_map_singleton(part, of_part);
    if let Some(piece) = content::part_text(part) {
        seq![piece].lemma_flatten_one_element();
    }
}

/// A part that is a string adds itself.
pub proof fn law_string_part_appended(parts: Seq<JsonValue>, piece: String)
    ensures
        content::parts_text(parts.push(JsonValue::String(piece))) == content::parts_text(parts)
            + piece@,
{
    law_part_appended(parts, JsonValue::String(piece));
}

/// The text of a content is the content itself where it is a string, and that of its parts, where
/// there is any, where it comes in parts. Any other content has none.
pub proof fn law_content(value: JsonValue)
    ensures
        value matches JsonValue::String(whole) ==> content::content_text(value) == Some(whole@),
        value matches JsonValue::Array(parts) ==> (content::parts_text(parts@).len() > 0
            ==> content::content_text(value) == Some(content::parts_text(parts@))),
        value matches JsonValue::Array(parts) ==> (content::parts_text(parts@).len() == 0
            ==> content::content_text(value) is None),
        value is Null || value is Bool || value is Number || value is Object
            ==> content::content_text(value) is None,
{
}

/// Where the reply was understood, and the content of its first choice has a text with some
/// character that is not white space, the answer is that text.
pub proof fn law_text_is_the_answer(response: ChatCompletionResponse, answer: Seq<char>, i: int)
    requires
        response.choices@.len() > 0,
        content::content_text(response.choices@[0].message.content) == Some(answer),
        0 <= i < answer.len(),
        !text::is_white_space(answer[i]),
    ensures
        endpoint::completion_result(Ok::<ChatCompletionResponse, String>(response)) == Ok::<
            Seq<char>,
            Seq<char>,
        >(answer),
{
}

/// A first choice that is a string with some character that is not white space is the answer.
pub proof fn law_string_is_the_answer(response: ChatCompletionResponse, whole: String, i: int)
    requires
        response.choices@.len() > 0,
        response.choices@[0].message.content == JsonValue::String(whole),
        0 <= i < whole@.len(),
        !text::is_white_space(whole@[i]),
    ensures
        endpoint::completion_result(Ok::<ChatCompletionResponse, String>(response)) == Ok::<
            Seq<char>,
            Seq<char>,
        >(whole@),
{
    law_text_is_the_answer(response, whole@, i);
}

/// A reply without choices, one whose first choice has no text, and one whose text is white space
/// alone are reported as empty.
pub proof fn law_no_text_is_an_error(response: ChatCompletionResponse)
    requires
        response.choices@.len() > 0 ==> (content::content_text(
            response.choices@[0].message.content,
        ) matches Some(answer) ==> forall|i: int|
            0 <= i < answer.len() ==> text::is_white_space(#[trigger] answer[i])),
    ensures
        endpoint::completion_result(Ok::<ChatCompletionResponse, String>(response)) == Err::<
            Seq<char>,
            Seq<char>,
        >("OpenAI-compatible endpoint returned an empty response."@),
{
}

/// A reply that was not understood is reported with the reason.
pub proof fn law_not_understood(error: String)
    ensures
        endpoint::completion_result(Err::<ChatCompletionResponse, String>(error)) == Err::<
            Seq<char>,
            Seq<char>,
        >("OpenAI-compatible endpoint response was not valid JSON: "@ + error@),
{
}

/// What a reply comes to depends on its first choice alone.
pub proof fn law_first_choice_counts(a: ChatCompletionResponse, b: ChatCompletionResponse)
    requires
        a.choices@.len() > 0,
        b.choices@.len() > 0,
        a.choices@[0] == b.choices@[0],
    ensures
        endpoint::completion_result(Ok::<ChatCompletionResponse, String>(a))
            == endpoint::completion_result(Ok::<ChatCompletionResponse, String>(b)),
{
}

/// The messages where a request or a response did not get through end with the reason.
pub proof fn law_transport_messages(error: Seq<char>)
    ensures
        endpoint::send_failed_message(error) == "OpenAI-compatible endpoint request failed: "@
            + error,
        endpoint::read_failed_message(error) == "OpenAI-compatible endpoint response read failed: "@
            + error,
{
}

/// A refusal shows the status and, after a colon, what the endpoint says, where it says anything,
/// and else the whole body.
pub proof fn law_refusal(status: Seq<char>, body: Seq<char>, failure: Option<ErrorResponse>)
    ensures
        failure matches Some(response) ==> (response.error matches Some(error) ==> (
        error.message matches Some(message) ==> endpoint::refused_message(status, body, failure)
            == "OpenAI-compatible endpoint returned "@ + status + ": "@ + message@)),
        (failure is None || failure->0.error is None || failure->0.error->0.message is None)
            ==> endpoint::refused_message(status, body, failure)
            == "OpenAI-compatible endpoint returned "@ + status + ": "@ + body,
{
}

/// The codes of success are those with 2 as their first digit.
pub proof fn law_success(code: u16)
    ensures
        endpoint::success(code) <==> code as int / 100 == 2,
{
}

/// The text of a status begins with the three digits of its code, and a space.
pub proof fn law_status_digits(code: u16)
    requires
        100 <= code <= 999,
    ensures
        ({
            let shown = endpoint::status_digits(code);
            &&& shown.len() == 4
            &&& forall|i: int| 0 <= i < 3 ==> '0' <= #[trigger] shown[i] <= '9'
            &&& code == 100 * (shown[0] as int - '0' as int) + 10 * (shown[1] as int - '0' as int)
                + (shown[2] as int - '0' as int)
            &&& shown[3] == ' '
        }),
{
}

} // verus!
