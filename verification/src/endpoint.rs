//! One call of the endpoint: what is sent, and what the reply comes to.

use vstd::prelude::*;

use crate::api;
use crate::content;
use crate::content::{ChatCompletionResponse, ErrorBody, ErrorResponse, content_to_text};
use crate::request::{ChatCompletionRequest, ChatRequestView, OpenAICompatibleConfig};
use crate::text;
use crate::text::{ends_with, joined, trim, trim_trailing};

verus! {

/// The status code of an HTTP response: a number with three digits that does not begin with 0.
#[derive(Clone, Copy, Debug, PartialEq, Eq)]
pub struct HttpStatus {
    code: u16,
}

impl View for HttpStatus {
    type V = u16;

    closed spec fn view(&self) -> u16 {
        self.code
    }
}

impl HttpStatus {
    #[verifier::type_invariant]
    spec fn has_three_digits(self) -> bool {
        100 <= self.code <= 999
    }

    /// The status with the given code. There is none where the code has not three digits.
    pub fn new(code: u16) -> (status: Option<HttpStatus>)
        ensures
            status is Some == (100 <= code <= 999),
            status is Some ==> status->0@ == code,
    {
        if 100 <= code && code <= 999 {
            Some(HttpStatus { code })
        } else {
            None
        }
    }

    /// The code of the status.
    pub fn code(self) -> (code: u16)
        ensures
            code == self@,
            100 <= code <= 999,
    {
        proof {
            use_type_invariant(&self);
        }
        self.code
    }

    /// Whether the request was understood and accepted.
    pub fn is_success(self) -> (b: bool)
        ensures
            b == success(self@),
    {
        200 <= self.code && self.code < 300
    }
}

/// A request to the endpoint: a JSON body that is posted to a URL.
#[derive(Debug, PartialEq, Eq)]
pub struct HttpRequest {
    pub url: String,
    pub bearer: Option<String>,
    pub body: ChatCompletionRequest,
}

/// The model of an [`HttpRequest`].
pub struct HttpRequestView {
    pub url: Seq<char>,
    pub bearer: Option<Seq<char>>,
    pub body: ChatRequestView,
}

impl View for HttpRequest {
    type V = HttpRequestView;

    open spec fn view(&self) -> HttpRequestView {
        HttpRequestView {
            url: self.url@,
            bearer: api::opt_view(self.bearer),
            body: self.body@,
        }
    }
}

/// What came of sending a request and reading the response. Errors are given as they are shown.
#[derive(Debug, PartialEq, Eq)]
pub enum Exchange {
    SendFailed { error: String },
    ReadFailed { error: String },
    Replied { status: HttpStatus, body: String },
}

/// The model of a result that is a text either way.
pub open spec fn result_view(result: Result<String, String>) -> Result<Seq<char>, Seq<char>> {
    match result {
        Ok(text) => Ok(text@),
        Err(message) => Err(message@),
    }
}

/// The status codes of success.
pub open spec fn success(code: u16) -> bool {
    200 <= code < 300
}

/// The path that chat completions are served under.
pub open spec fn completions_path() -> Seq<char> {
    "/chat/completions"@
}

/// `base_url` without the white space around it and the slashes at its end.
pub open spec fn bare_url(base_url: Seq<char>) -> Seq<char> {
    text::without_trailing(text::trimmed(base_url), '/')
}

/// Where chat completions are served, given a base URL or that very place.
pub open spec fn endpoint_url(base_url: Seq<char>) -> Seq<char> {
    if completions_path().is_suffix_of(bare_url(base_url)) {
        bare_url(base_url)
    } else {
        bare_url(base_url) + completions_path()
    }
}

/// The key that is sent: an empty key counts as none.
pub open spec fn bearer_key(config: OpenAICompatibleConfig) -> Option<Seq<char>> {
    match config.api_key {
        Some(key) => if key@.len() == 0 {
            None
        } else {
            Some(key@)
        },
        None => None,
    }
}

/// The message where the configuration does not say where the endpoint is.
pub open spec fn no_base_url_message() -> Seq<char> {
    "OpenAI-compatible endpoint is missing a base URL."@
}

/// What is sent to the endpoint, or why nothing is.
pub open spec fn http_request(
    config: OpenAICompatibleConfig,
    request: ChatRequestView,
) -> Result<HttpRequestView, Seq<char>> {
    match config.base_url {
        Some(base_url) => Ok(
            HttpRequestView {
                url: endpoint_url(base_url@),
                bearer: bearer_key(config),
                body: request,
            },
        ),
        None => Err(no_base_url_message()),
    }
}

/// The message where a request could not be sent.
pub open spec fn send_failed_message(error: Seq<char>) -> Seq<char> {
    "OpenAI-compatible endpoint request failed: "@ + error
}

/// The message where a response could not be read.
pub open spec fn read_failed_message(error: Seq<char>) -> Seq<char> {
    "OpenAI-compatible endpoint response read failed: "@ + error
}

/// Why the endpoint refused a request: what it says itself, if that was understood, and else all
/// that it sent.
pub open spec fn refusal(body: Seq<char>, failure: Option<ErrorResponse>) -> Seq<char> {
    match failure {
        Some(ErrorResponse { error: Some(ErrorBody { message: Some(message) }) }) => message@,
        _ => body,
    }
}

/// The message where the endpoint refused a request.
pub open spec fn refused_message(
    status: Seq<char>,
    body: Seq<char>,
    failure: Option<ErrorResponse>,
) -> Seq<char> {
    "OpenAI-compatible endpoint returned "@ + status + ": "@ + refusal(body, failure)
}

/// The message where the endpoint accepted a request and did not send an answer.
pub open spec fn not_json_message(error: Seq<char>) -> Seq<char> {
    "OpenAI-compatible endpoint response was not valid JSON: "@ + error
}

/// The message where the endpoint sent an answer without a text.
pub open spec fn empty_message() -> Seq<char> {
    "OpenAI-compatible endpoint returned an empty response."@
}

/// The text of the first answer that the endpoint offers.
pub open spec fn first_text(response: ChatCompletionResponse) -> Option<Seq<char>> {
    if response.choices@.len() == 0 {
        None
    } else {
        content::content_text(response.choices@[0].message.content)
    }
}

/// What the body of a successful response comes to.
pub open spec fn completion_result(completion: Result<ChatCompletionResponse, String>) -> Result<
    Seq<char>,
    Seq<char>,
> {
    match completion {
        Ok(response) => match first_text(response) {
            Some(answer) => if text::is_blank(answer) {
                Err(empty_message())
            } else {
                Ok(answer)
            },
            None => Err(empty_message()),
        },
        Err(error) => Err(not_json_message(error@)),
    }
}

/// A status code as it is shown: the text of `reqwest::StatusCode`.
pub uninterp spec fn status_text(code: u16) -> Seq<char>;

/// The character for the digit `d`.
pub open spec fn digit(d: int) -> char {
    (('0' as int) + d) as char
}

/// How the text of a status code begins: the code in decimal, and a space.
pub open spec fn status_digits(code: u16) -> Seq<char> {
    seq![digit(code as int / 100), digit(code as int / 10 % 10), digit(code as int % 10), ' ']
}

/// The text of a status code: `Display` of `reqwest::StatusCode`.
///
/// Trusted: the text depends on the code alone. It is the code in decimal, a space, and a phrase;
/// the phrases themselves are not claimed.
#[verifier::external_body]
fn show_status(code: u16) -> (shown: String)
    requires
        100 <= code <= 999,
    ensures
        shown@ == status_text(code),
        status_digits(code).is_prefix_of(shown@),
{
    reqwest::StatusCode::from_u16(code).unwrap().to_string()
}

/// Where chat completions are served, given a base URL or that very place. White space around the
/// URL and slashes at its end are dropped.
pub fn chat_completions_url(base_url: &str) -> (url: String)
    ensures
        url@ == endpoint_url(base_url@),
{
    let base_url = trim_trailing(trim(base_url), '/');
    if ends_with(base_url, "/chat/completions") {
        base_url.to_string()
    } else {
        joined(base_url, "/chat/completions")
    }
}

/// What is sent to the endpoint to have `request` answered. Nothing is sent where the
/// configuration has no base URL.
pub fn request_chat_completion(
    config: &OpenAICompatibleConfig,
    request: ChatCompletionRequest,
) -> (call: Result<HttpRequest, String>)
    ensures
        match call {
            Ok(call) => http_request(*config, request@) == Ok::<HttpRequestView, Seq<char>>(call@),
            Err(message) => http_request(*config, request@) == Err::<HttpRequestView, Seq<char>>(
                message@,
            ),
        },
{
    let base_url = match &config.base_url {
        Some(base_url) => base_url,
        None => return Err("OpenAI-compatible endpoint is missing a base URL.".to_string()),
    };
    let bearer = match &config.api_key {
        Some(key) => if key.as_str().is_empty() {
            None
        } else {
            Some(key.clone())
        },
        None => None,
    };
    Ok(HttpRequest { url: chat_completions_url(base_url.as_str()), bearer, body: request })
}

/// The message where a request could not be sent.
pub fn send_failed(error: &str) -> (message: String)
    ensures
        message@ == send_failed_message(error@),
{
    joined("OpenAI-compatible endpoint request failed: ", error)
}

/// The message where a response could not be read.
pub fn read_failed(error: &str) -> (message: String)
    ensures
        message@ == read_failed_message(error@),
{
    joined("OpenAI-compatible endpoint response read failed: ", error)
}

/// The message where the endpoint refused a request with a status that is shown as `status`.
pub fn refused_with(status: &str, body: String, failure: Option<ErrorResponse>) -> (message: String)
    ensures
        message@ == refused_message(status@, body@, failure),
{
    let reason = match failure {
        Some(ErrorResponse { error: Some(ErrorBody { message: Some(message) }) }) => message,
        _ => body,
    };
    let mut message = joined("OpenAI-compatible endpoint returned ", status);
    message.append(": ");
    message.append(reason.as_str());
    message
}

/// The message where the endpoint refused a request.
pub fn refused(status: HttpStatus, body: String, failure: Option<ErrorResponse>) -> (message:
    String)
    ensures
        message@ == refused_message(status_text(status@), body@, failure),
        ("OpenAI-compatible endpoint returned "@ + status_digits(status@)).is_prefix_of(message@),
{
    let shown = show_status(status.code());
    let message = refused_with(shown.as_str(), body, failure);
    proof {
        let head = "OpenAI-compatible endpoint returned "@;
        let tail = ": "@ + refusal(body@, failure);
        let digits = status_digits(status@);
        assert(message@ == head + shown@ + tail);
        assert(message@.take((head + digits).len() as int) == head + shown@.take(
            digits.len() as int,
        ));
    }
    message
}

/// The answer in the body of a successful response, or why there is none: the body was not
/// understood (`Err`), or its first choice has no text but white space.
pub fn completion_text(completion: Result<ChatCompletionResponse, String>) -> (answer: Result<
    String,
    String,
>)
    ensures
        result_view(answer) == completion_result(completion),
{
    let response = match completion {
        Ok(response) => response,
        Err(error) => return Err(
            joined("OpenAI-compatible endpoint response was not valid JSON: ", error.as_str()),
        ),
    };
    if response.choices.len() > 0 {
        if let Some(answer) = content_to_text(&response.choices[0].message.content) {
            proof {
                text::lemma_trimmed_is_empty(answer@);
            }
            if !trim(answer.as_str()).is_empty() {
                return Ok(answer);
            }
        }
    }
    Err("OpenAI-compatible endpoint returned an empty response.".to_string())
}

} // verus!
