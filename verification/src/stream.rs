//! A response stream: what it emits, and what has to be done for it in between.
//!
//! A [`ResponseStream`] is stepped by events. Each step gives the action to perform next, and what
//! came of that action is the next event.

use vstd::prelude::*;

use crate::api;
use crate::api::{EventView, Reason, ReasonView, ResponseEvent};
use crate::content::{ChatCompletionResponse, ErrorResponse};
use crate::endpoint;
use crate::endpoint::{
    Exchange, HttpRequest, HttpRequestView, HttpStatus, completion_text, read_failed, refused,
    request_chat_completion, send_failed,
};
use crate::events;
use crate::events::{
    ClientActionContext, ContextView, client_actions_event_with_id, finished_event, init_event,
};
use crate::ids;
use crate::request;
use crate::request::{
    ChatCompletionRequest, ChatRequestView, OpenAICompatibleConfig, RequestParams,
    build_chat_completion_request, latest_user_query, should_use,
};

verus! {

/// What happens to a stream.
#[derive(Debug, PartialEq, Eq)]
pub enum StreamEvent {
    /// The consumer asks for the next item.
    Polled,
    /// A request was sent, and its response read, as far as that went.
    Exchanged(Exchange),
    /// The body of a refusal was parsed. `None` where it could not be understood.
    FailureParsed(Option<ErrorResponse>),
    /// The body of an answer was parsed. `Err` shows why it could not be understood.
    CompletionParsed(Result<ChatCompletionResponse, String>),
    /// The consumer cancelled the request.
    Cancelled,
}

/// What is to be done for a stream.
#[derive(Debug, PartialEq, Eq)]
pub enum StreamAction {
    /// Hand an error to the consumer.
    Fail { message: String },
    /// Hand an event to the consumer.
    Emit(ResponseEvent),
    /// Send a request and read the response.
    Send(HttpRequest),
    /// Parse the body of a refusal.
    ParseFailure { body: String },
    /// Parse the body of an answer.
    ParseCompletion { body: String },
    /// Tell the consumer that there is nothing more.
    End,
}

/// How far a stream has come.
enum Phase {
    Refused { message: String },
    Opening {
        conversation_id: String,
        request_id: String,
        run_id: String,
        config: OpenAICompatibleConfig,
        request: ChatCompletionRequest,
        context: ClientActionContext,
    },
    Requesting {
        config: OpenAICompatibleConfig,
        request: ChatCompletionRequest,
        context: ClientActionContext,
    },
    AwaitingReply { context: ClientActionContext },
    AwaitingFailure { status: HttpStatus, body: String },
    AwaitingCompletion { context: ClientActionContext },
    Closing,
    Ended,
}

/// A response stream.
pub struct ResponseStream {
    phase: Phase,
}

/// The model of a [`ResponseStream`]: how far it has come.
pub enum PhaseView {
    /// The request cannot be answered.
    Refused { message: Seq<char> },
    /// Nothing has been emitted yet.
    Opening {
        conversation_id: Seq<char>,
        request_id: Seq<char>,
        run_id: Seq<char>,
        config: OpenAICompatibleConfig,
        request: ChatRequestView,
        context: ContextView,
    },
    /// The stream is open, and nothing has been sent yet.
    Requesting { config: OpenAICompatibleConfig, request: ChatRequestView, context: ContextView },
    /// A request is on its way.
    AwaitingReply { context: ContextView },
    /// A refusal is being parsed.
    AwaitingFailure { status: u16, body: Seq<char> },
    /// An answer is being parsed.
    AwaitingCompletion { context: ContextView },
    /// The answer has been emitted.
    Closing,
    /// There is nothing more.
    Ended,
}

impl View for ResponseStream {
    type V = PhaseView;

    closed spec fn view(&self) -> PhaseView {
        match self.phase {
            Phase::Refused { message } => PhaseView::Refused { message: message@ },
            Phase::Opening {
                conversation_id,
                request_id,
                run_id,
                config,
                request,
                context,
            } => PhaseView::Opening {
                conversation_id: conversation_id@,
                request_id: request_id@,
                run_id: run_id@,
                config,
                request: request@,
                context: context@,
            },
            Phase::Requesting { config, request, context } => PhaseView::Requesting {
                config,
                request: request@,
                context: context@,
            },
            Phase::AwaitingReply { context } => PhaseView::AwaitingReply { context: context@ },
            Phase::AwaitingFailure { status, body } => PhaseView::AwaitingFailure {
                status: status@,
                body: body@,
            },
            Phase::AwaitingCompletion { context } => PhaseView::AwaitingCompletion {
                context: context@,
            },
            Phase::Closing => PhaseView::Closing,
            Phase::Ended => PhaseView::Ended,
        }
    }
}

/// The model of a [`StreamAction`].
pub enum StreamActionView {
    Fail { message: Seq<char> },
    Emit(Option<EventView>),
    Send(HttpRequestView),
    ParseFailure { body: Seq<char> },
    ParseCompletion { body: Seq<char> },
    End,
}

impl View for StreamAction {
    type V = StreamActionView;

    open spec fn view(&self) -> StreamActionView {
        match self {
            StreamAction::Fail { message } => StreamActionView::Fail { message: message@ },
            StreamAction::Emit(event) => StreamActionView::Emit(event@),
            StreamAction::Send(call) => StreamActionView::Send(call@),
            StreamAction::ParseFailure { body } => StreamActionView::ParseFailure { body: body@ },
            StreamAction::ParseCompletion { body } => StreamActionView::ParseCompletion {
                body: body@,
            },
            StreamAction::End => StreamActionView::End,
        }
    }
}

/// Why `params` cannot be answered.
pub open spec fn refusal_message(params: RequestParams) -> Option<Seq<char>> {
    if params.openai_compatible_config is None {
        Some("OpenAI-compatible endpoint is not configured."@)
    } else if request::latest_query(params.input@) is None {
        Some("OpenAI-compatible endpoint only supports text user queries."@)
    } else {
        None
    }
}

/// The task that the answer goes to: the first one, if there is one with an identifier, and else
/// the one that is named after the run.
pub open spec fn answered_task(params: RequestParams, run_id: Seq<char>) -> Seq<char> {
    if params.tasks@.len() > 0 && params.tasks@[0].id@.len() > 0 {
        params.tasks@[0].id@
    } else {
        run_id
    }
}

/// Where the answer to `params` goes. A task is made where there is none.
pub open spec fn answer_context(
    params: RequestParams,
    request_id: Seq<char>,
    run_id: Seq<char>,
) -> ContextView {
    ContextView {
        task_id: answered_task(params, run_id),
        request_id,
        create_task: params.tasks@.len() == 0,
        task_description: match request::latest_query(params.input@) {
            Some(query) => query,
            None => Seq::empty(),
        },
    }
}

/// How the stream for `params` begins, under the given identifiers.
pub open spec fn first_phase(
    params: RequestParams,
    conversation_id: Seq<char>,
    request_id: Seq<char>,
    run_id: Seq<char>,
) -> PhaseView {
    match refusal_message(params) {
        Some(message) => PhaseView::Refused { message },
        None => {
            let config = params.openai_compatible_config->0;
            PhaseView::Opening {
                conversation_id,
                request_id,
                run_id,
                config,
                request: request::chat_request(params, config)->0,
                context: answer_context(params, request_id, run_id),
            }
        },
    }
}

/// Whether `id` is the identifier that was given, or a fresh one where none was.
pub open spec fn given_or_fresh(given: Option<String>, id: Seq<char>) -> bool {
    match given {
        Some(given) => id == given@,
        None => ids::is_random_uuid(id),
    }
}

/// Closes a stream with an error.
pub open spec fn failed(message: Seq<char>) -> (PhaseView, StreamActionView) {
    (
        PhaseView::Ended,
        StreamActionView::Emit(
            Some(events::finished_view(ReasonView::InternalError { message })),
        ),
    )
}

/// The phase after `event`, and the action to perform then. There is none where `event` does not
/// answer the action that was given last. An answer is emitted under `message_id`.
pub open spec fn transition(
    phase: PhaseView,
    event: StreamEvent,
    message_id: Seq<char>,
) -> Option<(PhaseView, StreamActionView)> {
    match (phase, event) {
        (PhaseView::Refused { message }, StreamEvent::Polled) => Some(
            (PhaseView::Ended, StreamActionView::Fail { message }),
        ),
        (PhaseView::Refused { .. }, _) => None,
        (PhaseView::Ended, StreamEvent::Polled) => Some((PhaseView::Ended, StreamActionView::End)),
        (_, StreamEvent::Cancelled) => Some((PhaseView::Ended, StreamActionView::End)),
        (
            PhaseView::Opening {
                conversation_id,
                request_id,
                run_id,
                config,
                request,
                context,
            },
            StreamEvent::Polled,
        ) => Some(
            (
                PhaseView::Requesting { config, request, context },
                StreamActionView::Emit(
                    Some(events::init_view(conversation_id, request_id, run_id)),
                ),
            ),
        ),
        (PhaseView::Requesting { config, request, context }, StreamEvent::Polled) => Some(
            match endpoint::http_request(config, request) {
                Ok(call) => (
                    PhaseView::AwaitingReply { context },
                    StreamActionView::Send(call),
                ),
                Err(message) => failed(message),
            },
        ),
        (PhaseView::AwaitingReply { context }, StreamEvent::Exchanged(exchange)) => Some(
            match exchange {
                Exchange::SendFailed { error } => failed(endpoint::send_failed_message(error@)),
                Exchange::ReadFailed { error } => failed(endpoint::read_failed_message(error@)),
                Exchange::Replied { status, body } => if endpoint::success(status@) {
                    (
                        PhaseView::AwaitingCompletion { context },
                        StreamActionView::ParseCompletion { body: body@ },
                    )
                } else {
                    (
                        PhaseView::AwaitingFailure { status: status@, body: body@ },
                        StreamActionView::ParseFailure { body: body@ },
                    )
                },
            },
        ),
        (PhaseView::AwaitingFailure { status, body }, StreamEvent::FailureParsed(failure)) => Some(
            failed(endpoint::refused_message(endpoint::status_text(status), body, failure)),
        ),
        (
            PhaseView::AwaitingCompletion { context },
            StreamEvent::CompletionParsed(completion),
        ) => Some(
            match endpoint::completion_result(completion) {
                Ok(answer) => (
                    PhaseView::Closing,
                    StreamActionView::Emit(
                        Some(events::client_actions_view(context, answer, message_id)),
                    ),
                ),
                Err(message) => failed(message),
            },
        ),
        (PhaseView::Closing, StreamEvent::Polled) => Some(
            (
                PhaseView::Ended,
                StreamActionView::Emit(Some(events::finished_view(ReasonView::Done))),
            ),
        ),
        _ => None,
    }
}

/// Whether stepping a stream in `before` with `event` gave `after` and `action`. A stream that
/// `event` does not fit is left as it was.
pub open spec fn steps_to(
    before: PhaseView,
    event: StreamEvent,
    message_id: Seq<char>,
    after: PhaseView,
    action: Option<StreamActionView>,
) -> bool {
    match transition(before, event, message_id) {
        Some((next, next_action)) => after == next && action == Some(next_action),
        None => after == before && action is None,
    }
}

/// Whether `event` brings a stream in `phase` an answer, which may need an identifier.
pub open spec fn draws_id(phase: PhaseView, event: StreamEvent) -> bool {
    phase is AwaitingCompletion && event matches StreamEvent::CompletionParsed(Ok(_))
}

/// The stream for `params`, under the given identifiers.
pub fn open_stream(
    params: &RequestParams,
    conversation_id: String,
    request_id: String,
    run_id: String,
) -> (stream: ResponseStream)
    ensures
        stream@ == first_phase(*params, conversation_id@, request_id@, run_id@),
{
    let config = match &params.openai_compatible_config {
        Some(config) => config.clone(),
        None => return ResponseStream {
            phase: Phase::Refused {
                message: "OpenAI-compatible endpoint is not configured.".to_string(),
            },
        },
    };
    let request = match build_chat_completion_request(params, &config) {
        Some(request) => request,
        None => return ResponseStream {
            phase: Phase::Refused {
                message: "OpenAI-compatible endpoint only supports text user queries.".to_string(),
            },
        },
    };
    let task_id = if params.tasks.len() > 0 && !params.tasks[0].id.as_str().is_empty() {
        params.tasks[0].id.clone()
    } else {
        run_id.clone()
    };
    let context = ClientActionContext {
        task_id,
        request_id: request_id.clone(),
        create_task: params.tasks.len() == 0,
        task_description: match latest_user_query(params) {
            Some(query) => query,
            None => String::new(),
        },
    };
    ResponseStream {
        phase: Phase::Opening { conversation_id, request_id, run_id, config, request, context },
    }
}

/// The stream that answers `params`. The conversation and the run go by the identifiers that the
/// request brings, where it brings them; the other identifiers are fresh. Where the endpoint is
/// not configured, or no input carries a query, the stream only has an error.
pub fn generate_multi_agent_output(params: RequestParams) -> (stream: ResponseStream)
    ensures
        !request::answerable(params) ==> stream@ == (PhaseView::Refused {
            message: refusal_message(params)->0,
        }),
        request::answerable(params) ==> exists|
            conversation_id: Seq<char>,
            request_id: Seq<char>,
            run_id: Seq<char>,
        |
            {
                &&& given_or_fresh(params.conversation_token, conversation_id)
                &&& ids::is_random_uuid(request_id)
                &&& given_or_fresh(params.ambient_agent_task_id, run_id)
                &&& stream@ == #[trigger] first_phase(params, conversation_id, request_id, run_id)
            },
{
    if !should_use(&params) {
        return open_stream(&params, String::new(), String::new(), String::new());
    }
    let conversation_id = match &params.conversation_token {
        Some(token) => token.clone(),
        None => ids::fresh_id(),
    };
    let request_id = ids::fresh_id();
    let run_id = match &params.ambient_agent_task_id {
        Some(task_id) => task_id.clone(),
        None => ids::fresh_id(),
    };
    open_stream(&params, conversation_id, request_id, run_id)
}

/// Closes a stream with an error.
fn fail(message: String) -> (step: (ResponseStream, Option<StreamAction>))
    ensures
        step.0@ == failed(message@).0,
        api::opt_view(step.1) == Some(failed(message@).1),
{
    (
        ResponseStream { phase: Phase::Ended },
        Some(StreamAction::Emit(finished_event(Reason::InternalError { message }))),
    )
}

impl ResponseStream {
    /// The stream after `event`, and the action to perform then. There is none, and the stream is
    /// as it was, where `event` does not answer the action that was given last. An answer is
    /// emitted in a message with the identifier `message_id`.
    pub fn step_with_id(self, event: StreamEvent, message_id: String) -> (step: (
        ResponseStream,
        Option<StreamAction>,
    ))
        ensures
            steps_to(self@, event, message_id@, step.0@, api::opt_view(step.1)),
    {
        match self.phase {
            Phase::Refused { message } => match event {
                StreamEvent::Polled => (
                    ResponseStream { phase: Phase::Ended },
                    Some(StreamAction::Fail { message }),
                ),
                _ => (ResponseStream { phase: Phase::Refused { message } }, None),
            },
            Phase::Opening { conversation_id, request_id, run_id, config, request, context } => {
                match event {
                    StreamEvent::Polled => (
                        ResponseStream { phase: Phase::Requesting { config, request, context } },
                        Some(StreamAction::Emit(init_event(conversation_id, request_id, run_id))),
                    ),
                    StreamEvent::Cancelled => (
                        ResponseStream { phase: Phase::Ended },
                        Some(StreamAction::End),
                    ),
                    _ => (
                        ResponseStream {
                            phase: Phase::Opening {
                                conversation_id,
                                request_id,
                                run_id,
                                config,
                                request,
                                context,
                            },
                        },
                        None,
                    ),
                }
            },
            Phase::Requesting { config, request, context } => match event {
                StreamEvent::Polled => match request_chat_completion(&config, request) {
                    Ok(call) => (
                        ResponseStream { phase: Phase::AwaitingReply { context } },
                        Some(StreamAction::Send(call)),
                    ),
                    Err(message) => fail(message),
                },
                StreamEvent::Cancelled => (
                    ResponseStream { phase: Phase::Ended },
                    Some(StreamAction::End),
                ),
                _ => (
                    ResponseStream { phase: Phase::Requesting { config, request, context } },
                    None,
                ),
            },
            Phase::AwaitingReply { context } => match event {
                StreamEvent::Exchanged(Exchange::SendFailed { error }) => fail(
                    send_failed(error.as_str()),
                ),
                StreamEvent::Exchanged(Exchange::ReadFailed { error }) => fail(
                    read_failed(error.as_str()),
                ),
                StreamEvent::Exchanged(Exchange::Replied { status, body }) => {
                    if status.is_success() {
                        (
                            ResponseStream { phase: Phase::AwaitingCompletion { context } },
                            Some(StreamAction::ParseCompletion { body }),
                        )
                    } else {
                        let parsed_body = body.clone();
                        (
                            ResponseStream { phase: Phase::AwaitingFailure { status, body } },
                            Some(StreamAction::ParseFailure { body: parsed_body }),
                        )
                    }
                },
                StreamEvent::Cancelled => (
                    ResponseStream { phase: Phase::Ended },
                    Some(StreamAction::End),
                ),
                _ => (ResponseStream { phase: Phase::AwaitingReply { context } }, None),
            },
            Phase::AwaitingFailure { status, body } => match event {
                StreamEvent::FailureParsed(failure) => fail(refused(status, body, failure)),
                StreamEvent::Cancelled => (
                    ResponseStream { phase: Phase::Ended },
                    Some(StreamAction::End),
                ),
                _ => (ResponseStream { phase: Phase::AwaitingFailure { status, body } }, None),
            },
            Phase::AwaitingCompletion { context } => match event {
                StreamEvent::CompletionParsed(completion) => match completion_text(completion) {
                    Ok(answer) => (
                        ResponseStream { phase: Phase::Closing },
                        Some(
                            StreamAction::Emit(
                                client_actions_event_with_id(&context, answer, message_id),
                            ),
                        ),
                    ),
                    Err(message) => fail(message),
                },
                StreamEvent::Cancelled => (
                    ResponseStream { phase: Phase::Ended },
                    Some(StreamAction::End),
                ),
                _ => (ResponseStream { phase: Phase::AwaitingCompletion { context } }, None),
            },
            Phase::Closing => match event {
                StreamEvent::Polled => (
                    ResponseStream { phase: Phase::Ended },
                    Some(StreamAction::Emit(finished_event(Reason::Done))),
                ),
                StreamEvent::Cancelled => (
                    ResponseStream { phase: Phase::Ended },
                    Some(StreamAction::End),
                ),
                _ => (ResponseStream { phase: Phase::Closing }, None),
            },
            Phase::Ended => match event {
                StreamEvent::Polled | StreamEvent::Cancelled => (
                    ResponseStream { phase: Phase::Ended },
                    Some(StreamAction::End),
                ),
                _ => (ResponseStream { phase: Phase::Ended }, None),
            },
        }
    }

    /// The stream after `event`, and the action to perform then. There is none, and the stream is
    /// as it was, where `event` does not answer the action that was given last. An answer is
    /// emitted in a message with a fresh identifier.
    pub fn step(self, event: StreamEvent) -> (step: (ResponseStream, Option<StreamAction>))
        ensures
            draws_id(self@, event) ==> exists|message_id: Seq<char>|
                ids::is_random_uuid(message_id) && #[trigger] steps_to(
                    self@,
                    event,
                    message_id,
                    step.0@,
                    api::opt_view(step.1),
                ),
            !draws_id(self@, event) ==> forall|message_id: Seq<char>| #[trigger]
                steps_to(self@, event, message_id, step.0@, api::opt_view(step.1)),
    {
        let message_id = match &self.phase {
            Phase::AwaitingCompletion { .. } => match &event {
                StreamEvent::CompletionParsed(Ok(_)) => ids::fresh_id(),
                _ => String::new(),
            },
            _ => String::new(),
        };
        self.step_with_id(event, message_id)
    }
}

} // verus!
