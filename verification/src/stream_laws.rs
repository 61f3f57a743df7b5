//! What a stream does, said of the fields of its request and of what happens to it.

use vstd::prelude::*;

use crate::api::{ActionView, EventView, MessageBodyView, MessageView, ReasonView, TaskView};
use crate::content::{ChatCompletionResponse, JsonValue};
use crate::endpoint;
use crate::endpoint::{Exchange, HttpRequestView, HttpStatus};
use crate::events;
use crate::events::ContextView;
use crate::ids;
use crate::reply_laws;
use crate::request;
use crate::request::{
    ChatMessageView, ChatRequestView, OpenAICompatibleConfig, RequestParams, SYSTEM_PROMPT,
};
use crate::request_laws;
use crate::stream;
use crate::stream::{PhaseView, StreamActionView, StreamEvent};
use crate::text;

verus! {

/// A stream is open exactly where the endpoint is configured and some input has a query. Else it
/// only has an error, which says which of the two is missing, the configuration first.
pub proof fn law_opens(
    params: RequestParams,
    conversation_id: Seq<char>,
    request_id: Seq<char>,
    run_id: Seq<char>,
)
    ensures
        ({
            let phase = stream::first_phase(params, conversation_id, request_id, run_id);
            let asked = exists|i: int|
                0 <= i < params.input@.len() && #[trigger] params.input@[i] is UserQuery;
            &&& phase is Opening <==> params.openai_compatible_config is Some && asked
            &&& params.openai_compatible_config is None ==> phase == (PhaseView::Refused {
                message: "OpenAI-compatible endpoint is not configured."@,
            })
            &&& params.openai_compatible_config is Some && !asked ==> phase == (
            PhaseView::Refused {
                message: "OpenAI-compatible endpoint only supports text user queries."@,
            })
        }),
        stream::refusal_message(params) == (match stream::first_phase(
            params,
            conversation_id,
            request_id,
            run_id,
        ) {
            PhaseView::Refused { message } => Some(message),
            _ => None,
        }),
{
    request_laws::law_some_query(params.input@);
}

/// Whether a stream opens depends on the configuration and the input alone.
pub proof fn law_opening_depends_on(
    a: RequestParams,
    b: RequestParams,
    conversation_id: Seq<char>,
    request_id: Seq<char>,
    run_id: Seq<char>,
)
    requires
        a.openai_compatible_config is Some == b.openai_compatible_config is Some,
        a.input@ == b.input@,
    ensures
        stream::first_phase(a, conversation_id, request_id, run_id) is Opening
            == stream::first_phase(b, conversation_id, request_id, run_id) is Opening,
{
    law_opens(a, conversation_id, request_id, run_id);
    law_opens(b, conversation_id, request_id, run_id);
}

/// An open stream goes by the identifiers that it was given and by the configuration of its
/// request. It asks what the last input with a query asks, after the history of the tasks.
pub proof fn law_opened(
    params: RequestParams,
    config: OpenAICompatibleConfig,
    conversation_id: Seq<char>,
    request_id: Seq<char>,
    run_id: Seq<char>,
    i: int,
)
    requires
        params.openai_compatible_config == Some(config),
        0 <= i < params.input@.len(),
        params.input@[i] is UserQuery,
        forall|j: int| i < j < params.input@.len() ==> #[trigger] params.input@[j] is Other,
    ensures
        stream::first_phase(params, conversation_id, request_id, run_id) matches (
        PhaseView::Opening {
            conversation_id: conversation,
            request_id: answered,
            run_id: run,
            config: used,
            request: chat,
            context,
        }) && {
            &&& conversation == conversation_id
            &&& answered == request_id
            &&& run == run_id
            &&& used == config
            &&& config.model matches Some(model) ==> chat.model == model@
            &&& config.model is None ==> chat.model == params.model@
            &&& chat.messages == seq![
                ChatMessageView { role: "system"@, content: SYSTEM_PROMPT@ },
            ] + request::history(params.tasks@) + seq![
                ChatMessageView { role: "user"@, content: params.input@[i]->query@ },
            ]
            &&& !chat.stream
            &&& context.request_id == request_id
            &&& context.create_task <==> params.tasks@.len() == 0
            &&& context.task_description == params.input@[i]->query@
        },
{
    request_laws::law_query_is_latest(params.input@, i);
    request_laws::law_request(params, config, i);
}

/// The answer goes to the first task wherever that has an identifier, whatever else it holds. Where
/// there is no task, or the first one has no identifier, the answer goes to the task that is named
/// after the run.
pub proof fn law_answer_goes_to_first_task(
    params: RequestParams,
    conversation_id: Seq<char>,
    request_id: Seq<char>,
    run_id: Seq<char>,
    i: int,
)
    requires
        params.openai_compatible_config is Some,
        0 <= i < params.input@.len(),
        params.input@[i] is UserQuery,
    ensures
        stream::first_phase(params, conversation_id, request_id, run_id) matches (
        PhaseView::Opening { context, .. }) && {
            &&& params.tasks@.len() > 0 && params.tasks@[0].id@.len() > 0 ==> context.task_id
                == params.tasks@[0].id@
            &&& params.tasks@.len() > 0 && params.tasks@[0].id@.len() == 0 ==> context.task_id
                == run_id
            &&& params.tasks@.len() == 0 ==> context.task_id == run_id
        },
{
    request_laws::law_some_query(params.input@);
}

/// Where the answer goes depends on the input and, of the tasks, on the identifier of the first.
pub proof fn law_context_depends_on(
    a: RequestParams,
    b: RequestParams,
    request_id: Seq<char>,
    run_id: Seq<char>,
)
    requires
        a.input@ == b.input@,
        a.tasks@.len() == 0 <==> b.tasks@.len() == 0,
        a.tasks@.len() > 0 ==> a.tasks@[0].id@ == b.tasks@[0].id@,
    ensures
        stream::answer_context(a, request_id, run_id) == stream::answer_context(
            b,
            request_id,
            run_id,
        ),
{
}

/// The text of an answer reaches the first task of the request, wherever that has an identifier:
/// the request is sent, accepted and understood, and what is emitted adds one message to that
/// task, which holds the text as it came.
pub proof fn law_text_reaches_first_task(
    params: RequestParams,
    config: OpenAICompatibleConfig,
    conversation_id: Seq<char>,
    request_id: Seq<char>,
    run_id: Seq<char>,
    i: int,
    status: HttpStatus,
    body: String,
    response: ChatCompletionResponse,
    whole: String,
    k: int,
    message_id: Seq<char>,
)
    requires
        params.openai_compatible_config == Some(config),
        config.base_url is Some,
        0 <= i < params.input@.len(),
        params.input@[i] is UserQuery,
        params.tasks@.len() > 0,
        params.tasks@[0].id@.len() > 0,
        200 <= status@ <= 299,
        response.choices@.len() > 0,
        response.choices@[0].message.content == JsonValue::String(whole),
        0 <= k < whole@.len(),
        !text::is_white_space(whole@[k]),
    ensures
        ({
            let opening = stream::first_phase(params, conversation_id, request_id, run_id);
            let opened = (stream::transition(opening, StreamEvent::Polled, message_id)->0).0;
            let sent = (stream::transition(opened, StreamEvent::Polled, message_id)->0).0;
            let replied = (stream::transition(
                sent,
                StreamEvent::Exchanged(Exchange::Replied { status, body }),
                message_id,
            )->0).0;
            stream::transition(
                replied,
                StreamEvent::CompletionParsed(Ok(response)),
                message_id,
            ) == Some(
                (
                    PhaseView::Closing,
                    StreamActionView::Emit(
                        Some(
                            EventView::ClientActions {
                                actions: seq![
                                    Some(
                                        ActionView::AddMessagesToTask {
                                            task_id: params.tasks@[0].id@,
                                            messages: seq![
                                                MessageView {
                                                    id: message_id,
                                                    task_id: params.tasks@[0].id@,
                                                    request_id,
                                                    timestamp: None,
                                                    server_message_data: Seq::empty(),
                                                    citations: Seq::empty(),
                                                    message: Some(
                                                        MessageBodyView::AgentOutput(whole@),
                                                    ),
                                                },
                                            ],
                                        },
                                    ),
                                ],
                            },
                        ),
                    ),
                ),
            )
        }),
{
    request_laws::law_some_query(params.input@);
    reply_laws::law_string_is_the_answer(response, whole, k);
}

/// An identifier that is given is used as it is. One that is not given is fresh: 36 characters,
/// all of them lower-case hexadecimal digits but for the four hyphens.
pub proof fn law_given_identifier(given: Option<String>, id: Seq<char>)
    ensures
        given matches Some(token) ==> (stream::given_or_fresh(given, id) <==> id == token@),
        given is None ==> (stream::given_or_fresh(given, id) <==> ids::is_random_uuid(id)),
        ids::is_random_uuid(id) <==> {
            &&& id.len() == 36
            &&& id[8] == '-' && id[13] == '-' && id[18] == '-' && id[23] == '-'
            &&& forall|i: int|
                0 <= i < 36 && i != 8 && i != 13 && i != 18 && i != 23 ==> ('0' <= #[trigger] id[i]
                    <= '9' || 'a' <= id[i] <= 'f')
            &&& id[14] == '4'
            &&& id[19] == '8' || id[19] == '9' || id[19] == 'a' || id[19] == 'b'
        },
{
    if ids::is_random_uuid(id) {
        assert(id[8] == '-' && id[13] == '-' && id[18] == '-' && id[23] == '-');
        assert forall|i: int| 0 <= i < 36 && i != 8 && i != 13 && i != 18 && i != 23 implies ('0'
            <= #[trigger] id[i] <= '9' || 'a' <= id[i] <= 'f') by {
            assert(ids::is_lower_hex(id[i]));
        }
    }
}

/// The event that opens a stream names the conversation, the request and the run, each by its
/// own identifier.
pub proof fn law_init_event(
    conversation_id: Seq<char>,
    request_id: Seq<char>,
    run_id: Seq<char>,
)
    ensures
        events::init_view(conversation_id, request_id, run_id) == (EventView::Init {
            conversation_id,
            request_id,
            run_id,
        }),
{
}

/// The event that closes a stream gives the reason and nothing else.
pub proof fn law_finished_event(reason: ReasonView)
    ensures
        events::finished_view(reason) == (EventView::Finished {
            token_usage: Seq::empty(),
            should_refresh_model_config: false,
            request_cost: None,
            conversation_usage_metadata: None,
            reason: Some(reason),
        }),
{
}

/// The event that delivers an answer ends with one message, which holds the text as it is, for the
/// task and the request of its context. Where a task is to be made, an empty one with that
/// identifier and the description of the context is made before; else nothing else is done.
pub proof fn law_delivery(context: ContextView, answer: Seq<char>, message_id: Seq<char>)
    ensures
        events::client_actions_view(context, answer, message_id) matches (
        EventView::ClientActions { actions }) && {
            &&& actions.len() == if context.create_task {
                2nat
            } else {
                1nat
            }
            &&& actions.last() == Some(
                ActionView::AddMessagesToTask {
                    task_id: context.task_id,
                    messages: seq![
                        MessageView {
                            id: message_id,
                            task_id: context.task_id,
                            request_id: context.request_id,
                            timestamp: None,
                            server_message_data: Seq::empty(),
                            citations: Seq::empty(),
                            message: Some(MessageBodyView::AgentOutput(answer)),
                        },
                    ],
                },
            )
            &&& context.create_task ==> actions.first() == Some(
                ActionView::CreateTask {
                    task: Some(
                        TaskView {
                            id: context.task_id,
                            description: context.task_description,
                            dependencies: None,
                            messages: Seq::empty(),
                            summary: Seq::empty(),
                            server_data: Seq::empty(),
                        },
                    ),
                },
            )
        },
{
}

/// A stream of a request that cannot be answered gives its error when it is asked for an item, and
/// has ended then. Nothing else moves it.
pub proof fn law_refused_step(message: Seq<char>, event: StreamEvent, message_id: Seq<char>)
    ensures
        stream::transition(PhaseView::Refused { message }, event, message_id) == (
        if event is Polled {
            Some((PhaseView::Ended, StreamActionView::Fail { message }))
        } else {
            None
        }),
{
}

/// A stream that opens emits the event that says so when it is asked for an item, and keeps what
/// it is to send.
pub proof fn law_opening_step(
    conversation_id: Seq<char>,
    request_id: Seq<char>,
    run_id: Seq<char>,
    config: OpenAICompatibleConfig,
    chat: ChatRequestView,
    context: ContextView,
    event: StreamEvent,
    message_id: Seq<char>,
)
    ensures
        ({
            let phase = PhaseView::Opening {
                conversation_id,
                request_id,
                run_id,
                config,
                request: chat,
                context,
            };
            &&& event is Polled ==> stream::transition(phase, event, message_id) == Some(
                (
                    PhaseView::Requesting { config, request: chat, context },
                    StreamActionView::Emit(
                        Some(EventView::Init { conversation_id, request_id, run_id }),
                    ),
                ),
            )
            &&& event is Cancelled ==> stream::transition(phase, event, message_id) == Some(
                (PhaseView::Ended, StreamActionView::End),
            )
            &&& event is Exchanged || event is FailureParsed || event is CompletionParsed
                ==> stream::transition(phase, event, message_id) is None
        }),
{
}

/// An open stream sends its request when it is asked for an item: to the URL that the base URL
/// leads to, with the key where there is one that is not empty. Without a base URL it closes with
/// an error.
pub proof fn law_requesting_step(
    config: OpenAICompatibleConfig,
    chat: ChatRequestView,
    context: ContextView,
    event: StreamEvent,
    message_id: Seq<char>,
)
    ensures
        ({
            let phase = PhaseView::Requesting { config, request: chat, context };
            &&& event is Polled && config.base_url is Some ==> stream::transition(
                phase,
                event,
                message_id,
            ) == Some(
                (
                    PhaseView::AwaitingReply { context },
                    StreamActionView::Send(
                        HttpRequestView {
                            url: endpoint::endpoint_url(config.base_url->0@),
                            bearer: if config.api_key is Some && config.api_key->0@.len() > 0 {
                                Some(config.api_key->0@)
                            } else {
                                None
                            },
                            body: chat,
                        },
                    ),
                ),
            )
            &&& event is Polled && config.base_url is None ==> stream::transition(
                phase,
                event,
                message_id,
            ) == Some(
                (
                    PhaseView::Ended,
                    StreamActionView::Emit(
                        Some(
                            events::finished_view(
                                ReasonView::InternalError {
                                    message: "OpenAI-compatible endpoint is missing a base URL."@,
                                },
                            ),
                        ),
                    ),
                ),
            )
            &&& event is Cancelled ==> stream::transition(phase, event, message_id) == Some(
                (PhaseView::Ended, StreamActionView::End),
            )
            &&& event is Exchanged || event is FailureParsed || event is CompletionParsed
                ==> stream::transition(phase, event, message_id) is None
        }),
{
}

/// A stream that waits for a reply has the whole body parsed, as an answer where the status has 2
/// as its first digit, and else as a refusal. Where no reply came it closes with an error, which
/// ends with the reason.
pub proof fn law_reply_step(context: ContextView, event: StreamEvent, message_id: Seq<char>)
    ensures
        ({
            let phase = PhaseView::AwaitingReply { context };
            &&& event matches StreamEvent::Exchanged(Exchange::SendFailed { error })
                ==> stream::transition(phase, event, message_id) == Some(
                (
                    PhaseView::Ended,
                    StreamActionView::Emit(
                        Some(
                            events::finished_view(
                                ReasonView::InternalError {
                                    message: "OpenAI-compatible endpoint request failed: "@
                                        + error@,
                                },
                            ),
                        ),
                    ),
                ),
            )
            &&& event matches StreamEvent::Exchanged(Exchange::ReadFailed { error })
                ==> stream::transition(phase, event, message_id) == Some(
                (
                    PhaseView::Ended,
                    StreamActionView::Emit(
                        Some(
                            events::finished_view(
                                ReasonView::InternalError {
                                    message: "OpenAI-compatible endpoint response read failed: "@
                                        + error@,
                                },
                            ),
                        ),
                    ),
                ),
            )
            &&& event matches StreamEvent::Exchanged(Exchange::Replied { status, body })
                ==> stream::transition(phase, event, message_id) == Some(
                if status@ as int / 100 == 2 {
                    (
                        PhaseView::AwaitingCompletion { context },
                        StreamActionView::ParseCompletion { body: body@ },
                    )
                } else {
                    (
                        PhaseView::AwaitingFailure { status: status@, body: body@ },
                        StreamActionView::ParseFailure { body: body@ },
                    )
                },
            )
            &&& event is Cancelled ==> stream::transition(phase, event, message_id) == Some(
                (PhaseView::Ended, StreamActionView::End),
            )
            &&& event is Polled || event is FailureParsed || event is CompletionParsed
                ==> stream::transition(phase, event, message_id) is None
        }),
{
}

/// A stream whose request was refused closes with an error, which shows the status and, after a
/// colon, what the endpoint says, where it says anything, and else the whole body.
pub proof fn law_failure_step(
    status: u16,
    body: Seq<char>,
    event: StreamEvent,
    message_id: Seq<char>,
)
    ensures
        ({
            let phase = PhaseView::AwaitingFailure { status, body };
            &&& event matches StreamEvent::FailureParsed(failure) ==> stream::transition(
                phase,
                event,
                message_id,
            ) == Some(
                (
                    PhaseView::Ended,
                    StreamActionView::Emit(
                        Some(
                            events::finished_view(
                                ReasonView::InternalError {
                                    message: "OpenAI-compatible endpoint returned "@
                                        + endpoint::status_text(status) + ": "@ + (
                                    if failure is Some && failure->0.error is Some
                                        && failure->0.error->0.message is Some {
                                        failure->0.error->0.message->0@
                                    } else {
                                        body
                                    }),
                                },
                            ),
                        ),
                    ),
                ),
            )
            &&& event is Cancelled ==> stream::transition(phase, event, message_id) == Some(
                (PhaseView::Ended, StreamActionView::End),
            )
            &&& event is Polled || event is Exchanged || event is CompletionParsed
                ==> stream::transition(phase, event, message_id) is None
        }),
{
}

/// A stream whose request was accepted delivers the answer where the reply comes to one. Else it
/// closes with the error that the reply comes to.
pub proof fn law_completion_step(context: ContextView, event: StreamEvent, message_id: Seq<char>)
    ensures
        ({
            let phase = PhaseView::AwaitingCompletion { context };
            &&& event matches StreamEvent::CompletionParsed(completion) ==> {
                &&& endpoint::completion_result(completion) matches Ok(answer)
                    ==> stream::transition(phase, event, message_id) == Some(
                    (
                        PhaseView::Closing,
                        StreamActionView::Emit(
                            Some(events::client_actions_view(context, answer, message_id)),
                        ),
                    ),
                )
                &&& endpoint::completion_result(completion) matches Err(message)
                    ==> stream::transition(phase, event, message_id) == Some(
                    (
                        PhaseView::Ended,
                        StreamActionView::Emit(
                            Some(events::finished_view(ReasonView::InternalError { message })),
                        ),
                    ),
                )
            }
            &&& event is Cancelled ==> stream::transition(phase, event, message_id) == Some(
                (PhaseView::Ended, StreamActionView::End),
            )
            &&& event is Polled || event is Exchanged || event is FailureParsed
                ==> stream::transition(phase, event, message_id) is None
        }),
{
}

/// A stream that has delivered its answer says that it is done when it is asked for an item. One
/// that has ended has nothing more, however often it is asked.
pub proof fn law_last_steps(event: StreamEvent, message_id: Seq<char>)
    ensures
        event is Polled ==> stream::transition(PhaseView::Closing, event, message_id) == Some(
            (
                PhaseView::Ended,
                StreamActionView::Emit(Some(events::finished_view(ReasonView::Done))),
            ),
        ),
        event is Cancelled ==> stream::transition(PhaseView::Closing, event, message_id) == Some(
            (PhaseView::Ended, StreamActionView::End),
        ),
        event is Polled || event is Cancelled ==> stream::transition(
            PhaseView::Ended,
            event,
            message_id,
        ) == Some((PhaseView::Ended, StreamActionView::End)),
        event is Exchanged || event is FailureParsed || event is CompletionParsed
            ==> stream::transition(PhaseView::Closing, event, message_id) is None
            && stream::transition(PhaseView::Ended, event, message_id) is None,
{
}

/// A step that is taken leads where the transition does. An event that does not fit leaves the
/// stream as it was, and asks for nothing.
pub proof fn law_step(
    before: PhaseView,
    event: StreamEvent,
    message_id: Seq<char>,
    after: PhaseView,
    action: Option<StreamActionView>,
)
    requires
        stream::steps_to(before, event, message_id, after, action),
    ensures
        action is Some <==> stream::transition(before, event, message_id) is Some,
        action is Some ==> stream::transition(before, event, message_id) == Some(
            (after, action->0),
        ),
        action is None ==> after == before,
{
}

/// Which identifier a message gets makes a difference only to an answer: an understood reply to a
/// request that was accepted.
pub proof fn law_identifier_is_for_answers(
    phase: PhaseView,
    event: StreamEvent,
    a: Seq<char>,
    b: Seq<char>,
)
    requires
        !(phase is AwaitingCompletion && event is CompletionParsed
            && event->CompletionParsed_0 is Ok),
    ensures
        stream::transition(phase, event, a) == stream::transition(phase, event, b),
        !stream::draws_id(phase, event),
{
}

} // verus!
