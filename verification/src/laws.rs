//! What holds of the library as a whole.

use vstd::prelude::*;

use crate::api;
use crate::api::{ActionView, EventView, MessageBodyView, ReasonView, Task};
use crate::content;
use crate::content::{ChatCompletionResponse, ErrorResponse, JsonValue};
use crate::endpoint;
use crate::endpoint::{Exchange, HttpStatus};
use crate::events;
use crate::events::ContextView;
use crate::request;
use crate::request::{AIAgentInput, OpenAICompatibleConfig, RequestParams};
use crate::stream;
use crate::stream::{PhaseView, StreamActionView, StreamEvent};
use crate::text;

verus! {

/// Whatever the base URL, the completions are asked for at a URL that ends with their path.
pub proof fn law_url_ends_with_path(base_url: Seq<char>)
    ensures
        endpoint::completions_path().is_suffix_of(endpoint::endpoint_url(base_url)),
{
    let bare = endpoint::bare_url(base_url);
    let path = endpoint::completions_path();
    if !path.is_suffix_of(bare) {
        assert((bare + path).subrange(bare.len() as int, (bare + path).len() as int) == path);
    }
}

/// The URL that a base URL leads to leads to itself.
pub proof fn law_url_is_stable(base_url: Seq<char>)
    ensures
        endpoint::endpoint_url(endpoint::endpoint_url(base_url)) == endpoint::endpoint_url(
            base_url,
        ),
{
    let url = endpoint::endpoint_url(base_url);
    let path = endpoint::completions_path();
    let bare = endpoint::bare_url(base_url);
    law_url_ends_with_path(base_url);
    reveal_strlit("/chat/completions");
    text::lemma_trimmed_ends(base_url);
    text::lemma_without_trailing(text::trimmed(base_url), '/');
    let tail = url.subrange(url.len() - path.len(), url.len() as int);
    assert(tail[path.len() - 1] == url.last());
    assert(url.last() == 's');
    if bare.len() > 0 {
        assert(url.first() == bare.first());
        assert(bare.first() == text::trimmed(base_url).first());
    } else {
        assert(url == path);
    }
    assert(!text::is_white_space(url.first()));
    assert(text::trimmed(url) == url);
    assert(endpoint::bare_url(url) == url);
}

/// White space around a base URL makes no difference.
pub proof fn law_url_ignores_padding(before: Seq<char>, base_url: Seq<char>, after: Seq<char>)
    requires
        text::is_blank(before),
        text::is_blank(after),
    ensures
        endpoint::endpoint_url(before + base_url + after) == endpoint::endpoint_url(base_url),
{
    text::lemma_trimmed_padding(before, base_url, after);
}

/// A slash after a base URL makes no difference. (White space before the slash would stay.)
pub proof fn law_url_ignores_trailing_slash(base_url: Seq<char>)
    requires
        base_url.len() > 0 ==> !text::is_white_space(base_url.last()),
    ensures
        endpoint::endpoint_url(base_url.push('/')) == endpoint::endpoint_url(base_url),
{
    text::lemma_trimmed_push(base_url, '/');
    let trimmed = text::trimmed(base_url);
    assert(trimmed.push('/').drop_last() == trimmed);
}

/// Later tasks add to the history without changing what is there.
pub proof fn law_history_grows(earlier: Seq<Task>, later: Seq<Task>)
    ensures
        request::history(earlier + later) == request::history(earlier) + request::history(later),
{
    let shown = |task: Task| request::task_history(task);
    vstd::seq_lib::lemma_flatten_concat(earlier.map_values(shown), later.map_values(shown));
    assert((earlier + later).map_values(shown) == earlier.map_values(shown) + later.map_values(
        shown,
    ));
}

/// The messages of the history have the role of the user or of the assistant.
pub proof fn law_history_roles(tasks: Seq<Task>)
    ensures
        forall|i: int|
            0 <= i < request::history(tasks).len() ==> {
                ||| (#[trigger] request::history(tasks)[i]).role == "user"@
                ||| request::history(tasks)[i].role == "assistant"@
            },
    decreases tasks.len(),
{
    if tasks.len() > 0 {
        let shown = |task: Task| request::task_history(task);
        let rest = tasks.drop_last();
        law_history_roles(rest);
        law_history_grows(rest, seq![tasks.last()]);
        assert(rest + seq![tasks.last()] == tasks);
        assert(seq![tasks.last()].flat_map(shown) == request::task_history(tasks.last())) by {
            seq![tasks.last()].lemma_flat_map_singleton(shown);
        }
        lemma_task_roles(tasks.last().messages@);
        assert(request::history(tasks) == request::history(rest) + request::task_history(
            tasks.last(),
        ));
    }
}

/// The messages that are shown of a task have the role of the user or of the assistant.
proof fn lemma_task_roles(messages: Seq<api::Message>)
    ensures
        forall|i: int|
            0 <= i < request::shown_messages(messages).len() ==> {
                ||| (#[trigger] request::shown_messages(messages)[i]).role == "user"@
                ||| request::shown_messages(messages)[i].role == "assistant"@
            },
    decreases messages.len(),
{
    if messages.len() > 0 {
        let rest = request::shown_messages(messages.drop_last());
        lemma_task_roles(messages.drop_last());
        match request::chat_message(messages.last()) {
            Some(message) => {
                assert(request::shown_messages(messages) == rest + seq![message]);
            },
            None => {
                assert(request::shown_messages(messages) == rest);
            },
        }
    }
}

/// A request begins with the system prompt, ends with the latest query, and has what the tasks
/// hold in between. It is not answered in pieces.
pub proof fn law_request_frame(params: RequestParams, config: OpenAICompatibleConfig)
    ensures
        request::chat_request(params, config) is Some == request::latest_query(
            params.input@,
        ) is Some,
        request::chat_request(params, config) matches Some(chat) ==> {
            let last = chat.messages.len() - 1;
            &&& chat.messages.len() == request::history(params.tasks@).len() + 2
            &&& chat.messages[0] == request::system_message()
            &&& chat.messages.subrange(1, last) == request::history(params.tasks@)
            &&& chat.messages[last] == request::user_message(
                request::latest_query(params.input@)->0,
            )
            &&& !chat.stream
        },
{
    if let Some(chat) = request::chat_request(params, config) {
        let last = chat.messages.len() - 1;
        assert(chat.messages.subrange(1, last) == request::history(params.tasks@));
    }
}

/// Only the first message of a request is the system's.
pub proof fn law_one_system_message(params: RequestParams, config: OpenAICompatibleConfig)
    ensures
        request::chat_request(params, config) matches Some(chat) ==> forall|i: int|
            0 <= i < chat.messages.len() ==> ((#[trigger] chat.messages[i]).role == "system"@
                <==> i == 0),
{
    if let Some(chat) = request::chat_request(params, config) {
        let earlier = request::history(params.tasks@);
        law_request_frame(params, config);
        law_history_roles(params.tasks@);
        reveal_strlit("system");
        reveal_strlit("user");
        reveal_strlit("assistant");
        assert("system"@.len() == 6 && "user"@.len() == 4 && "assistant"@.len() == 9);
        assert forall|i: int| 0 <= i < chat.messages.len() implies ((
        #[trigger] chat.messages[i]).role == "system"@ <==> i == 0) by {
            if 0 < i < chat.messages.len() - 1 {
                assert(chat.messages.subrange(1, chat.messages.len() - 1)[i - 1]
                    == chat.messages[i]);
                assert(earlier[i - 1] == chat.messages[i]);
            }
        }
    }
}

/// An input with a query makes that query the latest; one without leaves the latest as it was.
pub proof fn law_latest_query(inputs: Seq<AIAgentInput>, input: AIAgentInput)
    ensures
        request::latest_query(inputs.push(input)) == (match request::query_of(input) {
            Some(query) => Some(query),
            None => request::latest_query(inputs),
        }),
        request::latest_query(Seq::empty()) is None,
{
    assert(inputs.push(input).drop_last() == inputs);
}

/// The endpoint is used exactly for the requests whose stream opens; the stream of every other
/// request has an error in it.
pub proof fn law_used_where_answerable(
    params: RequestParams,
    conversation_id: Seq<char>,
    request_id: Seq<char>,
    run_id: Seq<char>,
)
    ensures
        request::answerable(params) <==> stream::first_phase(
            params,
            conversation_id,
            request_id,
            run_id,
        ) is Opening,
        !request::answerable(params) <==> stream::first_phase(
            params,
            conversation_id,
            request_id,
            run_id,
        ) is Refused,
{
}

/// The text of two runs of parts is the text of the first and then of the second.
pub proof fn law_parts_text_grows(earlier: Seq<JsonValue>, later: Seq<JsonValue>)
    ensures
        content::parts_text(earlier + later) == content::parts_text(earlier) + content::parts_text(
            later,
        ),
{
    let of_part = |part: JsonValue| content::part_text(part);
    lemma_filter_map_concat(earlier, later, of_part);
    vstd::seq_lib::lemma_flatten_concat(earlier.filter_map(of_part), later.filter_map(of_part));
}

/// What is kept of two sequences is what is kept of the first and then of the second.
proof fn lemma_filter_map_concat<A, B>(earlier: Seq<A>, later: Seq<A>, f: spec_fn(A) -> Option<B>)
    ensures
        (earlier + later).filter_map(f) == earlier.filter_map(f) + later.filter_map(f),
    decreases later.len(),
{
    if later.len() == 0 {
        assert(earlier + later == earlier);
    } else {
        lemma_filter_map_concat(earlier, later.drop_last(), f);
        assert((earlier + later).drop_last() == earlier + later.drop_last());
        assert((earlier + later).last() == later.last());
    }
}

/// A content that comes in parts has a text exactly where some part has one that is not empty.
pub proof fn law_parts_with_text(content: JsonValue, parts: Seq<JsonValue>)
    requires
        content matches JsonValue::Array(items) && items@ == parts,
    ensures
        content::content_text(content) is Some <==> exists|i: int|
            0 <= i < parts.len() && (#[trigger] content::part_text(parts[i]) matches Some(piece)
                && piece.len() > 0),
        content::content_text(content) matches Some(answer) ==> answer.len() > 0,
{
    lemma_parts_text_is_empty(parts);
}

/// The parts have no text exactly where each of them has none, or an empty one.
proof fn lemma_parts_text_is_empty(parts: Seq<JsonValue>)
    ensures
        content::parts_text(parts).len() == 0 <==> forall|i: int|
            0 <= i < parts.len() ==> (#[trigger] content::part_text(parts[i]) matches Some(piece)
                ==> piece.len() == 0),
    decreases parts.len(),
{
    if parts.len() > 0 {
        let rest = parts.drop_last();
        let last = parts.last();
        let of_part = |part: JsonValue| content::part_text(part);
        lemma_parts_text_is_empty(rest);
        law_parts_text_grows(rest, seq![last]);
        assert(rest + seq![last] == parts);
        assert(content::parts_text(seq![last]) == (match content::part_text(last) {
            Some(piece) => piece,
            None => Seq::empty(),
        })) by {
            Seq::lemma_filter_map_singleton(last, of_part);
            if let Some(piece) = content::part_text(last) {
                seq![piece].lemma_flatten_one_element();
            }
        }
        assert forall|i: int| 0 <= i < rest.len() implies #[trigger] content::part_text(rest[i])
            == content::part_text(parts[i]) by {}
        if content::parts_text(parts).len() == 0 {
            assert forall|i: int| 0 <= i < parts.len() implies (#[trigger] content::part_text(
                parts[i],
            ) matches Some(piece) ==> piece.len() == 0) by {
                if i < rest.len() {
                    assert(content::part_text(rest[i]) == content::part_text(parts[i]));
                }
            }
        }
        if forall|i: int|
            0 <= i < parts.len() ==> (#[trigger] content::part_text(parts[i]) matches Some(piece)
                ==> piece.len() == 0) {
            assert(content::part_text(parts[parts.len() - 1]) == content::part_text(last));
            assert forall|i: int| 0 <= i < rest.len() implies (#[trigger] content::part_text(
                rest[i],
            ) matches Some(piece) ==> piece.len() == 0) by {
                assert(content::part_text(rest[i]) == content::part_text(parts[i]));
            }
        }
    }
}

/// An answer is never blank. It is the text of the first choice.
pub proof fn law_answer_has_text(completion: Result<ChatCompletionResponse, String>)
    ensures
        endpoint::completion_result(completion) matches Ok(answer) ==> {
            &&& !text::is_blank(answer)
            &&& answer.len() > 0
            &&& completion matches Ok(response) && endpoint::first_text(response) == Some(answer)
        },
{
}

/// An answer is delivered in one message, in the task that the context names. Where that task
/// does not exist yet, it is made before.
pub proof fn law_answer_is_delivered(context: ContextView, answer: Seq<char>, message_id: Seq<char>)
    ensures
        events::client_actions_view(context, answer, message_id) matches EventView::ClientActions {
            actions,
        } && {
            &&& actions.len() == (if context.create_task {
                2int
            } else {
                1
            })
            &&& actions.last() matches Some(ActionView::AddMessagesToTask { task_id, messages }) && {
                &&& task_id == context.task_id
                &&& messages.len() == 1
                &&& messages[0].task_id == context.task_id
                &&& messages[0].request_id == context.request_id
                &&& messages[0].message == Some(MessageBodyView::AgentOutput(answer))
            }
            &&& context.create_task ==> (actions[0] matches Some(
                ActionView::CreateTask { task: Some(task) },
            ) && task.id == context.task_id && task.messages.len() == 0)
        },
{
}

/// The answer goes under the request of the stream. A task that is made for it is named after the
/// run.
pub proof fn law_context_matches_stream(
    params: RequestParams,
    conversation_id: Seq<char>,
    request_id: Seq<char>,
    run_id: Seq<char>,
)
    requires
        request::answerable(params),
    ensures
        stream::first_phase(
            params,
            conversation_id,
            request_id,
            run_id,
        ) matches PhaseView::Opening { context, .. } && {
            &&& context.request_id == request_id
            &&& context.create_task <==> params.tasks@.len() == 0
            &&& context.create_task ==> context.task_id == run_id
            &&& run_id.len() > 0 ==> context.task_id.len() > 0
        },
{
}

/// An event, and the identifier that an answer is emitted under if the event brings one.
pub struct Step {
    pub event: StreamEvent,
    pub message_id: Seq<char>,
}

/// The phase that `steps` lead to from `phase`. A step that does not fit changes nothing.
pub open spec fn phase_after(phase: PhaseView, steps: Seq<Step>) -> PhaseView
    decreases steps.len(),
{
    if steps.len() == 0 {
        phase
    } else {
        let before = phase_after(phase, steps.drop_last());
        match stream::transition(before, steps.last().event, steps.last().message_id) {
            Some((after, _)) => after,
            None => before,
        }
    }
}

/// The actions that `steps` give from `phase` on, in order.
pub open spec fn actions_of(phase: PhaseView, steps: Seq<Step>) -> Seq<StreamActionView>
    decreases steps.len(),
{
    if steps.len() == 0 {
        Seq::empty()
    } else {
        let before = phase_after(phase, steps.drop_last());
        let actions = actions_of(phase, steps.drop_last());
        match stream::transition(before, steps.last().event, steps.last().message_id) {
            Some((_, action)) => actions.push(action),
            None => actions,
        }
    }
}

/// What the consumer is handed by `action`.
pub open spec fn item_of(action: StreamActionView) -> Option<StreamActionView> {
    match action {
        StreamActionView::Fail { .. } => Some(action),
        StreamActionView::Emit(_) => Some(action),
        _ => None,
    }
}

/// What the consumer of a stream has been handed after `steps`.
pub open spec fn items_of(phase: PhaseView, steps: Seq<Step>) -> Seq<StreamActionView> {
    actions_of(phase, steps).filter_map(|action: StreamActionView| item_of(action))
}

/// The item that opens a stream.
pub open spec fn opening_item(
    conversation_id: Seq<char>,
    request_id: Seq<char>,
    run_id: Seq<char>,
) -> StreamActionView {
    StreamActionView::Emit(Some(events::init_view(conversation_id, request_id, run_id)))
}

/// An item that delivers an answer: it is not blank.
pub open spec fn is_answer_item(item: StreamActionView, context: ContextView) -> bool {
    exists|answer: Seq<char>, message_id: Seq<char>|
        !text::is_blank(answer) && item == StreamActionView::Emit(
            Some(#[trigger] events::client_actions_view(context, answer, message_id)),
        )
}

/// The item that closes a stream after an answer.
pub open spec fn done_item() -> StreamActionView {
    StreamActionView::Emit(Some(events::finished_view(ReasonView::Done)))
}

/// An item that closes a stream without an answer.
pub open spec fn is_error_item(item: StreamActionView) -> bool {
    exists|message: Seq<char>|
        item == StreamActionView::Emit(
            Some(events::finished_view(#[trigger] internal_error(message))),
        )
}

/// The reason of a stream that closes without an answer.
pub open spec fn internal_error(message: Seq<char>) -> ReasonView {
    ReasonView::InternalError { message }
}

/// Whether `items` are those of a stream that opened with `opening`, as far as it has come: after
/// that item there comes either an answer, and that the stream is done, or an error.
pub open spec fn in_order(
    items: Seq<StreamActionView>,
    opening: StreamActionView,
    context: ContextView,
) -> bool {
    &&& items.len() <= 3
    &&& items.len() >= 1 ==> items[0] == opening
    &&& items.len() == 2 ==> is_answer_item(items[1], context) || is_error_item(items[1])
    &&& items.len() == 3 ==> is_answer_item(items[1], context) && items[2] == done_item()
}

/// How many items a stream in `phase` has emitted, and which.
spec fn items_fit(
    phase: PhaseView,
    items: Seq<StreamActionView>,
    opening: StreamActionView,
    context: ContextView,
) -> bool {
    match phase {
        PhaseView::Refused { .. } => false,
        PhaseView::Opening { .. } => items.len() == 0,
        PhaseView::Requesting { context: c, .. } => c == context && items == seq![opening],
        PhaseView::AwaitingReply { context: c } => c == context && items == seq![opening],
        PhaseView::AwaitingFailure { .. } => items == seq![opening],
        PhaseView::AwaitingCompletion { context: c } => c == context && items == seq![opening],
        PhaseView::Closing => items.len() == 2 && items[0] == opening && is_answer_item(
            items[1],
            context,
        ),
        PhaseView::Ended => in_order(items, opening, context),
    }
}

/// One more action adds its item, where it has one.
proof fn lemma_items_push(actions: Seq<StreamActionView>, action: StreamActionView)
    ensures
        actions.push(action).filter_map(|action: StreamActionView| item_of(action))
            == actions.filter_map(|action: StreamActionView| item_of(action)) + (match item_of(
            action,
        ) {
            Some(item) => seq![item],
            None => Seq::empty(),
        }),
{
    assert(actions.push(action).drop_last() == actions);
}

/// The items of a stream after one more step.
proof fn lemma_items_step(phase: PhaseView, steps: Seq<Step>)
    requires
        steps.len() > 0,
    ensures
        ({
            let before = phase_after(phase, steps.drop_last());
            let items = items_of(phase, steps.drop_last());
            match stream::transition(before, steps.last().event, steps.last().message_id) {
                Some((after, action)) => {
                    &&& phase_after(phase, steps) == after
                    &&& items_of(phase, steps) == (match item_of(action) {
                        Some(item) => items.push(item),
                        None => items,
                    })
                },
                None => {
                    &&& phase_after(phase, steps) == before
                    &&& items_of(phase, steps) == items
                },
            }
        }),
{
    let before = phase_after(phase, steps.drop_last());
    let actions = actions_of(phase, steps.drop_last());
    if let Some((after, action)) = stream::transition(
        before,
        steps.last().event,
        steps.last().message_id,
    ) {
        lemma_items_push(actions, action);
        let items = items_of(phase, steps.drop_last());
        if let Some(item) = item_of(action) {
            assert(items + seq![item] == items.push(item));
        } else {
            assert(items + Seq::<StreamActionView>::empty() == items);
        }
    }
}

/// The items of an open stream fit its phase, whatever happens to it.
proof fn lemma_items_fit(start: PhaseView, steps: Seq<Step>)
    requires
        start is Opening,
    ensures
        start matches PhaseView::Opening {
            conversation_id,
            request_id,
            run_id,
            context,
            ..
        } && items_fit(
            phase_after(start, steps),
            items_of(start, steps),
            opening_item(conversation_id, request_id, run_id),
            context,
        ),
        phase_after(start, steps) is Opening ==> phase_after(start, steps) == start,
    decreases steps.len(),
{
    if let PhaseView::Opening { conversation_id, request_id, run_id, context, .. } = start {
        let opening = opening_item(conversation_id, request_id, run_id);
        if steps.len() > 0 {
            lemma_items_fit(start, steps.drop_last());
            lemma_items_step(start, steps);
            let before = phase_after(start, steps.drop_last());
            let items = items_of(start, steps.drop_last());
            let step = steps.last();
            if let Some((after, action)) = stream::transition(before, step.event, step.message_id) {
                let now = items_of(start, steps);
                match (before, action) {
                    (PhaseView::Opening { .. }, StreamActionView::Emit(_)) => {
                        assert(now == seq![opening]);
                    },
                    (PhaseView::AwaitingCompletion { .. }, StreamActionView::Emit(_)) => {
                        if let StreamEvent::CompletionParsed(completion) = step.event {
                            match endpoint::completion_result(completion) {
                                Ok(answer) => {
                                    assert(action == StreamActionView::Emit(
                                        Some(
                                            events::client_actions_view(
                                                context,
                                                answer,
                                                step.message_id,
                                            ),
                                        ),
                                    ));
                                    assert(is_answer_item(now[1], context));
                                },
                                Err(message) => {
                                    lemma_error_item(message);
                                },
                            }
                        }
                    },
                    (PhaseView::Requesting { .. }, StreamActionView::Emit(_)) => {
                        lemma_error_item(endpoint::no_base_url_message());
                    },
                    (PhaseView::AwaitingReply { .. }, StreamActionView::Emit(_)) => {
                        if let StreamEvent::Exchanged(Exchange::SendFailed { error }) = step.event {
                            lemma_error_item(endpoint::send_failed_message(error@));
                        }
                        if let StreamEvent::Exchanged(Exchange::ReadFailed { error }) = step.event {
                            lemma_error_item(endpoint::read_failed_message(error@));
                        }
                    },
                    (
                        PhaseView::AwaitingFailure { status, body },
                        StreamActionView::Emit(_),
                    ) => {
                        if let StreamEvent::FailureParsed(failure) = step.event {
                            lemma_error_item(
                                endpoint::refused_message(
                                    endpoint::status_text(status),
                                    body,
                                    failure,
                                ),
                            );
                        }
                    },
                    _ => {},
                }
            }
        } else {
            assert(items_of(start, steps).len() == 0);
        }
    }
}

/// Closing a stream with an error hands an error to its consumer.
proof fn lemma_error_item(message: Seq<char>)
    ensures
        is_error_item(stream::failed(message).1),
{
    assert(stream::failed(message).1 == StreamActionView::Emit(
        Some(events::finished_view(internal_error(message))),
    ));
}

/// The consumer of a stream that opens is handed, whatever happens: first how the stream is
/// called, under the identifiers that it was opened with, and then either an answer to the request
/// and that the stream is done, or an error. Nothing is left out in between, and nothing follows.
pub proof fn law_stream_order(
    params: RequestParams,
    conversation_id: Seq<char>,
    request_id: Seq<char>,
    run_id: Seq<char>,
    steps: Seq<Step>,
)
    requires
        request::answerable(params),
    ensures
        in_order(
            items_of(
                stream::first_phase(params, conversation_id, request_id, run_id),
                steps,
            ),
            opening_item(conversation_id, request_id, run_id),
            stream::answer_context(params, request_id, run_id),
        ),
{
    lemma_items_fit(stream::first_phase(params, conversation_id, request_id, run_id), steps);
}

/// The consumer of a stream that cannot be opened is handed one error, which says why, and nothing
/// else. Cancelling it changes nothing.
pub proof fn law_refused_stream(
    params: RequestParams,
    conversation_id: Seq<char>,
    request_id: Seq<char>,
    run_id: Seq<char>,
    steps: Seq<Step>,
)
    requires
        !request::answerable(params),
    ensures
        ({
            let start = stream::first_phase(params, conversation_id, request_id, run_id);
            let error = StreamActionView::Fail { message: stream::refusal_message(params)->0 };
            let polled = exists|i: int|
                0 <= i < steps.len() && (#[trigger] steps[i]).event is Polled;
            items_of(start, steps) == (if polled {
                seq![error]
            } else {
                Seq::empty()
            })
        }),
{
    let start = stream::first_phase(params, conversation_id, request_id, run_id);
    lemma_refused_items(start, stream::refusal_message(params)->0, steps);
}

/// What becomes of a refused stream.
proof fn lemma_refused_items(start: PhaseView, message: Seq<char>, steps: Seq<Step>)
    requires
        start == (PhaseView::Refused { message }),
    ensures
        (exists|i: int| 0 <= i < steps.len() && (#[trigger] steps[i]).event is Polled) ==> {
            &&& phase_after(start, steps) is Ended
            &&& items_of(start, steps) == seq![StreamActionView::Fail { message }]
        },
        !(exists|i: int| 0 <= i < steps.len() && (#[trigger] steps[i]).event is Polled) ==> {
            &&& phase_after(start, steps) == start
            &&& items_of(start, steps) == Seq::<StreamActionView>::empty()
        },
    decreases steps.len(),
{
    if steps.len() > 0 {
        let rest = steps.drop_last();
        lemma_refused_items(start, message, rest);
        lemma_items_step(start, steps);
        assert(steps[steps.len() - 1] == steps.last());
        if exists|i: int| 0 <= i < rest.len() && (#[trigger] rest[i]).event is Polled {
            let i = choose|i: int| 0 <= i < rest.len() && (#[trigger] rest[i]).event is Polled;
            assert(steps[i].event is Polled);
        } else if steps.last().event is Polled {
            assert(items_of(start, steps) == seq![StreamActionView::Fail { message }]);
        } else {
            assert forall|i: int| 0 <= i < steps.len() implies !(
            #[trigger] steps[i].event is Polled) by {
                if i < rest.len() {
                    assert(rest[i] == steps[i]);
                }
            }
        }
    } else {
        assert(items_of(start, steps) == Seq::<StreamActionView>::empty());
    }
}

/// Whether `actions` have no request among them.
pub open spec fn sends_nothing(actions: Seq<StreamActionView>) -> bool {
    forall|i: int| 0 <= i < actions.len() ==> !(#[trigger] actions[i] is Send)
}

/// Nothing is sent before a stream is open, and nothing is sent twice. What is sent is the request
/// that the stream was opened with.
pub proof fn law_sent_once(
    params: RequestParams,
    conversation_id: Seq<char>,
    request_id: Seq<char>,
    run_id: Seq<char>,
    steps: Seq<Step>,
)
    requires
        request::answerable(params),
    ensures
        ({
            let config = params.openai_compatible_config->0;
            let chat = request::chat_request(params, config)->0;
            let start = stream::first_phase(params, conversation_id, request_id, run_id);
            let actions = actions_of(start, steps);
            forall|i: int|
                0 <= i < actions.len() && #[trigger] actions[i] is Send ==> {
                    &&& i > 0
                    &&& Ok::<_, Seq<char>>(actions[i]->Send_0) == endpoint::http_request(
                        config,
                        chat,
                    )
                    &&& sends_nothing(actions.take(i))
                    &&& sends_nothing(actions.skip(i + 1))
                }
        }),
{
    let start = stream::first_phase(params, conversation_id, request_id, run_id);
    lemma_sent_once(start, steps);
    let actions = actions_of(start, steps);
    assert forall|i: int|
        0 <= i < actions.len() && #[trigger] actions[i] is Send implies sends_nothing(
        actions.take(i),
    ) && sends_nothing(actions.skip(i + 1)) by {
        assert forall|j: int| 0 <= j < actions.skip(i + 1).len() implies !(
        #[trigger] actions.skip(i + 1)[j] is Send) by {
            assert(actions.skip(i + 1)[j] == actions[i + 1 + j]);
        }
    }
}

/// A stream sends at most one request, and not before it is open.
proof fn lemma_sent_once(start: PhaseView, steps: Seq<Step>)
    requires
        start is Opening,
    ensures
        ({
            let actions = actions_of(start, steps);
            let phase = phase_after(start, steps);
            &&& phase is Opening ==> phase == start && actions.len() == 0
            &&& phase matches PhaseView::Requesting { config, request, .. } ==> {
                &&& start->Opening_config == config
                &&& start->Opening_request == request
                &&& actions.len() > 0
                &&& sends_nothing(actions)
            }
            &&& !(phase is Refused)
            &&& forall|i: int|
                0 <= i < actions.len() && #[trigger] actions[i] is Send ==> i > 0 && Ok::<
                    _,
                    Seq<char>,
                >(actions[i]->Send_0) == endpoint::http_request(
                    start->Opening_config,
                    start->Opening_request,
                )
            &&& forall|i: int, j: int|
                0 <= i < actions.len() && 0 <= j < actions.len() && #[trigger] actions[i] is Send
                    && #[trigger] actions[j] is Send ==> i == j
        }),
    decreases steps.len(),
{
    if steps.len() > 0 {
        lemma_sent_once(start, steps.drop_last());
    }
}

/// A stream that has ended stays so, and hands out nothing more.
pub proof fn law_end_is_final(steps: Seq<Step>)
    ensures
        phase_after(PhaseView::Ended, steps) == PhaseView::Ended,
        items_of(PhaseView::Ended, steps) == Seq::<StreamActionView>::empty(),
    decreases steps.len(),
{
    if steps.len() > 0 {
        law_end_is_final(steps.drop_last());
        lemma_items_step(PhaseView::Ended, steps);
    }
}

/// Whatever closes a stream is the last that it hands out.
pub proof fn law_closing_ends(
    phase: PhaseView,
    event: StreamEvent,
    message_id: Seq<char>,
    reason: ReasonView,
)
    ensures
        stream::transition(phase, event, message_id) matches Some((after, action)) ==> (action
            == StreamActionView::Emit(Some(events::finished_view(reason))) ==> after
            == PhaseView::Ended),
{
}

/// Cancelling an open stream ends it at once, however far it has come.
pub proof fn law_cancelling_ends(phase: PhaseView, message_id: Seq<char>)
    requires
        !(phase is Refused),
    ensures
        stream::transition(phase, StreamEvent::Cancelled, message_id) == Some(
            (PhaseView::Ended, StreamActionView::End),
        ),
{
}

/// How many steps a stream in `phase` has left at most.
pub open spec fn steps_left(phase: PhaseView) -> nat {
    match phase {
        PhaseView::Opening { .. } => 5,
        PhaseView::Requesting { .. } => 4,
        PhaseView::AwaitingReply { .. } => 3,
        PhaseView::AwaitingFailure { .. } => 2,
        PhaseView::AwaitingCompletion { .. } => 2,
        PhaseView::Closing => 1,
        PhaseView::Refused { .. } => 1,
        PhaseView::Ended => 0,
    }
}

/// Every step that fits brings a stream that has not ended nearer to its end.
pub proof fn law_progress(phase: PhaseView, event: StreamEvent, message_id: Seq<char>)
    ensures
        stream::transition(phase, event, message_id) matches Some((after, _)) ==> (phase is Ended
            || steps_left(after) < steps_left(phase)),
{
}

/// Every action can be answered: whatever comes of it, there is a next step.
pub proof fn law_no_dead_end(
    phase: PhaseView,
    event: StreamEvent,
    message_id: Seq<char>,
    exchange: Exchange,
    failure: Option<ErrorResponse>,
    completion: Result<ChatCompletionResponse, String>,
)
    ensures
        stream::transition(phase, event, message_id) matches Some((after, action)) ==> {
            let answer = match action {
                StreamActionView::Send(_) => StreamEvent::Exchanged(exchange),
                StreamActionView::ParseFailure { .. } => StreamEvent::FailureParsed(failure),
                StreamActionView::ParseCompletion { .. } => StreamEvent::CompletionParsed(
                    completion,
                ),
                _ => StreamEvent::Polled,
            };
            stream::transition(after, answer, message_id) is Some
        },
{
}

/// The phase and the actions after one more step that fits.
proof fn lemma_run_step(start: PhaseView, steps: Seq<Step>, step: Step)
    ensures
        stream::transition(phase_after(start, steps), step.event, step.message_id) matches Some(
            (after, action),
        ) ==> {
            &&& phase_after(start, steps.push(step)) == after
            &&& actions_of(start, steps.push(step)) == actions_of(start, steps).push(action)
        },
{
    assert(steps.push(step).drop_last() == steps);
}

/// A request that the endpoint accepts and answers with a text is answered with that text: the
/// stream opens, the request is sent, the body of the response is parsed, the answer is delivered,
/// and the stream is done and ends.
pub proof fn law_answered_request(
    params: RequestParams,
    conversation_id: Seq<char>,
    request_id: Seq<char>,
    run_id: Seq<char>,
    status: HttpStatus,
    body: String,
    completion: Result<ChatCompletionResponse, String>,
    answer: Seq<char>,
    message_id: Seq<char>,
)
    requires
        request::answerable(params),
        params.openai_compatible_config->0.base_url is Some,
        endpoint::success(status@),
        endpoint::completion_result(completion) == Ok::<Seq<char>, Seq<char>>(answer),
    ensures
        ({
            let config = params.openai_compatible_config->0;
            let start = stream::first_phase(params, conversation_id, request_id, run_id);
            let steps = seq![
                Step { event: StreamEvent::Polled, message_id },
                Step { event: StreamEvent::Polled, message_id },
                Step {
                    event: StreamEvent::Exchanged(Exchange::Replied { status, body }),
                    message_id,
                },
                Step { event: StreamEvent::CompletionParsed(completion), message_id },
                Step { event: StreamEvent::Polled, message_id },
                Step { event: StreamEvent::Polled, message_id },
            ];
            let context = stream::answer_context(params, request_id, run_id);
            actions_of(start, steps) == seq![
                opening_item(conversation_id, request_id, run_id),
                StreamActionView::Send(
                    endpoint::http_request(config, request::chat_request(params, config)->0)->Ok_0,
                ),
                StreamActionView::ParseCompletion { body: body@ },
                StreamActionView::Emit(
                    Some(events::client_actions_view(context, answer, message_id)),
                ),
                done_item(),
                StreamActionView::End,
            ]
        }),
{
    let start = stream::first_phase(params, conversation_id, request_id, run_id);
    let poll = Step { event: StreamEvent::Polled, message_id };
    let reply = Step {
        event: StreamEvent::Exchanged(Exchange::Replied { status, body }),
        message_id,
    };
    let parsed = Step { event: StreamEvent::CompletionParsed(completion), message_id };
    let none = Seq::<Step>::empty();
    lemma_run_step(start, none, poll);
    lemma_run_step(start, none.push(poll), poll);
    lemma_run_step(start, none.push(poll).push(poll), reply);
    lemma_run_step(start, none.push(poll).push(poll).push(reply), parsed);
    lemma_run_step(start, none.push(poll).push(poll).push(reply).push(parsed), poll);
    lemma_run_step(start, none.push(poll).push(poll).push(reply).push(parsed).push(poll), poll);
    assert(none.push(poll).push(poll).push(reply).push(parsed).push(poll).push(poll) == seq![
        poll,
        poll,
        reply,
        parsed,
        poll,
        poll,
    ]);
}

/// A request that the endpoint refuses is answered with an error that shows the status and why the
/// request was refused: what the endpoint says itself, if that was understood, and else the whole
/// body of the response.
pub proof fn law_refused_request(
    params: RequestParams,
    conversation_id: Seq<char>,
    request_id: Seq<char>,
    run_id: Seq<char>,
    status: HttpStatus,
    body: String,
    failure: Option<ErrorResponse>,
    message_id: Seq<char>,
)
    requires
        request::answerable(params),
        params.openai_compatible_config->0.base_url is Some,
        !endpoint::success(status@),
    ensures
        ({
            let config = params.openai_compatible_config->0;
            let start = stream::first_phase(params, conversation_id, request_id, run_id);
            let steps = seq![
                Step { event: StreamEvent::Polled, message_id },
                Step { event: StreamEvent::Polled, message_id },
                Step {
                    event: StreamEvent::Exchanged(Exchange::Replied { status, body }),
                    message_id,
                },
                Step { event: StreamEvent::FailureParsed(failure), message_id },
                Step { event: StreamEvent::Polled, message_id },
            ];
            let shown = endpoint::status_text(status@);
            actions_of(start, steps) == seq![
                opening_item(conversation_id, request_id, run_id),
                StreamActionView::Send(
                    endpoint::http_request(config, request::chat_request(params, config)->0)->Ok_0,
                ),
                StreamActionView::ParseFailure { body: body@ },
                StreamActionView::Emit(
                    Some(
                        events::finished_view(
                            internal_error(endpoint::refused_message(shown, body@, failure)),
                        ),
                    ),
                ),
                StreamActionView::End,
            ]
        }),
{
    let start = stream::first_phase(params, conversation_id, request_id, run_id);
    let poll = Step { event: StreamEvent::Polled, message_id };
    let reply = Step {
        event: StreamEvent::Exchanged(Exchange::Replied { status, body }),
        message_id,
    };
    let parsed = Step { event: StreamEvent::FailureParsed(failure), message_id };
    let none = Seq::<Step>::empty();
    lemma_run_step(start, none, poll);
    lemma_run_step(start, none.push(poll), poll);
    lemma_run_step(start, none.push(poll).push(poll), reply);
    lemma_run_step(start, none.push(poll).push(poll).push(reply), parsed);
    lemma_run_step(start, none.push(poll).push(poll).push(reply).push(parsed), poll);
    assert(none.push(poll).push(poll).push(reply).push(parsed).push(poll) == seq![
        poll,
        poll,
        reply,
        parsed,
        poll,
    ]);
}

/// How every error begins.
pub open spec fn error_prefix() -> Seq<char> {
    "OpenAI-compatible endpoint "@
}

/// Every error says that it is about the endpoint: those that close a stream, and those of a
/// stream that cannot be opened.
pub proof fn law_errors_name_endpoint(
    phase: PhaseView,
    event: StreamEvent,
    message_id: Seq<char>,
    message: Seq<char>,
    params: RequestParams,
)
    ensures
        stream::transition(phase, event, message_id) matches Some((_, action)) ==> (action
            == StreamActionView::Emit(Some(events::finished_view(internal_error(message))))
            ==> error_prefix().is_prefix_of(message)),
        stream::refusal_message(params) matches Some(refusal) ==> error_prefix().is_prefix_of(
            refusal,
        ),
{
    reveal_strlit("OpenAI-compatible endpoint ");
    reveal_strlit("OpenAI-compatible endpoint is missing a base URL.");
    reveal_strlit("OpenAI-compatible endpoint request failed: ");
    reveal_strlit("OpenAI-compatible endpoint response read failed: ");
    reveal_strlit("OpenAI-compatible endpoint returned ");
    reveal_strlit("OpenAI-compatible endpoint response was not valid JSON: ");
    reveal_strlit("OpenAI-compatible endpoint returned an empty response.");
    reveal_strlit("OpenAI-compatible endpoint is not configured.");
    reveal_strlit("OpenAI-compatible endpoint only supports text user queries.");
    let prefix = error_prefix();
    assert(prefix.is_prefix_of(endpoint::no_base_url_message()));
    assert(prefix.is_prefix_of("OpenAI-compatible endpoint request failed: "@));
    assert(prefix.is_prefix_of("OpenAI-compatible endpoint response read failed: "@));
    assert(prefix.is_prefix_of("OpenAI-compatible endpoint returned "@));
    assert(prefix.is_prefix_of("OpenAI-compatible endpoint response was not valid JSON: "@));
    assert(prefix.is_prefix_of(endpoint::empty_message()));
    assert(prefix.is_prefix_of("OpenAI-compatible endpoint is not configured."@));
    assert(prefix.is_prefix_of("OpenAI-compatible endpoint only supports text user queries."@));
    match (phase, event) {
        (
            PhaseView::AwaitingReply { .. },
            StreamEvent::Exchanged(Exchange::SendFailed { error }),
        ) => {
            lemma_prefix_of_longer(
                prefix,
                "OpenAI-compatible endpoint request failed: "@,
                error@,
            );
        },
        (
            PhaseView::AwaitingReply { .. },
            StreamEvent::Exchanged(Exchange::ReadFailed { error }),
        ) => {
            lemma_prefix_of_longer(
                prefix,
                "OpenAI-compatible endpoint response read failed: "@,
                error@,
            );
        },
        (PhaseView::AwaitingFailure { status, body }, StreamEvent::FailureParsed(failure)) => {
            let head = "OpenAI-compatible endpoint returned "@;
            let shown = endpoint::status_text(status);
            lemma_prefix_of_longer(prefix, head, shown);
            lemma_prefix_of_longer(prefix, head + shown, ": "@);
            lemma_prefix_of_longer(
                prefix,
                head + shown + ": "@,
                endpoint::refusal(body, failure),
            );
        },
        (PhaseView::AwaitingCompletion { .. }, StreamEvent::CompletionParsed(Err(error))) => {
            lemma_prefix_of_longer(
                prefix,
                "OpenAI-compatible endpoint response was not valid JSON: "@,
                error@,
            );
        },
        _ => {},
    }
}

/// What a text begins with it still begins with when more is appended.
proof fn lemma_prefix_of_longer(prefix: Seq<char>, s: Seq<char>, more: Seq<char>)
    requires
        prefix.is_prefix_of(s),
    ensures
        prefix.is_prefix_of(s + more),
{
    assert((s + more).subrange(0, prefix.len() as int) == s.subrange(0, prefix.len() as int));
}

} // verus!
