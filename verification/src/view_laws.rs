//! What the models show of the values they stand for.

use vstd::prelude::*;

use crate::api;
use crate::api::{
    Action, ActionView, ClientAction, EventView, Message, MessageBody, MessageBodyView, Reason,
    ReasonView, ResponseEvent, ResponseEventType, Task,
};
use crate::endpoint;
use crate::endpoint::HttpRequest;
use crate::events::ClientActionContext;
use crate::request::{ChatCompletionMessage, ChatCompletionRequest};
use crate::stream::{StreamAction, StreamActionView};

verus! {

/// The views of items are those of the items, one for one and in order.
pub proof fn law_views<T: View>(items: Seq<T>)
    ensures
        api::views(items).len() == items.len(),
        forall|i: int| 0 <= i < items.len() ==> #[trigger] api::views(items)[i] == items[i]@,
{
}

/// There is a view exactly where there is an item, and it is the view of that item.
pub proof fn law_opt_view<T: View>(item: Option<T>)
    ensures
        api::opt_view(item) is Some <==> item is Some,
        item is Some ==> api::opt_view(item)->0 == item->0@,
{
}

/// A chat completion request is shown with its model, its messages and whether it streams.
pub proof fn law_chat_request_view(chat: ChatCompletionRequest)
    ensures
        chat@.model == chat.model@,
        chat@.messages.len() == chat.messages@.len(),
        forall|i: int|
            0 <= i < chat.messages@.len() ==> (#[trigger] chat@.messages[i]).role
                == chat.messages@[i].role@ && chat@.messages[i].content
                == chat.messages@[i].content@,
        chat@.stream == chat.stream,
{
}

/// A chat message is shown with its role and its content.
pub proof fn law_chat_message_view(message: ChatCompletionMessage)
    ensures
        message@.role == message.role@,
        message@.content == message.content@,
{
}

/// A request to the endpoint is shown with its URL, its key and its body.
pub proof fn law_http_request_view(call: HttpRequest)
    ensures
        call@.url == call.url@,
        call@.bearer is Some <==> call.bearer is Some,
        call.bearer is Some ==> call@.bearer->0 == call.bearer->0@,
        call@.body == call.body@,
{
}

/// A result is shown as what it is, with its text.
pub proof fn law_result_view(result: Result<String, String>)
    ensures
        result matches Ok(answer) ==> endpoint::result_view(result) == Ok::<Seq<char>, Seq<char>>(
            answer@,
        ),
        result matches Err(message) ==> endpoint::result_view(result) == Err::<
            Seq<char>,
            Seq<char>,
        >(message@),
{
}

/// A context is shown with each of its fields.
pub proof fn law_context_view(context: ClientActionContext)
    ensures
        context@.task_id == context.task_id@,
        context@.request_id == context.request_id@,
        context@.create_task == context.create_task,
        context@.task_description == context.task_description@,
{
}

/// A message is shown with each of its fields.
pub proof fn law_message_view(message: Message)
    ensures
        message@.id == message.id@,
        message@.task_id == message.task_id@,
        message@.request_id == message.request_id@,
        message@.timestamp is Some <==> message.timestamp is Some,
        message.timestamp is Some ==> message@.timestamp->0 == message.timestamp->0.bytes@,
        message@.server_message_data == message.server_message_data@,
        message@.citations.len() == message.citations@.len(),
        forall|i: int|
            0 <= i < message.citations@.len() ==> #[trigger] message@.citations[i]
                == message.citations@[i].bytes@,
        message.message is None <==> message@.message is None,
        message.message matches Some(MessageBody::UserQuery(asked)) ==> message@.message == Some(
            MessageBodyView::UserQuery(asked.query@),
        ),
        message.message matches Some(MessageBody::AgentOutput(output)) ==> message@.message
            == Some(MessageBodyView::AgentOutput(output.text@)),
        message.message matches Some(MessageBody::Other(content)) ==> message@.message == Some(
            MessageBodyView::Other(content.bytes@),
        ),
        message.message matches Some(MessageBody::SystemQuery(_)) ==> message@.message matches Some(
            MessageBodyView::SystemQuery(_),
        ),
{
}

/// A task is shown with each of its fields.
pub proof fn law_task_view(task: Task)
    ensures
        task@.id == task.id@,
        task@.description == task.description@,
        task@.dependencies is Some <==> task.dependencies is Some,
        task.dependencies is Some ==> task@.dependencies->0 == task.dependencies->0.bytes@,
        task@.messages.len() == task.messages@.len(),
        forall|i: int|
            0 <= i < task.messages@.len() ==> #[trigger] task@.messages[i] == task.messages@[i]@,
        task@.summary == task.summary@,
        task@.server_data == task.server_data@,
{
}

/// An action of the client is shown with the task it makes, or with the messages it adds and the
/// task it adds them to.
pub proof fn law_action_view(client_action: ClientAction)
    ensures
        client_action.action is None <==> client_action@ is None,
        client_action.action matches Some(Action::CreateTask(create)) ==> (
        client_action@ matches Some(ActionView::CreateTask { task }) && {
            &&& task is Some <==> create.task is Some
            &&& task is Some ==> task->0 == create.task->0@
        }),
        client_action.action matches Some(Action::AddMessagesToTask(added)) ==> (
        client_action@ matches Some(ActionView::AddMessagesToTask { task_id, messages }) && {
            &&& task_id == added.task_id@
            &&& messages.len() == added.messages@.len()
            &&& forall|i: int|
                0 <= i < messages.len() ==> #[trigger] messages[i] == added.messages@[i]@
        }),
{
}

/// A reason is shown as what it is, with its message.
pub proof fn law_reason_view(reason: Reason)
    ensures
        reason is Done <==> reason@ is Done,
        reason matches Reason::InternalError { message } ==> reason@ == (
        ReasonView::InternalError { message: message@ }),
{
}

/// An event is shown as what it is, with each of its fields.
pub proof fn law_event_view(event: ResponseEvent)
    ensures
        event.kind is None <==> event@ is None,
        event.kind matches Some(ResponseEventType::Init(init)) ==> event@ == Some(
            EventView::Init {
                conversation_id: init.conversation_id@,
                request_id: init.request_id@,
                run_id: init.run_id@,
            },
        ),
        event.kind matches Some(ResponseEventType::ClientActions(changes)) ==> (
        event@ matches Some(EventView::ClientActions { actions }) && {
            &&& actions.len() == changes.actions@.len()
            &&& forall|i: int|
                0 <= i < actions.len() ==> #[trigger] actions[i] == changes.actions@[i]@
        }),
        event.kind matches Some(ResponseEventType::Finished(finished)) ==> (
        event@ matches Some(
            EventView::Finished {
                token_usage,
                should_refresh_model_config,
                request_cost,
                conversation_usage_metadata,
                reason,
            },
        ) && {
            &&& token_usage.len() == finished.token_usage@.len()
            &&& forall|i: int|
                0 <= i < token_usage.len() ==> #[trigger] token_usage[i]
                    == finished.token_usage@[i].bytes@
            &&& should_refresh_model_config == finished.should_refresh_model_config
            &&& request_cost is Some <==> finished.request_cost is Some
            &&& request_cost is Some ==> request_cost->0 == finished.request_cost->0.bytes@
            &&& conversation_usage_metadata is Some
                <==> finished.conversation_usage_metadata is Some
            &&& conversation_usage_metadata is Some ==> conversation_usage_metadata->0
                == finished.conversation_usage_metadata->0.bytes@
            &&& reason is Some <==> finished.reason is Some
            &&& reason is Some ==> reason->0 == finished.reason->0@
        }),
{
}

/// What is to be done for a stream is shown as what it is, with what it is to be done with.
pub proof fn law_stream_action_view(action: StreamAction)
    ensures
        action matches StreamAction::Fail { message } ==> action@ == (StreamActionView::Fail {
            message: message@,
        }),
        action matches StreamAction::Emit(event) ==> action@ == StreamActionView::Emit(event@),
        action matches StreamAction::Send(call) ==> action@ == StreamActionView::Send(call@),
        action matches StreamAction::ParseFailure { body } ==> action@ == (
        StreamActionView::ParseFailure { body: body@ }),
        action matches StreamAction::ParseCompletion { body } ==> action@ == (
        StreamActionView::ParseCompletion { body: body@ }),
        action is End <==> action@ is End,
{
}

} // verus!
