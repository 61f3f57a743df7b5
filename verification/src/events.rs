//! The events that a response stream is made of.

use vstd::prelude::*;

use crate::api;
use crate::api::{
    Action, ActionView, AddMessagesToTask, AgentOutput, ClientAction, ClientActions, CreateTask,
    EventView, Message, MessageBody, MessageBodyView, MessageView, Reason, ReasonView,
    ResponseEvent, ResponseEventType, StreamFinished, StreamInit, Task, TaskView,
};
use crate::ids;

verus! {

/// Where an answer goes.
#[derive(Clone, Debug, PartialEq, Eq)]
pub struct ClientActionContext {
    pub task_id: String,
    pub request_id: String,
    pub create_task: bool,
    pub task_description: String,
}

/// The model of a [`ClientActionContext`].
pub struct ContextView {
    pub task_id: Seq<char>,
    pub request_id: Seq<char>,
    pub create_task: bool,
    pub task_description: Seq<char>,
}

impl View for ClientActionContext {
    type V = ContextView;

    open spec fn view(&self) -> ContextView {
        ContextView {
            task_id: self.task_id@,
            request_id: self.request_id@,
            create_task: self.create_task,
            task_description: self.task_description@,
        }
    }
}

/// The event that opens a stream.
pub open spec fn init_view(
    conversation_id: Seq<char>,
    request_id: Seq<char>,
    run_id: Seq<char>,
) -> EventView {
    EventView::Init { conversation_id, request_id, run_id }
}

/// The task that an answer is put in where there is none yet: it has no messages.
pub open spec fn new_task(context: ContextView) -> TaskView {
    TaskView {
        id: context.task_id,
        description: context.task_description,
        dependencies: None,
        messages: Seq::empty(),
        summary: Seq::empty(),
        server_data: Seq::empty(),
    }
}

/// The message that holds an answer.
pub open spec fn answer_message(
    context: ContextView,
    text: Seq<char>,
    message_id: Seq<char>,
) -> MessageView {
    MessageView {
        id: message_id,
        task_id: context.task_id,
        request_id: context.request_id,
        timestamp: None,
        server_message_data: Seq::empty(),
        citations: Seq::empty(),
        message: Some(MessageBodyView::AgentOutput(text)),
    }
}

/// The action that makes a task for an answer.
pub open spec fn create_task_action(context: ContextView) -> ActionView {
    ActionView::CreateTask { task: Some(new_task(context)) }
}

/// The action that puts an answer in its task.
pub open spec fn answer_action(
    context: ContextView,
    text: Seq<char>,
    message_id: Seq<char>,
) -> ActionView {
    ActionView::AddMessagesToTask {
        task_id: context.task_id,
        messages: seq![answer_message(context, text, message_id)],
    }
}

/// The event that delivers an answer: the task is made first, where there is none yet.
pub open spec fn client_actions_view(
    context: ContextView,
    text: Seq<char>,
    message_id: Seq<char>,
) -> EventView {
    EventView::ClientActions {
        actions: if context.create_task {
            seq![
                Some(create_task_action(context)),
                Some(answer_action(context, text, message_id)),
            ]
        } else {
            seq![Some(answer_action(context, text, message_id))]
        },
    }
}

/// The event that closes a stream.
pub open spec fn finished_view(reason: ReasonView) -> EventView {
    EventView::Finished {
        token_usage: Seq::empty(),
        should_refresh_model_config: false,
        request_cost: None,
        conversation_usage_metadata: None,
        reason: Some(reason),
    }
}

/// The event that opens a stream.
pub fn init_event(conversation_id: String, request_id: String, run_id: String) -> (event:
    ResponseEvent)
    ensures
        event@ == Some(init_view(conversation_id@, request_id@, run_id@)),
{
    ResponseEvent {
        kind: Some(ResponseEventType::Init(StreamInit { conversation_id, request_id, run_id })),
    }
}

/// The event that delivers the answer `text` in a message with the identifier `message_id`.
pub fn client_actions_event_with_id(
    context: &ClientActionContext,
    text: String,
    message_id: String,
) -> (event: ResponseEvent)
    ensures
        event@ == Some(client_actions_view(context@, text@, message_id@)),
{
    let mut actions: Vec<ClientAction> = Vec::new();
    if context.create_task {
        let task = Task {
            id: context.task_id.clone(),
            description: context.task_description.clone(),
            dependencies: None,
            messages: Vec::new(),
            summary: String::new(),
            server_data: String::new(),
        };
        proof {
            assert(task@.messages == Seq::<MessageView>::empty());
        }
        actions.push(
            ClientAction { action: Some(Action::CreateTask(CreateTask { task: Some(task) })) },
        );
    }
    let message = Message {
        id: message_id,
        task_id: context.task_id.clone(),
        request_id: context.request_id.clone(),
        timestamp: None,
        server_message_data: String::new(),
        citations: Vec::new(),
        message: Some(MessageBody::AgentOutput(AgentOutput { text })),
    };
    proof {
        assert(message@.citations == Seq::<Seq<u8>>::empty());
    }
    let mut messages: Vec<Message> = Vec::new();
    messages.push(message);
    proof {
        assert(api::views(messages@) == seq![answer_message(context@, text@, message_id@)]);
    }
    actions.push(
        ClientAction {
            action: Some(
                Action::AddMessagesToTask(
                    AddMessagesToTask { task_id: context.task_id.clone(), messages },
                ),
            ),
        },
    );
    proof {
        let expected = client_actions_view(context@, text@, message_id@);
        assert(api::views(actions@) == expected->actions);
    }
    ResponseEvent { kind: Some(ResponseEventType::ClientActions(ClientActions { actions })) }
}

/// The event that delivers the answer `text` in a message with a fresh identifier.
pub fn client_actions_event(context: &ClientActionContext, text: String) -> (event: ResponseEvent)
    ensures
        exists|message_id: Seq<char>|
            ids::is_random_uuid(message_id) && event@ == Some(
                #[trigger] client_actions_view(context@, text@, message_id),
            ),
{
    let message_id = ids::fresh_id();
    client_actions_event_with_id(context, text, message_id)
}

/// The event that closes a stream.
pub fn finished_event(reason: Reason) -> (event: ResponseEvent)
    ensures
        event@ == Some(finished_view(reason@)),
{
    let token_usage: Vec<api::Encoded> = Vec::new();
    proof {
        assert(api::views(token_usage@) == Seq::<Seq<u8>>::empty());
    }
    ResponseEvent {
        kind: Some(
            ResponseEventType::Finished(
                StreamFinished {
                    token_usage,
                    should_refresh_model_config: false,
                    request_cost: None,
                    conversation_usage_metadata: None,
                    reason: Some(reason),
                },
            ),
        ),
    }
}

} // verus!
