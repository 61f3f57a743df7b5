//! Tasks, the messages in them, and the events that a response stream carries.
//!
//! Submessages that this library hands on without reading them are kept in their wire form.

use vstd::prelude::*;

verus! {

/// A submessage in its wire form.
#[derive(Clone, Debug, PartialEq, Eq)]
pub struct Encoded {
    pub bytes: Vec<u8>,
}

impl View for Encoded {
    type V = Seq<u8>;

    open spec fn view(&self) -> Seq<u8> {
        self.bytes@
    }
}

/// The views of the items of `items`, in order.
pub open spec fn views<T: View>(items: Seq<T>) -> Seq<T::V> {
    items.map_values(|item: T| item@)
}

/// The view of the item of `item`, where there is one.
pub open spec fn opt_view<T: View>(item: Option<T>) -> Option<T::V> {
    match item {
        Some(value) => Some(value@),
        None => None,
    }
}

/// What a user asked.
#[derive(Clone, Debug, PartialEq, Eq)]
pub struct UserQuery {
    pub query: String,
}

/// What the agent answered.
#[derive(Clone, Debug, PartialEq, Eq)]
pub struct AgentOutput {
    pub text: String,
}

/// A request that the application made on behalf of the user.
#[derive(Clone, Debug, PartialEq, Eq)]
pub struct SystemQuery {
    pub kind: Option<SystemQueryType>,
}

/// The requests that the application makes on behalf of the user.
#[derive(Clone, Debug, PartialEq, Eq)]
pub enum SystemQueryType {
    AutoCodeDiff { query: String },
    CreateNewProject { query: String },
    CloneRepository { url: String },
    SummarizeConversation { prompt: String },
    /// Any other request: none of them has a text.
    Other,
}

/// What a message holds.
#[derive(Clone, Debug, PartialEq, Eq)]
pub enum MessageBody {
    UserQuery(UserQuery),
    AgentOutput(AgentOutput),
    SystemQuery(SystemQuery),
    /// Any other content, such as a tool call or its result.
    Other(Encoded),
}

/// A message of a task.
#[derive(Clone, Debug, PartialEq, Eq)]
pub struct Message {
    pub id: String,
    pub task_id: String,
    pub request_id: String,
    pub timestamp: Option<Encoded>,
    pub server_message_data: String,
    pub citations: Vec<Encoded>,
    pub message: Option<MessageBody>,
}

/// A task: a conversation, or a part of one.
#[derive(Clone, Debug, PartialEq, Eq)]
pub struct Task {
    pub id: String,
    pub description: String,
    pub dependencies: Option<Encoded>,
    pub messages: Vec<Message>,
    pub summary: String,
    pub server_data: String,
}

/// The model of a [`SystemQueryType`].
pub enum SystemQueryTypeView {
    AutoCodeDiff { query: Seq<char> },
    CreateNewProject { query: Seq<char> },
    CloneRepository { url: Seq<char> },
    SummarizeConversation { prompt: Seq<char> },
    Other,
}

impl View for SystemQueryType {
    type V = SystemQueryTypeView;

    open spec fn view(&self) -> SystemQueryTypeView {
        match self {
            SystemQueryType::AutoCodeDiff { query } => SystemQueryTypeView::AutoCodeDiff {
                query: query@,
            },
            SystemQueryType::CreateNewProject { query } => SystemQueryTypeView::CreateNewProject {
                query: query@,
            },
            SystemQueryType::CloneRepository { url } => SystemQueryTypeView::CloneRepository {
                url: url@,
            },
            SystemQueryType::SummarizeConversation {
                prompt,
            } => SystemQueryTypeView::SummarizeConversation { prompt: prompt@ },
            SystemQueryType::Other => SystemQueryTypeView::Other,
        }
    }
}

/// The model of a [`MessageBody`].
pub enum MessageBodyView {
    UserQuery(Seq<char>),
    AgentOutput(Seq<char>),
    SystemQuery(Option<SystemQueryTypeView>),
    Other(Seq<u8>),
}

impl View for MessageBody {
    type V = MessageBodyView;

    open spec fn view(&self) -> MessageBodyView {
        match self {
            MessageBody::UserQuery(query) => MessageBodyView::UserQuery(query.query@),
            MessageBody::AgentOutput(output) => MessageBodyView::AgentOutput(output.text@),
            MessageBody::SystemQuery(query) => MessageBodyView::SystemQuery(opt_view(query.kind)),
            MessageBody::Other(content) => MessageBodyView::Other(content@),
        }
    }
}

/// The model of a [`Message`].
pub struct MessageView {
    pub id: Seq<char>,
    pub task_id: Seq<char>,
    pub request_id: Seq<char>,
    pub timestamp: Option<Seq<u8>>,
    pub server_message_data: Seq<char>,
    pub citations: Seq<Seq<u8>>,
    pub message: Option<MessageBodyView>,
}

impl View for Message {
    type V = MessageView;

    open spec fn view(&self) -> MessageView {
        MessageView {
            id: self.id@,
            task_id: self.task_id@,
            request_id: self.request_id@,
            timestamp: opt_view(self.timestamp),
            server_message_data: self.server_message_data@,
            citations: views(self.citations@),
            message: opt_view(self.message),
        }
    }
}

/// The model of a [`Task`].
pub struct TaskView {
    pub id: Seq<char>,
    pub description: Seq<char>,
    pub dependencies: Option<Seq<u8>>,
    pub messages: Seq<MessageView>,
    pub summary: Seq<char>,
    pub server_data: Seq<char>,
}

impl View for Task {
    type V = TaskView;

    open spec fn view(&self) -> TaskView {
        TaskView {
            id: self.id@,
            description: self.description@,
            dependencies: opt_view(self.dependencies),
            messages: views(self.messages@),
            summary: self.summary@,
            server_data: self.server_data@,
        }
    }
}

/// Opens a stream: the identifiers that its conversation, request and run go by.
#[derive(Clone, Debug, PartialEq, Eq)]
pub struct StreamInit {
    pub conversation_id: String,
    pub request_id: String,
    pub run_id: String,
}

/// Adds a task to the conversation.
#[derive(Clone, Debug, PartialEq, Eq)]
pub struct CreateTask {
    pub task: Option<Task>,
}

/// Appends messages to a task.
#[derive(Clone, Debug, PartialEq, Eq)]
pub struct AddMessagesToTask {
    pub task_id: String,
    pub messages: Vec<Message>,
}

/// A change that the client makes to its conversation.
#[derive(Clone, Debug, PartialEq, Eq)]
pub enum Action {
    CreateTask(CreateTask),
    AddMessagesToTask(AddMessagesToTask),
}

/// A change that the client makes to its conversation, where there is one.
#[derive(Clone, Debug, PartialEq, Eq)]
pub struct ClientAction {
    pub action: Option<Action>,
}

/// Changes that the client makes to its conversation, in order.
#[derive(Clone, Debug, PartialEq, Eq)]
pub struct ClientActions {
    pub actions: Vec<ClientAction>,
}

/// Why a stream finished.
#[derive(Clone, Debug, PartialEq, Eq)]
pub enum Reason {
    Done,
    InternalError { message: String },
}

/// Closes a stream.
#[derive(Clone, Debug, PartialEq, Eq)]
pub struct StreamFinished {
    pub token_usage: Vec<Encoded>,
    pub should_refresh_model_config: bool,
    pub request_cost: Option<Encoded>,
    pub conversation_usage_metadata: Option<Encoded>,
    pub reason: Option<Reason>,
}

/// The kinds of event in a response stream.
#[derive(Clone, Debug, PartialEq, Eq)]
pub enum ResponseEventType {
    Init(StreamInit),
    ClientActions(ClientActions),
    Finished(StreamFinished),
}

/// An event of a response stream.
#[derive(Clone, Debug, PartialEq, Eq)]
pub struct ResponseEvent {
    pub kind: Option<ResponseEventType>,
}

/// The model of an [`Action`].
pub enum ActionView {
    CreateTask { task: Option<TaskView> },
    AddMessagesToTask { task_id: Seq<char>, messages: Seq<MessageView> },
}

impl View for Action {
    type V = ActionView;

    open spec fn view(&self) -> ActionView {
        match self {
            Action::CreateTask(create) => ActionView::CreateTask { task: opt_view(create.task) },
            Action::AddMessagesToTask(add_messages) => ActionView::AddMessagesToTask {
                task_id: add_messages.task_id@,
                messages: views(add_messages.messages@),
            },
        }
    }
}

impl View for ClientAction {
    type V = Option<ActionView>;

    open spec fn view(&self) -> Option<ActionView> {
        opt_view(self.action)
    }
}

/// The model of a [`Reason`].
pub enum ReasonView {
    Done,
    InternalError { message: Seq<char> },
}

impl View for Reason {
    type V = ReasonView;

    open spec fn view(&self) -> ReasonView {
        match self {
            Reason::Done => ReasonView::Done,
            Reason::InternalError { message } => ReasonView::InternalError { message: message@ },
        }
    }
}

/// The model of a [`ResponseEventType`].
pub enum EventView {
    Init { conversation_id: Seq<char>, request_id: Seq<char>, run_id: Seq<char> },
    ClientActions { actions: Seq<Option<ActionView>> },
    Finished {
        token_usage: Seq<Seq<u8>>,
        should_refresh_model_config: bool,
        request_cost: Option<Seq<u8>>,
        conversation_usage_metadata: Option<Seq<u8>>,
        reason: Option<ReasonView>,
    },
}

impl View for ResponseEventType {
    type V = EventView;

    open spec fn view(&self) -> EventView {
        match self {
            ResponseEventType::Init(init) => EventView::Init {
                conversation_id: init.conversation_id@,
                request_id: init.request_id@,
                run_id: init.run_id@,
            },
            ResponseEventType::ClientActions(actions) => EventView::ClientActions {
                actions: views(actions.actions@),
            },
            ResponseEventType::Finished(finished) => EventView::Finished {
                token_usage: views(finished.token_usage@),
                should_refresh_model_config: finished.should_refresh_model_config,
                request_cost: opt_view(finished.request_cost),
                conversation_usage_metadata: opt_view(finished.conversation_usage_metadata),
                reason: opt_view(finished.reason),
            },
        }
    }
}

impl View for ResponseEvent {
    type V = Option<EventView>;

    open spec fn view(&self) -> Option<EventView> {
        opt_view(self.kind)
    }
}

} // verus!
