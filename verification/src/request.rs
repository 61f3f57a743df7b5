//! What a request to the agent holds, and the chat completion request made from it.

use vstd::prelude::*;

use crate::api;
use crate::api::{Message, MessageBody, SystemQuery, SystemQueryType, Task};
use crate::text::joined;

verus! {

/// What the endpoint is told before the conversation.
pub const SYSTEM_PROMPT: &'static str = "You are replying inside Warp Agent through a local OpenAI-compatible endpoint. Provide useful terminal and coding help in plain text. This local compatibility mode cannot run commands, edit files, or call tools directly.";

/// Where the endpoint is, and how to talk to it.
#[derive(Debug, PartialEq, Eq)]
pub struct OpenAICompatibleConfig {
    pub base_url: Option<String>,
    pub api_key: Option<String>,
    pub model: Option<String>,
}

impl Clone for OpenAICompatibleConfig {
    fn clone(&self) -> (copy: Self)
        ensures
            copy == *self,
    {
        OpenAICompatibleConfig {
            base_url: clone_opt(&self.base_url),
            api_key: clone_opt(&self.api_key),
            model: clone_opt(&self.model),
        }
    }
}

/// An input of a request to the agent.
#[derive(Clone, Debug, PartialEq, Eq)]
pub enum AIAgentInput {
    /// An input with a query of the user.
    UserQuery { query: String },
    /// An input without one, such as the result of an action.
    Other,
}

/// A request to the agent.
#[derive(Clone, Debug, PartialEq, Eq)]
pub struct RequestParams {
    pub input: Vec<AIAgentInput>,
    pub conversation_token: Option<String>,
    pub ambient_agent_task_id: Option<String>,
    pub tasks: Vec<Task>,
    pub model: String,
    pub openai_compatible_config: Option<OpenAICompatibleConfig>,
}

/// A message of a chat completion request.
#[derive(Clone, Debug, PartialEq, Eq)]
pub struct ChatCompletionMessage {
    pub role: String,
    pub content: String,
}

/// A chat completion request.
#[derive(Clone, Debug, PartialEq, Eq)]
pub struct ChatCompletionRequest {
    pub model: String,
    pub messages: Vec<ChatCompletionMessage>,
    pub stream: bool,
}

/// The model of a [`ChatCompletionMessage`].
pub struct ChatMessageView {
    pub role: Seq<char>,
    pub content: Seq<char>,
}

impl View for ChatCompletionMessage {
    type V = ChatMessageView;

    open spec fn view(&self) -> ChatMessageView {
        ChatMessageView { role: self.role@, content: self.content@ }
    }
}

/// The model of a [`ChatCompletionRequest`].
pub struct ChatRequestView {
    pub model: Seq<char>,
    pub messages: Seq<ChatMessageView>,
    pub stream: bool,
}

impl View for ChatCompletionRequest {
    type V = ChatRequestView;

    open spec fn view(&self) -> ChatRequestView {
        ChatRequestView {
            model: self.model@,
            messages: api::views(self.messages@),
            stream: self.stream,
        }
    }
}

/// The query of the user that `input` carries.
pub open spec fn query_of(input: AIAgentInput) -> Option<Seq<char>> {
    match input {
        AIAgentInput::UserQuery { query } => Some(query@),
        AIAgentInput::Other => None,
    }
}

/// The query of the last of `inputs` that carries one.
pub open spec fn latest_query(inputs: Seq<AIAgentInput>) -> Option<Seq<char>>
    decreases inputs.len(),
{
    if inputs.len() == 0 {
        None
    } else {
        match query_of(inputs.last()) {
            Some(query) => Some(query),
            None => latest_query(inputs.drop_last()),
        }
    }
}

/// The text of a request made on behalf of the user.
pub open spec fn system_text(query: SystemQuery) -> Option<Seq<char>> {
    match query.kind {
        Some(SystemQueryType::AutoCodeDiff { query }) => Some(query@),
        Some(SystemQueryType::CreateNewProject { query }) => Some(query@),
        Some(SystemQueryType::CloneRepository { url }) => Some("Clone "@ + url@),
        Some(SystemQueryType::SummarizeConversation { prompt }) => Some(prompt@),
        Some(SystemQueryType::Other) => None,
        None => None,
    }
}

/// A message that the user wrote, or that was written for the user.
pub open spec fn user_message(content: Seq<char>) -> ChatMessageView {
    ChatMessageView { role: "user"@, content }
}

/// A message that the agent wrote.
pub open spec fn assistant_message(content: Seq<char>) -> ChatMessageView {
    ChatMessageView { role: "assistant"@, content }
}

/// The message that precedes the conversation.
pub open spec fn system_message() -> ChatMessageView {
    ChatMessageView { role: "system"@, content: SYSTEM_PROMPT@ }
}

/// What the endpoint is shown of `message`.
pub open spec fn chat_message(message: Message) -> Option<ChatMessageView> {
    match message.message {
        Some(MessageBody::UserQuery(query)) => Some(user_message(query.query@)),
        Some(MessageBody::AgentOutput(output)) => Some(assistant_message(output.text@)),
        Some(MessageBody::SystemQuery(query)) => match system_text(query) {
            Some(content) => Some(user_message(content)),
            None => None,
        },
        Some(MessageBody::Other(_)) => None,
        None => None,
    }
}

/// What the endpoint is shown of `messages`, in order.
pub open spec fn shown_messages(messages: Seq<Message>) -> Seq<ChatMessageView> {
    messages.filter_map(|message: Message| chat_message(message))
}

/// What the endpoint is shown of `task`.
pub open spec fn task_history(task: Task) -> Seq<ChatMessageView> {
    shown_messages(task.messages@)
}

/// What the endpoint is shown of `tasks`: the messages of one task after those of another.
pub open spec fn history(tasks: Seq<Task>) -> Seq<ChatMessageView> {
    tasks.flat_map(|task: Task| task_history(task))
}

/// The model that is asked: the configured one, if there is one.
pub open spec fn chosen_model(params: RequestParams, config: OpenAICompatibleConfig) -> Seq<char> {
    match config.model {
        Some(model) => model@,
        None => params.model@,
    }
}

/// The chat completion request for `params`. There is one where some input carries a query.
pub open spec fn chat_request(
    params: RequestParams,
    config: OpenAICompatibleConfig,
) -> Option<ChatRequestView> {
    match latest_query(params.input@) {
        Some(query) => Some(
            ChatRequestView {
                model: chosen_model(params, config),
                messages: seq![system_message()] + history(params.tasks@) + seq![
                    user_message(query),
                ],
                stream: false,
            },
        ),
        None => None,
    }
}

/// Whether `params` can be answered by the endpoint.
pub open spec fn answerable(params: RequestParams) -> bool {
    params.openai_compatible_config is Some && latest_query(params.input@) is Some
}

/// A copy of `text`.
pub(crate) fn clone_opt(text: &Option<String>) -> (copy: Option<String>)
    ensures
        copy == *text,
{
    match text {
        Some(value) => Some(value.clone()),
        None => None,
    }
}

impl AIAgentInput {
    /// The query of the user that the input carries.
    pub fn user_query(&self) -> (query: Option<String>)
        ensures
            api::opt_view(query) == query_of(*self),
    {
        match self {
            AIAgentInput::UserQuery { query } => Some(query.clone()),
            AIAgentInput::Other => None,
        }
    }
}

/// The query of the last input that carries one.
pub fn latest_user_query(params: &RequestParams) -> (query: Option<String>)
    ensures
        api::opt_view(query) == latest_query(params.input@),
{
    let mut rest: usize = params.input.len();
    proof {
        assert(params.input@.take(rest as int) == params.input@);
    }
    while rest > 0
        invariant
            rest <= params.input.len(),
            latest_query(params.input@) == latest_query(params.input@.take(rest as int)),
        decreases rest,
    {
        proof {
            assert(params.input@.take(rest as int).drop_last() == params.input@.take(rest - 1));
        }
        if let Some(query) = params.input[rest - 1].user_query() {
            return Some(query);
        }
        rest = rest - 1;
    }
    None
}

/// Whether the endpoint is configured and the request holds a query for it.
pub fn should_use(params: &RequestParams) -> (b: bool)
    ensures
        b == answerable(*params),
{
    params.openai_compatible_config.is_some() && latest_user_query(params).is_some()
}

/// The text of a request made on behalf of the user. Requests of the other kinds have none.
pub fn system_query_text(query: &SystemQuery) -> (text: Option<String>)
    ensures
        api::opt_view(text) == system_text(*query),
{
    match &query.kind {
        Some(SystemQueryType::AutoCodeDiff { query }) => Some(query.clone()),
        Some(SystemQueryType::CreateNewProject { query }) => Some(query.clone()),
        Some(SystemQueryType::CloneRepository { url }) => Some(joined("Clone ", url.as_str())),
        Some(SystemQueryType::SummarizeConversation { prompt }) => Some(prompt.clone()),
        Some(SystemQueryType::Other) => None,
        None => None,
    }
}

/// What the endpoint is shown of `message`. Messages without a text are left out.
pub fn chat_message_from_api_message(message: &Message) -> (shown: Option<ChatCompletionMessage>)
    ensures
        api::opt_view(shown) == chat_message(*message),
{
    match &message.message {
        Some(MessageBody::UserQuery(query)) => Some(
            ChatCompletionMessage { role: "user".to_string(), content: query.query.clone() },
        ),
        Some(MessageBody::AgentOutput(output)) => Some(
            ChatCompletionMessage { role: "assistant".to_string(), content: output.text.clone() },
        ),
        Some(MessageBody::SystemQuery(query)) => match system_query_text(query) {
            Some(content) => Some(ChatCompletionMessage { role: "user".to_string(), content }),
            None => None,
        },
        Some(MessageBody::Other(_)) => None,
        None => None,
    }
}

/// The chat completion request for `params`: the system prompt, what the tasks hold, and the
/// latest query. There is none where no input carries a query.
pub fn build_chat_completion_request(
    params: &RequestParams,
    config: &OpenAICompatibleConfig,
) -> (request: Option<ChatCompletionRequest>)
    ensures
        api::opt_view(request) == chat_request(*params, *config),
{
    let mut messages: Vec<ChatCompletionMessage> = Vec::new();
    messages.push(
        ChatCompletionMessage {
            role: "system".to_string(),
            content: SYSTEM_PROMPT.to_string(),
        },
    );
    let ghost task_text = |task: Task| task_history(task);
    let ghost message_text = |message: Message| chat_message(message);
    let mut i: usize = 0;
    proof {
        assert(params.tasks@.take(0).flat_map(task_text) == Seq::<ChatMessageView>::empty());
    }
    while i < params.tasks.len()
        invariant
            i <= params.tasks.len(),
            task_text == (|task: Task| task_history(task)),
            message_text == (|message: Message| chat_message(message)),
            api::views(messages@) == seq![system_message()] + params.tasks@.take(
                i as int,
            ).flat_map(task_text),
        decreases params.tasks.len() - i,
    {
        let task = &params.tasks[i];
        let ghost before = api::views(messages@);
        let mut j: usize = 0;
        proof {
            assert(task.messages@.take(0).filter_map(message_text) == Seq::<
                ChatMessageView,
            >::empty());
            assert(before + task.messages@.take(0).filter_map(message_text) == before);
        }
        while j < task.messages.len()
            invariant
                j <= task.messages.len(),
                message_text == (|message: Message| chat_message(message)),
                api::views(messages@) == before + task.messages@.take(j as int).filter_map(
                    message_text,
                ),
            decreases task.messages.len() - j,
        {
            proof {
                task.messages@.lemma_filter_map_take_succ(message_text, j as int);
            }
            let ghost so_far = messages@;
            if let Some(message) = chat_message_from_api_message(&task.messages[j]) {
                messages.push(message);
                proof {
                    assert(api::views(messages@) == api::views(so_far).push(message@));
                }
            }
            j = j + 1;
        }
        proof {
            assert(task.messages@.take(j as int) == task.messages@);
            params.tasks@.lemma_flat_map_take_append(task_text, i as int);
            assert(api::views(messages@) == seq![system_message()] + params.tasks@.take(
                i + 1,
            ).flat_map(task_text));
        }
        i = i + 1;
    }
    proof {
        assert(params.tasks@.take(i as int) == params.tasks@);
    }
    let query = match latest_user_query(params) {
        Some(query) => query,
        None => return None,
    };
    let ghost so_far = messages@;
    messages.push(ChatCompletionMessage { role: "user".to_string(), content: query });
    proof {
        assert(api::views(messages@) == api::views(so_far).push(user_message(query@)));
        assert(api::views(messages@) == seq![system_message()] + history(params.tasks@) + seq![
            user_message(query@),
        ]);
    }
    let model = match &config.model {
        Some(model) => model.clone(),
        None => params.model.clone(),
    };
    Some(ChatCompletionRequest { model, messages, stream: false })
}

} // verus!
