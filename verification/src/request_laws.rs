//! What a request comes to, said of its fields.

use vstd::prelude::*;

use crate::api::{Message, MessageBody, SystemQuery, SystemQueryType, Task};
use crate::endpoint;
use crate::request;
use crate::request::{
    AIAgentInput, ChatMessageView, ChatRequestView, OpenAICompatibleConfig, RequestParams,
    SYSTEM_PROMPT,
};
use crate::text;

verus! {

/// White space is what Unicode lists as such.
pub proof fn law_white_space(c: char)
    ensures
        text::is_white_space(c) <==> {
            ||| 0x9 <= c as int <= 0xd
            ||| c as int == 0x20
            ||| c as int == 0x85
            ||| c as int == 0xa0
            ||| c as int == 0x1680
            ||| 0x2000 <= c as int <= 0x200a
            ||| c as int == 0x2028
            ||| c as int == 0x2029
            ||| c as int == 0x202f
            ||| c as int == 0x205f
            ||| c as int == 0x3000
        },
{
}

/// A text is blank exactly where each of its characters is white space.
pub proof fn law_blank(s: Seq<char>)
    ensures
        text::is_blank(s) <==> !exists|i: int|
            0 <= i < s.len() && !text::is_white_space(#[trigger] s[i]),
{
    if text::is_blank(s) {
        assert forall|i: int| 0 <= i < s.len() implies text::is_white_space(#[trigger] s[i]) by {}
    }
}

/// Trimming takes the white space around a text away, and nothing else.
pub proof fn law_trimmed(before: Seq<char>, core: Seq<char>, after: Seq<char>)
    requires
        forall|i: int| 0 <= i < before.len() ==> text::is_white_space(#[trigger] before[i]),
        forall|i: int| 0 <= i < after.len() ==> text::is_white_space(#[trigger] after[i]),
        core.len() > 0 ==> !text::is_white_space(core.first()) && !text::is_white_space(
            core.last(),
        ),
    ensures
        text::trimmed(before + core + after) == core,
{
    text::lemma_trimmed_padding(before, core, after);
}

/// What is taken from the end of a text is a run of one character, all of it, and nothing else.
pub proof fn law_without_trailing(core: Seq<char>, c: char, count: nat)
    requires
        core.len() > 0 ==> core.last() != c,
    ensures
        text::without_trailing(core + Seq::new(count, |i: int| c), c) == core,
    decreases count,
{
    let all = core + Seq::new(count, |i: int| c);
    if count == 0 {
        assert(all == core);
    } else {
        law_without_trailing(core, c, (count - 1) as nat);
        assert(all.drop_last() == core + Seq::new((count - 1) as nat, |i: int| c));
    }
}

/// Take a base URL apart into the white space around it, the slashes at its end, and what is left.
/// Where that already ends with the path of the completions, it is the URL. Else the URL is what
/// is left and then the path, with nothing in between.
pub proof fn law_url(before: Seq<char>, core: Seq<char>, slashes: nat, after: Seq<char>)
    requires
        forall|i: int| 0 <= i < before.len() ==> text::is_white_space(#[trigger] before[i]),
        forall|i: int| 0 <= i < after.len() ==> text::is_white_space(#[trigger] after[i]),
        core.len() > 0 ==> !text::is_white_space(core.first()) && core.last() != '/',
        core.len() > 0 && slashes == 0 ==> !text::is_white_space(core.last()),
    ensures
        ({
            let path = "/chat/completions"@;
            let url = endpoint::endpoint_url(
                before + (core + Seq::new(slashes, |i: int| '/')) + after,
            );
            if core.len() >= path.len() && core.skip(core.len() - path.len()) == path {
                url == core
            } else {
                &&& url == core + path
                &&& url.take(url.len() - path.len()) == core
            }
        }),
        endpoint::bare_url(before + (core + Seq::new(slashes, |i: int| '/')) + after) == core,
{
    let path = "/chat/completions"@;
    let body = core + Seq::new(slashes, |i: int| '/');
    if body.len() > 0 {
        if core.len() > 0 {
            assert(body.first() == core.first());
        } else {
            assert(body.first() == '/');
        }
        if slashes > 0 {
            assert(body.last() == '/');
        } else {
            assert(body == core);
        }
    }
    law_trimmed(before, body, after);
    law_without_trailing(core, '/', slashes);
    assert((core + path).take((core + path).len() - path.len()) == core);
    if core.len() >= path.len() {
        assert(core.skip(core.len() - path.len()) == core.subrange(
            core.len() - path.len(),
            core.len() as int,
        ));
    }
}

/// Where a base URL, without the white space around it and the slashes at its end, does not end
/// with the path of the completions, it is what the URL holds before its last 17 characters.
pub proof fn law_url_keeps_base(base_url: Seq<char>)
    ensures
        ({
            let bare = text::without_trailing(text::trimmed(base_url), '/');
            let url = endpoint::endpoint_url(base_url);
            &&& !"/chat/completions"@.is_suffix_of(bare) ==> url.len() == bare.len() + 17 && url.take(
                url.len() - 17,
            ) == bare && url.skip(url.len() - 17) == "/chat/completions"@
            &&& "/chat/completions"@.is_suffix_of(bare) ==> url == bare
        }),
{
    reveal_strlit("/chat/completions");
    let bare = text::without_trailing(text::trimmed(base_url), '/');
    let path = "/chat/completions"@;
    assert((bare + path).take(bare.len() as int) == bare);
    assert((bare + path).skip(bare.len() as int) == path);
}

/// An input with a query carries that query, be it empty. Any other input carries none.
pub proof fn law_query(input: AIAgentInput)
    ensures
        input is UserQuery ==> request::query_of(input) == Some(input->query@),
        input is Other ==> request::query_of(input) is None,
{
}

/// There is a latest query exactly where some input has a query.
pub proof fn law_some_query(inputs: Seq<AIAgentInput>)
    ensures
        request::latest_query(inputs) is Some <==> exists|i: int|
            0 <= i < inputs.len() && #[trigger] inputs[i] is UserQuery,
    decreases inputs.len(),
{
    if inputs.len() > 0 {
        let rest = inputs.drop_last();
        law_some_query(rest);
        assert(inputs[inputs.len() - 1] == inputs.last());
        if exists|i: int| 0 <= i < rest.len() && #[trigger] rest[i] is UserQuery {
            let i = choose|i: int| 0 <= i < rest.len() && #[trigger] rest[i] is UserQuery;
            assert(inputs[i] is UserQuery);
        }
        if exists|i: int| 0 <= i < inputs.len() && #[trigger] inputs[i] is UserQuery {
            let i = choose|i: int| 0 <= i < inputs.len() && #[trigger] inputs[i] is UserQuery;
            if i < rest.len() {
                assert(rest[i] is UserQuery);
            }
        }
    }
}

/// The latest query is that of the input after which no other has one.
pub proof fn law_query_is_latest(inputs: Seq<AIAgentInput>, i: int)
    requires
        0 <= i < inputs.len(),
        inputs[i] is UserQuery,
        forall|j: int| i < j < inputs.len() ==> #[trigger] inputs[j] is Other,
    ensures
        request::latest_query(inputs) == Some(inputs[i]->query@),
    decreases inputs.len(),
{
    assert(inputs[inputs.len() - 1] == inputs.last());
    if i < inputs.len() - 1 {
        assert(inputs.last() is Other);
        assert forall|j: int| i < j < inputs.drop_last().len() implies #[trigger]
            inputs.drop_last()[j] is Other by {
            assert(inputs[j] is Other);
        }
        law_query_is_latest(inputs.drop_last(), i);
    }
}

/// The endpoint is used exactly where it is configured and some input has a query, whatever else
/// the request holds.
pub proof fn law_used(params: RequestParams)
    ensures
        request::answerable(params) <==> params.openai_compatible_config is Some && exists|i: int|
            0 <= i < params.input@.len() && #[trigger] params.input@[i] is UserQuery,
{
    law_some_query(params.input@);
}

/// Whether the endpoint is used depends on the configuration and the input alone.
pub proof fn law_use_depends_on(a: RequestParams, b: RequestParams)
    requires
        a.openai_compatible_config is Some == b.openai_compatible_config is Some,
        a.input@ == b.input@,
    ensures
        request::answerable(a) == request::answerable(b),
{
    law_used(a);
    law_used(b);
}

/// The text of a request made on behalf of the user is what it carries; only that of a clone is
/// put in words.
pub proof fn law_system_text(query: SystemQuery)
    ensures
        query.kind matches Some(SystemQueryType::AutoCodeDiff { query: asked })
            ==> request::system_text(query) == Some(asked@),
        query.kind matches Some(SystemQueryType::CreateNewProject { query: asked })
            ==> request::system_text(query) == Some(asked@),
        query.kind matches Some(SystemQueryType::CloneRepository { url })
            ==> request::system_text(query) == Some("Clone "@ + url@),
        query.kind matches Some(SystemQueryType::SummarizeConversation { prompt })
            ==> request::system_text(query) == Some(prompt@),
        query.kind == Some(SystemQueryType::Other) ==> request::system_text(query) is None,
        query.kind is None ==> request::system_text(query) is None,
{
}

/// What is shown of a message depends on its body alone: a query is the user's, an output is the
/// assistant's, and a request made on behalf of the user is the user's.
pub proof fn law_shown_message(message: Message)
    ensures
        message.message matches Some(MessageBody::UserQuery(asked))
            ==> request::chat_message(message) == Some(
            ChatMessageView { role: "user"@, content: asked.query@ },
        ),
        message.message matches Some(MessageBody::AgentOutput(output))
            ==> request::chat_message(message) == Some(
            ChatMessageView { role: "assistant"@, content: output.text@ },
        ),
        message.message matches Some(MessageBody::SystemQuery(query))
            ==> request::chat_message(message) == (match query.kind {
            Some(SystemQueryType::AutoCodeDiff { query: asked }) => Some(
                ChatMessageView { role: "user"@, content: asked@ },
            ),
            Some(SystemQueryType::CreateNewProject { query: asked }) => Some(
                ChatMessageView { role: "user"@, content: asked@ },
            ),
            Some(SystemQueryType::CloneRepository { url }) => Some(
                ChatMessageView { role: "user"@, content: "Clone "@ + url@ },
            ),
            Some(SystemQueryType::SummarizeConversation { prompt }) => Some(
                ChatMessageView { role: "user"@, content: prompt@ },
            ),
            Some(SystemQueryType::Other) => None,
            None => None,
        }),
        message.message matches Some(MessageBody::Other(_))
            ==> request::chat_message(message) is None,
        message.message is None ==> request::chat_message(message) is None,
{
}

/// No tasks have no history.
pub proof fn law_no_tasks()
    ensures
        request::history(Seq::empty()) == Seq::<ChatMessageView>::empty(),
{
}

/// A further task without messages adds nothing to the history.
pub proof fn law_empty_task(tasks: Seq<Task>, task: Task)
    requires
        task.messages@.len() == 0,
    ensures
        request::history(tasks.push(task)) == request::history(tasks),
{
    let shown = |task: Task| request::task_history(task);
    tasks.lemma_flat_map_push(shown, task);
    assert(request::task_history(task) == Seq::<ChatMessageView>::empty());
}

/// One more message in the last task adds what is shown of it to the end of the history, whatever
/// else the tasks hold.
pub proof fn law_message_appended(tasks: Seq<Task>, shorter: Task, longer: Task, message: Message)
    requires
        longer.messages@ == shorter.messages@.push(message),
    ensures
        message.message matches Some(MessageBody::UserQuery(asked)) ==> request::history(
            tasks.push(longer),
        ) == request::history(tasks.push(shorter)).push(
            ChatMessageView { role: "user"@, content: asked.query@ },
        ),
        message.message matches Some(MessageBody::AgentOutput(output)) ==> request::history(
            tasks.push(longer),
        ) == request::history(tasks.push(shorter)).push(
            ChatMessageView { role: "assistant"@, content: output.text@ },
        ),
        message.message matches Some(MessageBody::SystemQuery(query)) ==> request::history(
            tasks.push(longer),
        ) == (match query.kind {
            Some(SystemQueryType::AutoCodeDiff { query: asked }) => request::history(
                tasks.push(shorter),
            ).push(ChatMessageView { role: "user"@, content: asked@ }),
            Some(SystemQueryType::CreateNewProject { query: asked }) => request::history(
                tasks.push(shorter),
            ).push(ChatMessageView { role: "user"@, content: asked@ }),
            Some(SystemQueryType::CloneRepository { url }) => request::history(
                tasks.push(shorter),
            ).push(ChatMessageView { role: "user"@, content: "Clone "@ + url@ }),
            Some(SystemQueryType::SummarizeConversation { prompt }) => request::history(
                tasks.push(shorter),
            ).push(ChatMessageView { role: "user"@, content: prompt@ }),
            Some(SystemQueryType::Other) => request::history(tasks.push(shorter)),
            None => request::history(tasks.push(shorter)),
        }),
        message.message matches Some(MessageBody::Other(_)) ==> request::history(
            tasks.push(longer),
        ) == request::history(tasks.push(shorter)),
        message.message is None ==> request::history(tasks.push(longer)) == request::history(
            tasks.push(shorter),
        ),
{
    let shown = |task: Task| request::task_history(task);
    tasks.lemma_flat_map_push(shown, shorter);
    tasks.lemma_flat_map_push(shown, longer);
    law_shown_message(message);
    let earlier = request::history(tasks);
    assert(longer.messages@.drop_last() == shorter.messages@);
    match request::chat_message(message) {
        Some(added) => {
            assert(request::task_history(longer) == request::task_history(shorter) + seq![added]);
            assert(earlier + request::task_history(longer) == (earlier + request::task_history(
                shorter,
            )).push(added));
        },
        None => {
            assert(request::task_history(longer) == request::task_history(shorter));
        },
    }
}

/// The history depends on the bodies of the messages alone: not on what else the messages and the
/// tasks hold.
pub proof fn law_history_depends_on(a: Seq<Task>, b: Seq<Task>)
    requires
        a.len() == b.len(),
        forall|i: int|
            0 <= i < a.len() ==> (#[trigger] a[i]).messages@.len() == b[i].messages@.len(),
        forall|i: int, j: int|
            0 <= i < a.len() && 0 <= j < a[i].messages@.len() ==> (
            #[trigger] a[i].messages@[j]).message == b[i].messages@[j].message,
    ensures
        request::history(a) == request::history(b),
    decreases a.len(),
{
    if a.len() > 0 {
        let shown = |task: Task| request::task_history(task);
        let last = a.len() - 1;
        law_history_depends_on(a.drop_last(), b.drop_last());
        assert(a.drop_last().push(a.last()) == a);
        assert(b.drop_last().push(b.last()) == b);
        a.drop_last().lemma_flat_map_push(shown, a.last());
        b.drop_last().lemma_flat_map_push(shown, b.last());
        assert(a[last].messages@.len() == b[last].messages@.len());
        lemma_shown_depends_on(a[last].messages@, b[last].messages@);
    } else {
        assert(a == b);
    }
}

/// What is shown of messages depends on their bodies alone.
proof fn lemma_shown_depends_on(a: Seq<Message>, b: Seq<Message>)
    requires
        a.len() == b.len(),
        forall|j: int| 0 <= j < a.len() ==> (#[trigger] a[j]).message == b[j].message,
    ensures
        request::shown_messages(a) == request::shown_messages(b),
    decreases a.len(),
{
    if a.len() > 0 {
        lemma_shown_depends_on(a.drop_last(), b.drop_last());
        assert(a[a.len() - 1].message == b[b.len() - 1].message);
        law_shown_message(a.last());
        law_shown_message(b.last());
    }
}

/// A task that holds a query and then an output is shown as the two of them, in that order.
pub proof fn law_turn_is_shown(task: Task)
    requires
        task.messages@.len() == 2,
        task.messages@[0].message matches Some(MessageBody::UserQuery(_)),
        task.messages@[1].message matches Some(MessageBody::AgentOutput(_)),
    ensures
        task.messages@[0].message matches Some(MessageBody::UserQuery(asked)) && (
        task.messages@[1].message matches Some(MessageBody::AgentOutput(output))
            && request::history(seq![task]) == seq![
            ChatMessageView { role: "user"@, content: asked.query@ },
            ChatMessageView { role: "assistant"@, content: output.text@ },
        ]),
{
    let shown = |task: Task| request::task_history(task);
    seq![task].lemma_flat_map_singleton(shown);
    let messages = task.messages@;
    let first = messages.drop_last();
    assert(first.last() == messages[0]);
    assert(messages.last() == messages[1]);
    assert(request::shown_messages(first.drop_last()) == Seq::<ChatMessageView>::empty());
    law_shown_message(messages[0]);
    law_shown_message(messages[1]);
    assert(request::shown_messages(first) == request::shown_messages(first.drop_last()) + seq![
        request::chat_message(messages[0])->0,
    ]);
    assert(request::shown_messages(messages) == request::shown_messages(first) + seq![
        request::chat_message(messages[1])->0,
    ]);
}

/// A request asks the configured model, and else the one of the parameters. Its messages are the
/// system prompt, the history, and the query of the last input that has one.
pub proof fn law_request(params: RequestParams, config: OpenAICompatibleConfig, i: int)
    requires
        0 <= i < params.input@.len(),
        params.input@[i] is UserQuery,
        forall|j: int| i < j < params.input@.len() ==> #[trigger] params.input@[j] is Other,
    ensures
        request::chat_request(params, config) matches Some(chat) && {
            &&& config.model matches Some(model) ==> chat.model == model@
            &&& config.model is None ==> chat.model == params.model@
            &&& chat.messages == seq![
                ChatMessageView { role: "system"@, content: SYSTEM_PROMPT@ },
            ] + request::history(params.tasks@) + seq![
                ChatMessageView { role: "user"@, content: params.input@[i]->query@ },
            ]
            &&& !chat.stream
        },
{
    law_query_is_latest(params.input@, i);
}

/// There is no request exactly where no input has a query.
pub proof fn law_no_request(params: RequestParams, config: OpenAICompatibleConfig)
    ensures
        request::chat_request(params, config) is None <==> forall|i: int|
            0 <= i < params.input@.len() ==> #[trigger] params.input@[i] is Other,
{
    law_some_query(params.input@);
    if request::chat_request(params, config) is None {
        assert forall|i: int| 0 <= i < params.input@.len() implies #[trigger]
            params.input@[i] is Other by {
            assert(!(params.input@[i] is UserQuery));
        }
    }
}

/// What is sent goes to the URL that the base URL leads to, with the key where there is one that
/// is not empty, and with the request as it is. Without a base URL nothing is sent.
pub proof fn law_sent(config: OpenAICompatibleConfig, chat: ChatRequestView)
    ensures
        config.base_url matches Some(base_url) ==> (endpoint::http_request(
            config,
            chat,
        ) matches Ok(call) && {
            &&& call.url == endpoint::endpoint_url(base_url@)
            &&& call.body == chat
            &&& config.api_key matches Some(key) ==> call.bearer == (if key@.len() > 0 {
                Some(key@)
            } else {
                None
            })
            &&& config.api_key is None ==> call.bearer is None
        }),
        config.base_url is None ==> endpoint::http_request(config, chat) == Err::<
            endpoint::HttpRequestView,
            Seq<char>,
        >("OpenAI-compatible endpoint is missing a base URL."@),
{
}

} // verus!
