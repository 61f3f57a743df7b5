use openai_compatible::api::{
    AgentOutput, Encoded, Message, MessageBody, SystemQuery, SystemQueryType, Task, UserQuery,
};
use openai_compatible::endpoint::{chat_completions_url, request_chat_completion};
use openai_compatible::request::{
    build_chat_completion_request, chat_message_from_api_message, latest_user_query, should_use,
    system_query_text, AIAgentInput, OpenAICompatibleConfig, RequestParams, SYSTEM_PROMPT,
};
use openai_compatible::text::{ends_with, is_white_space_char, joined, trim, trim_trailing};

fn request_params(input: Vec<AIAgentInput>, tasks: Vec<Task>) -> RequestParams {
    RequestParams {
        input,
        conversation_token: None,
        ambient_agent_task_id: None,
        tasks,
        model: "warp-model".to_string(),
        openai_compatible_config: None,
    }
}

fn user_query(query: &str) -> AIAgentInput {
    AIAgentInput::UserQuery {
        query: query.to_string(),
    }
}

fn message(body: Option<MessageBody>) -> Message {
    Message {
        id: "message-1".to_string(),
        task_id: "task-1".to_string(),
        request_id: String::new(),
        timestamp: None,
        server_message_data: String::new(),
        citations: vec![],
        message: body,
    }
}

fn task(id: &str, messages: Vec<Message>) -> Task {
    Task {
        id: id.to_string(),
        description: String::new(),
        dependencies: None,
        messages,
        summary: String::new(),
        server_data: String::new(),
    }
}

fn asked(query: &str) -> Message {
    message(Some(MessageBody::UserQuery(UserQuery {
        query: query.to_string(),
    })))
}

fn answered(text: &str) -> Message {
    message(Some(MessageBody::AgentOutput(AgentOutput {
        text: text.to_string(),
    })))
}

fn system(kind: Option<SystemQueryType>) -> Message {
    message(Some(MessageBody::SystemQuery(SystemQuery { kind })))
}

fn config() -> OpenAICompatibleConfig {
    OpenAICompatibleConfig {
        base_url: Some("http://localhost:8080/v1".to_string()),
        api_key: None,
        model: None,
    }
}

#[test]
fn builds_chat_completions_url_from_base_url() {
    assert_eq!(
        chat_completions_url("http://localhost:8080/v1/"),
        "http://localhost:8080/v1/chat/completions"
    );
    assert_eq!(
        chat_completions_url("http://localhost:8080/v1/chat/completions"),
        "http://localhost:8080/v1/chat/completions"
    );
}

#[test]
fn builds_request_with_history_and_model_override() {
    let task = Task {
        id: "task-1".to_string(),
        description: String::new(),
        dependencies: None,
        messages: vec![Message {
            id: "message-1".to_string(),
            task_id: "task-1".to_string(),
            request_id: String::new(),
            timestamp: None,
            server_message_data: String::new(),
            citations: vec![],
            message: Some(MessageBody::AgentOutput(AgentOutput {
                text: "Previous answer".to_string(),
            })),
        }],
        summary: String::new(),
        server_data: String::new(),
    };
    let params = request_params(vec![user_query("Next question")], vec![task]);
    let config = OpenAICompatibleConfig {
        base_url: Some("http://localhost:8080/v1".to_string()),
        api_key: None,
        model: Some("gpt-local".to_string()),
    };

    let request = build_chat_completion_request(&params, &config).unwrap();

    assert_eq!(request.model, "gpt-local");
    assert_eq!(request.messages[1].role, "assistant");
    assert_eq!(request.messages[1].content, "Previous answer");
    assert_eq!(request.messages.last().unwrap().content, "Next question");
}

#[test]
fn url_drops_white_space_and_slashes() {
    let expected = "http://localhost/v1/chat/completions";
    assert_eq!(chat_completions_url("  http://localhost/v1//\n"), expected);
    assert_eq!(chat_completions_url("\u{3000}http://localhost/v1\t"), expected);
    assert_eq!(
        chat_completions_url("http://localhost/v1/chat/completions///"),
        expected
    );
    assert_eq!(chat_completions_url(expected), expected);
}

#[test]
fn url_of_degenerate_bases() {
    assert_eq!(chat_completions_url(""), "/chat/completions");
    assert_eq!(chat_completions_url(" // "), "/chat/completions");
    assert_eq!(chat_completions_url("chat/completions"), "chat/completions/chat/completions");
    assert_eq!(chat_completions_url("h /"), "h /chat/completions");
    assert_eq!(
        chat_completions_url("http://x//chat/completions"),
        "http://x//chat/completions"
    );
}

#[test]
fn white_space_is_that_of_unicode() {
    for code in 0..=0x10ffffu32 {
        if let Some(c) = char::from_u32(code) {
            assert_eq!(is_white_space_char(c), c.is_whitespace());
        }
    }
}

#[test]
fn trimming_agrees_with_std() {
    let samples = [
        "", " ", "a", " a", "a ", " a b ", "\u{a0}\u{2003}x\u{85}", "\u{200b}x\u{200b}", "é/ ",
        "//", "a//", "/a/", "日本 //",
    ];
    for s in samples {
        assert_eq!(trim(s), s.trim());
        assert_eq!(trim_trailing(s, '/'), s.trim_end_matches('/'));
        for suffix in ["", "/", "a", " ", "本 //", "longer than any of them"] {
            assert_eq!(ends_with(s, suffix), s.ends_with(suffix));
        }
        assert_eq!(joined(s, "é"), format!("{s}é"));
    }
}

#[test]
fn request_frames_the_history() {
    let params = request_params(
        vec![user_query("Old"), user_query("New"), AIAgentInput::Other],
        vec![
            task("one", vec![asked("A"), answered("B")]),
            task("two", vec![]),
            task("three", vec![message(None), asked("C")]),
        ],
    );
    let request = build_chat_completion_request(&params, &config()).unwrap();
    let shown: Vec<(&str, &str)> = request
        .messages
        .iter()
        .map(|m| (m.role.as_str(), m.content.as_str()))
        .collect();
    assert_eq!(
        shown,
        vec![
            ("system", SYSTEM_PROMPT),
            ("user", "A"),
            ("assistant", "B"),
            ("user", "C"),
            ("user", "New"),
        ]
    );
    assert_eq!(request.model, "warp-model");
    assert!(!request.stream);
}

#[test]
fn system_prompt_is_fixed() {
    assert_eq!(
        SYSTEM_PROMPT,
        "You are replying inside Warp Agent through a local OpenAI-compatible endpoint. Provide useful terminal and coding help in plain text. This local compatibility mode cannot run commands, edit files, or call tools directly."
    );
}

#[test]
fn no_request_without_a_query() {
    let params = request_params(vec![AIAgentInput::Other], vec![task("one", vec![asked("A")])]);
    assert_eq!(build_chat_completion_request(&params, &config()), None);
    assert_eq!(latest_user_query(&params), None);
}

#[test]
fn latest_query_is_the_last_one() {
    let params = request_params(
        vec![user_query("first"), user_query("second"), AIAgentInput::Other],
        vec![],
    );
    assert_eq!(latest_user_query(&params), Some("second".to_string()));
    let params = request_params(vec![user_query("first"), user_query("")], vec![]);
    assert_eq!(latest_user_query(&params), Some(String::new()));
    assert_eq!(latest_user_query(&request_params(vec![], vec![])), None);
}

#[test]
fn used_where_configured_and_asked() {
    let mut params = request_params(vec![user_query("Hello")], vec![]);
    assert!(!should_use(&params));
    params.openai_compatible_config = Some(config());
    assert!(should_use(&params));
    params.input = vec![AIAgentInput::Other];
    assert!(!should_use(&params));
}

#[test]
fn system_queries_have_texts() {
    let text = |kind| system_query_text(&SystemQuery { kind });
    assert_eq!(
        text(Some(SystemQueryType::AutoCodeDiff { query: "fix".to_string() })),
        Some("fix".to_string())
    );
    assert_eq!(
        text(Some(SystemQueryType::CreateNewProject { query: "new".to_string() })),
        Some("new".to_string())
    );
    assert_eq!(
        text(Some(SystemQueryType::CloneRepository {
            url: "https://host/repo".to_string()
        })),
        Some("Clone https://host/repo".to_string())
    );
    assert_eq!(
        text(Some(SystemQueryType::SummarizeConversation { prompt: "sum".to_string() })),
        Some("sum".to_string())
    );
    assert_eq!(text(Some(SystemQueryType::Other)), None);
    assert_eq!(text(None), None);
}

#[test]
fn messages_without_text_are_not_shown() {
    let shown = |m: &Message| chat_message_from_api_message(m).map(|c| (c.role, c.content));
    let pair = |role: &str, content: &str| Some((role.to_string(), content.to_string()));
    assert_eq!(shown(&asked("Q")), pair("user", "Q"));
    assert_eq!(shown(&answered("A")), pair("assistant", "A"));
    assert_eq!(
        shown(&system(Some(SystemQueryType::CloneRepository { url: "u".to_string() }))),
        pair("user", "Clone u")
    );
    assert_eq!(shown(&system(Some(SystemQueryType::Other))), None);
    assert_eq!(shown(&system(None)), None);
    assert_eq!(
        shown(&message(Some(MessageBody::Other(Encoded { bytes: vec![1] })))),
        None
    );
    assert_eq!(shown(&message(None)), None);
}

#[test]
fn call_goes_to_the_endpoint_with_the_key() {
    let params = request_params(vec![user_query("Hello")], vec![]);
    let call = |key: Option<&str>| {
        let config = OpenAICompatibleConfig {
            base_url: Some(" http://localhost:8080/v1/ ".to_string()),
            api_key: key.map(|k| k.to_string()),
            model: None,
        };
        let request = build_chat_completion_request(&params, &config).unwrap();
        request_chat_completion(&config, request).unwrap()
    };
    let sent = call(Some("sk"));
    assert_eq!(sent.url, "http://localhost:8080/v1/chat/completions");
    assert_eq!(sent.bearer, Some("sk".to_string()));
    assert_eq!(sent.body.messages.len(), 2);
    assert_eq!(call(Some("")).bearer, None);
    assert_eq!(call(None).bearer, None);
}

#[test]
fn no_call_without_a_base_url() {
    let params = request_params(vec![user_query("Hello")], vec![]);
    let config = OpenAICompatibleConfig {
        base_url: None,
        api_key: None,
        model: None,
    };
    let request = build_chat_completion_request(&params, &config).unwrap();
    assert_eq!(
        request_chat_completion(&config, request),
        Err("OpenAI-compatible endpoint is missing a base URL.".to_string())
    );
}

#[test]
fn url_leads_to_itself() {
    for base in ["", "/", " h ", "http://x/v1", "http://x/v1/chat/completions/", "a /"] {
        let url = chat_completions_url(base);
        assert!(url.ends_with("/chat/completions"));
        assert_eq!(chat_completions_url(&url), url);
        assert_eq!(chat_completions_url(&format!("\t{base}\n ")), url);
    }
    assert_eq!(chat_completions_url("http://x/v1"), chat_completions_url("http://x/v1/"));
}

#[test]
fn later_tasks_add_to_the_history() {
    let shown = |tasks: Vec<Task>| {
        let params = request_params(vec![user_query("Q")], tasks);
        let mut messages = build_chat_completion_request(&params, &config()).unwrap().messages;
        messages.pop();
        messages.remove(0);
        messages
    };
    let first = || vec![task("one", vec![asked("A"), message(None)])];
    let second = || vec![task("two", vec![answered("B")]), task("three", vec![asked("C")])];
    let mut both = first();
    both.extend(second());
    let mut expected = shown(first());
    expected.extend(shown(second()));
    assert_eq!(shown(both), expected);
    assert!(expected.iter().all(|m| m.role == "user" || m.role == "assistant"));
}
