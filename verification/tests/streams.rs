use openai_compatible::api::{
    Action, ClientAction, Message, MessageBody, Reason, ResponseEvent, ResponseEventType,
    StreamFinished, Task,
};
use openai_compatible::content::{
    ChatCompletionChoice, ChatCompletionResponse, ChatCompletionResponseMessage, JsonValue,
};
use openai_compatible::endpoint::{Exchange, HttpStatus};
use openai_compatible::events::{
    client_actions_event, client_actions_event_with_id, finished_event, init_event,
    ClientActionContext,
};
use openai_compatible::request::{AIAgentInput, OpenAICompatibleConfig, RequestParams};
use openai_compatible::stream::{
    generate_multi_agent_output, open_stream, ResponseStream, StreamAction, StreamEvent,
};

fn params() -> RequestParams {
    RequestParams {
        input: vec![AIAgentInput::UserQuery {
            query: "Hello".to_string(),
        }],
        conversation_token: None,
        ambient_agent_task_id: None,
        tasks: vec![],
        model: "warp-model".to_string(),
        openai_compatible_config: Some(OpenAICompatibleConfig {
            base_url: Some("http://localhost:8080/v1".to_string()),
            api_key: Some("key".to_string()),
            model: None,
        }),
    }
}

fn task(id: &str) -> Task {
    Task {
        id: id.to_string(),
        description: String::new(),
        dependencies: None,
        messages: vec![],
        summary: String::new(),
        server_data: String::new(),
    }
}

fn context(create_task: bool) -> ClientActionContext {
    ClientActionContext {
        task_id: "task-1".to_string(),
        request_id: "request-1".to_string(),
        create_task,
        task_description: "Hello".to_string(),
    }
}

fn opened(params: &RequestParams) -> ResponseStream {
    open_stream(
        params,
        "conversation".to_string(),
        "request".to_string(),
        "run".to_string(),
    )
}

fn next(stream: ResponseStream, event: StreamEvent) -> (ResponseStream, StreamAction) {
    let (stream, action) = stream.step(event);
    (stream, action.unwrap())
}

fn replied(code: u16, body: &str) -> StreamEvent {
    StreamEvent::Exchanged(Exchange::Replied {
        status: HttpStatus::new(code).unwrap(),
        body: body.to_string(),
    })
}

fn completion(text: &str) -> ChatCompletionResponse {
    ChatCompletionResponse {
        choices: vec![ChatCompletionChoice {
            message: ChatCompletionResponseMessage {
                content: JsonValue::String(text.to_string()),
            },
        }],
    }
}

fn error_event(message: &str) -> StreamAction {
    StreamAction::Emit(finished_event(Reason::InternalError {
        message: message.to_string(),
    }))
}

fn opening() -> StreamAction {
    StreamAction::Emit(init_event(
        "conversation".to_string(),
        "request".to_string(),
        "run".to_string(),
    ))
}

/// A stream that waits for the reply to its request.
fn awaiting_reply() -> ResponseStream {
    let (stream, _) = next(opened(&params()), StreamEvent::Polled);
    let (stream, action) = next(stream, StreamEvent::Polled);
    assert!(matches!(action, StreamAction::Send(_)));
    stream
}

fn actions(event: ResponseEvent) -> Vec<ClientAction> {
    match event.kind {
        Some(ResponseEventType::ClientActions(actions)) => actions.actions,
        _ => panic!("expected client actions event"),
    }
}

fn added(action: &ClientAction) -> (&str, &Vec<Message>) {
    match &action.action {
        Some(Action::AddMessagesToTask(add)) => (add.task_id.as_str(), &add.messages),
        _ => panic!("expected an added message"),
    }
}

fn is_random_uuid(text: &str) -> bool {
    match uuid::Uuid::parse_str(text) {
        Ok(id) => id.get_version_num() == 4 && id.to_string() == text,
        Err(_) => false,
    }
}

#[test]
fn creates_task_when_no_existing_task_is_present() {
    let event = client_actions_event(
        &ClientActionContext {
            task_id: "task-1".to_string(),
            request_id: "request-1".to_string(),
            create_task: true,
            task_description: "Hello".to_string(),
        },
        "Hi".to_string(),
    );
    let Some(ResponseEventType::ClientActions(actions)) = event.kind else {
        panic!("expected client actions event");
    };

    assert_eq!(actions.actions.len(), 2);
    assert!(matches!(
        actions.actions[0].action,
        Some(Action::CreateTask(_))
    ));
    assert!(matches!(
        actions.actions[1].action,
        Some(Action::AddMessagesToTask(_))
    ));
}

#[test]
fn created_task_is_empty() {
    let event = client_actions_event_with_id(&context(true), "Hi".to_string(), "m".to_string());
    let actions = actions(event);
    match &actions[0].action {
        Some(Action::CreateTask(create)) => {
            let mut expected = task("task-1");
            expected.description = "Hello".to_string();
            assert_eq!(create.task, Some(expected));
        }
        _ => panic!("expected a task"),
    }
}

#[test]
fn answer_is_added_to_the_task() {
    let event = client_actions_event_with_id(&context(false), "Hi".to_string(), "m".to_string());
    let actions = actions(event);
    assert_eq!(actions.len(), 1);
    let (task_id, messages) = added(&actions[0]);
    assert_eq!(task_id, "task-1");
    assert_eq!(messages.len(), 1);
    assert_eq!(messages[0].id, "m");
    assert_eq!(messages[0].task_id, "task-1");
    assert_eq!(messages[0].request_id, "request-1");
    assert_eq!(messages[0].timestamp, None);
    assert_eq!(messages[0].server_message_data, "");
    assert!(messages[0].citations.is_empty());
    match &messages[0].message {
        Some(MessageBody::AgentOutput(output)) => assert_eq!(output.text, "Hi"),
        _ => panic!("expected an output"),
    }
}

#[test]
fn message_ids_are_fresh() {
    let id = || {
        let actions = actions(client_actions_event(&context(false), "Hi".to_string()));
        let (_, messages) = added(&actions[0]);
        messages[0].id.clone()
    };
    let first = id();
    assert!(is_random_uuid(&first));
    assert_ne!(first, id());
}

#[test]
fn finished_event_has_only_a_reason() {
    assert_eq!(
        finished_event(Reason::Done).kind,
        Some(ResponseEventType::Finished(StreamFinished {
            token_usage: vec![],
            should_refresh_model_config: false,
            request_cost: None,
            conversation_usage_metadata: None,
            reason: Some(Reason::Done),
        }))
    );
}

#[test]
fn answered_request_runs_to_the_end() {
    let (stream, action) = next(opened(&params()), StreamEvent::Polled);
    assert_eq!(action, opening());
    let (stream, action) = next(stream, StreamEvent::Polled);
    match action {
        StreamAction::Send(call) => {
            assert_eq!(call.url, "http://localhost:8080/v1/chat/completions");
            assert_eq!(call.bearer, Some("key".to_string()));
            assert_eq!(call.body.model, "warp-model");
            assert_eq!(call.body.messages[1].content, "Hello");
        }
        _ => panic!("expected a request"),
    }
    let (stream, action) = next(stream, replied(200, "body"));
    assert_eq!(
        action,
        StreamAction::ParseCompletion {
            body: "body".to_string()
        }
    );
    let (stream, action) =
        stream.step_with_id(StreamEvent::CompletionParsed(Ok(completion("Hi"))), "m".to_string());
    let expected = ClientActionContext {
        task_id: "run".to_string(),
        request_id: "request".to_string(),
        create_task: true,
        task_description: "Hello".to_string(),
    };
    assert_eq!(
        action,
        Some(StreamAction::Emit(client_actions_event_with_id(
            &expected,
            "Hi".to_string(),
            "m".to_string()
        )))
    );
    let (stream, action) = next(stream, StreamEvent::Polled);
    assert_eq!(action, StreamAction::Emit(finished_event(Reason::Done)));
    let (stream, action) = next(stream, StreamEvent::Polled);
    assert_eq!(action, StreamAction::End);
    let (_, action) = next(stream, StreamEvent::Polled);
    assert_eq!(action, StreamAction::End);
}

#[test]
fn answer_of_a_step_has_a_fresh_id() {
    let (stream, _) = next(awaiting_reply(), replied(201, "body"));
    let (_, action) = next(stream, StreamEvent::CompletionParsed(Ok(completion("Hi"))));
    match action {
        StreamAction::Emit(event) => {
            let actions = actions(event);
            let (_, messages) = added(&actions[1]);
            assert!(is_random_uuid(&messages[0].id));
        }
        _ => panic!("expected an event"),
    }
}

#[test]
fn refused_request_ends_in_an_error() {
    let (stream, action) = next(awaiting_reply(), replied(401, "denied"));
    assert_eq!(
        action,
        StreamAction::ParseFailure {
            body: "denied".to_string()
        }
    );
    let (stream, action) = next(stream, StreamEvent::FailureParsed(None));
    assert_eq!(
        action,
        error_event("OpenAI-compatible endpoint returned 401 Unauthorized: denied")
    );
    let (_, action) = next(stream, StreamEvent::Polled);
    assert_eq!(action, StreamAction::End);
}

#[test]
fn transport_errors_end_the_stream() {
    let (stream, action) = next(
        awaiting_reply(),
        StreamEvent::Exchanged(Exchange::SendFailed {
            error: "refused".to_string(),
        }),
    );
    assert_eq!(
        action,
        error_event("OpenAI-compatible endpoint request failed: refused")
    );
    assert_eq!(next(stream, StreamEvent::Polled).1, StreamAction::End);
    let (_, action) = next(
        awaiting_reply(),
        StreamEvent::Exchanged(Exchange::ReadFailed {
            error: "cut".to_string(),
        }),
    );
    assert_eq!(
        action,
        error_event("OpenAI-compatible endpoint response read failed: cut")
    );
}

#[test]
fn bad_answers_end_the_stream() {
    let (stream, _) = next(awaiting_reply(), replied(200, ""));
    let (_, action) = next(stream, StreamEvent::CompletionParsed(Err("EOF".to_string())));
    assert_eq!(
        action,
        error_event("OpenAI-compatible endpoint response was not valid JSON: EOF")
    );
    let (stream, _) = next(awaiting_reply(), replied(200, ""));
    let (_, action) = next(stream, StreamEvent::CompletionParsed(Ok(completion("  "))));
    assert_eq!(
        action,
        error_event("OpenAI-compatible endpoint returned an empty response.")
    );
}

#[test]
fn missing_base_url_ends_the_stream_after_it_opened() {
    let mut params = params();
    params.openai_compatible_config = Some(OpenAICompatibleConfig {
        base_url: None,
        api_key: None,
        model: None,
    });
    let (stream, action) = next(opened(&params), StreamEvent::Polled);
    assert_eq!(action, opening());
    let (_, action) = next(stream, StreamEvent::Polled);
    assert_eq!(
        action,
        error_event("OpenAI-compatible endpoint is missing a base URL.")
    );
}

#[test]
fn unconfigured_stream_has_one_error() {
    let mut params = params();
    params.openai_compatible_config = None;
    let (stream, action) = next(generate_multi_agent_output(params), StreamEvent::Polled);
    assert_eq!(
        action,
        StreamAction::Fail {
            message: "OpenAI-compatible endpoint is not configured.".to_string()
        }
    );
    assert_eq!(next(stream, StreamEvent::Polled).1, StreamAction::End);
}

#[test]
fn stream_without_a_query_has_one_error() {
    let mut params = params();
    params.input = vec![AIAgentInput::Other];
    let (stream, action) = generate_multi_agent_output(params).step(StreamEvent::Cancelled);
    assert_eq!(action, None);
    let (_, action) = next(stream, StreamEvent::Polled);
    assert_eq!(
        action,
        StreamAction::Fail {
            message: "OpenAI-compatible endpoint only supports text user queries.".to_string()
        }
    );
}

#[test]
fn cancelling_ends_the_stream() {
    let (stream, action) = next(opened(&params()), StreamEvent::Cancelled);
    assert_eq!(action, StreamAction::End);
    assert_eq!(next(stream, StreamEvent::Polled).1, StreamAction::End);
    let (stream, action) = next(awaiting_reply(), StreamEvent::Cancelled);
    assert_eq!(action, StreamAction::End);
    assert_eq!(stream.step(replied(200, "")).1, None);
}

#[test]
fn events_that_do_not_fit_change_nothing() {
    let (stream, action) = opened(&params()).step(replied(200, ""));
    assert_eq!(action, None);
    let (stream, action) = next(stream, StreamEvent::Polled);
    assert_eq!(action, opening());
    let (stream, action) = stream.step(StreamEvent::FailureParsed(None));
    assert_eq!(action, None);
    let (stream, action) = next(stream, StreamEvent::Polled);
    assert!(matches!(action, StreamAction::Send(_)));
    let (stream, action) = stream.step(StreamEvent::Polled);
    assert_eq!(action, None);
    let (_, action) = next(stream, replied(200, "body"));
    assert!(matches!(action, StreamAction::ParseCompletion { .. }));
}

#[test]
fn stream_goes_by_the_ids_of_the_request() {
    let mut params = params();
    params.conversation_token = Some("token".to_string());
    params.ambient_agent_task_id = Some("ambient".to_string());
    let (_, action) = next(generate_multi_agent_output(params), StreamEvent::Polled);
    match action {
        StreamAction::Emit(ResponseEvent {
            kind: Some(ResponseEventType::Init(init)),
        }) => {
            assert_eq!(init.conversation_id, "token");
            assert_eq!(init.run_id, "ambient");
            assert!(is_random_uuid(&init.request_id));
        }
        _ => panic!("expected the opening"),
    }
}

#[test]
fn stream_without_ids_gets_fresh_ones() {
    let (_, action) = next(generate_multi_agent_output(params()), StreamEvent::Polled);
    match action {
        StreamAction::Emit(ResponseEvent {
            kind: Some(ResponseEventType::Init(init)),
        }) => {
            assert!(is_random_uuid(&init.conversation_id));
            assert!(is_random_uuid(&init.run_id));
            assert!(is_random_uuid(&init.request_id));
        }
        _ => panic!("expected the opening"),
    }
}

#[test]
fn answer_goes_to_the_first_task() {
    let answered = |tasks: Vec<Task>| {
        let mut params = params();
        params.tasks = tasks;
        let (stream, _) = next(opened(&params), StreamEvent::Polled);
        let (stream, _) = next(stream, StreamEvent::Polled);
        let (stream, _) = next(stream, replied(200, ""));
        match next(stream, StreamEvent::CompletionParsed(Ok(completion("Hi")))).1 {
            StreamAction::Emit(event) => {
                let actions = actions(event);
                let (task_id, _) = added(&actions[actions.len() - 1]);
                (actions.len(), task_id.to_string())
            }
            _ => panic!("expected an event"),
        }
    };
    assert_eq!(answered(vec![]), (2, "run".to_string()));
    assert_eq!(answered(vec![task("one"), task("two")]), (1, "one".to_string()));
    assert_eq!(answered(vec![task(""), task("two")]), (1, "run".to_string()));
}

#[test]
fn request_is_sent_once() {
    let mut stream = opened(&params());
    let mut sent = 0;
    let mut steps = 0;
    let mut event = StreamEvent::Polled;
    loop {
        let (after, action) = next(stream, event);
        stream = after;
        steps += 1;
        event = match action {
            StreamAction::Send(_) => {
                sent += 1;
                replied(200, "body")
            }
            StreamAction::ParseCompletion { .. } => {
                StreamEvent::CompletionParsed(Ok(completion("Hi")))
            }
            StreamAction::ParseFailure { .. } => StreamEvent::FailureParsed(None),
            StreamAction::Emit(_) | StreamAction::Fail { .. } => StreamEvent::Polled,
            StreamAction::End => break,
        };
    }
    assert_eq!(sent, 1);
    assert_eq!(steps, 6);
}
