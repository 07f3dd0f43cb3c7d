use direct_inference::json::JsonValue;
use direct_inference::openai::{
    AssistantToolCall, ChatCompletion, CompletionChoice, CompletionMessage, FunctionCallContent,
};
use direct_inference::proto::{
    AgentOutput, ClientAction, FinishReason, Grep, GrepResult, Input, InputToolCallResult,
    InputType, Message, MessageBody, Metadata, Request, ResponseEvent, Settings, Task, TaskContext,
    Tool, ToolCall, ToolResult, ToolType, UserInput, UserInputKind, UserQuery,
};
use direct_inference::providers::DirectProviderConfig;
use direct_inference::proxy::{
    assemble_response_events, collect_input_tool_results, convert_input_tcr_result, finish_turn,
    prepare_turn, ResponseIds, TurnState,
};
use direct_inference::tool_defs::{all_tool_definitions, tool_definition, tool_definitions_for};
use direct_inference::translate::{input_tool_result_to_openai, warp_message_to_openai};

fn s(x: &str) -> String {
    x.to_string()
}

fn config() -> DirectProviderConfig {
    DirectProviderConfig {
        model_id: s("llama3.2"),
        base_url: s("http://localhost:11434/"),
        api_key: s(""),
        extra_headers: vec![],
    }
}

fn grep_input(id: &str) -> UserInput {
    UserInput {
        input: Some(UserInputKind::ToolCallResult(InputToolCallResult {
            tool_call_id: s(id),
            result: Some(ToolResult::Grep(GrepResult { result: None })),
        })),
    }
}

fn request(
    tasks: Option<Vec<Task>>,
    inputs: Vec<UserInput>,
    conversation_id: Option<&str>,
    supported: Option<Vec<ToolType>>,
) -> Request {
    Request {
        task_context: tasks.map(|tasks| TaskContext { tasks }),
        input: Some(Input { input_type: Some(InputType::UserInputs { inputs }) }),
        settings: supported.map(|supported_tools| Settings { supported_tools }),
        metadata: conversation_id.map(|c| Metadata { conversation_id: s(c) }),
    }
}

fn ids(n: usize) -> ResponseIds {
    ResponseIds {
        request_id: s("req"),
        run_id: s("run"),
        message_id: s("msg"),
        tool_message_ids: (0..n).map(|i| format!("tm{}", i)).collect(),
    }
}

fn state(needs_create_task: bool, input_tool_results: Vec<Message>) -> TurnState {
    TurnState { conversation_id: s("conv"), root_task_id: s("root"), needs_create_task, input_tool_results }
}

fn text_completion(text: Option<&str>) -> ChatCompletion {
    ChatCompletion {
        choices: vec![CompletionChoice {
            message: CompletionMessage { role: s("assistant"), content: text.map(s), tool_calls: None },
            finish_reason: Some(s("stop")),
        }],
    }
}

fn tool_call(id: &str, name: &str, arguments: &str) -> AssistantToolCall {
    AssistantToolCall {
        id: s(id),
        call_type: s("function"),
        function: FunctionCallContent { name: s(name), arguments: s(arguments) },
    }
}

fn add_messages(e: &ResponseEvent) -> Option<(&String, &Vec<Message>)> {
    match e {
        ResponseEvent::ClientActions { actions } if actions.len() == 1 => match &actions[0] {
            ClientAction::AddMessagesToTask { task_id, messages } => Some((task_id, messages)),
            _ => None,
        },
        _ => None,
    }
}

fn is_action(e: &ResponseEvent, want: &ClientAction) -> bool {
    matches!(e, ResponseEvent::ClientActions { actions } if actions.len() == 1 && &actions[0] == want)
}

#[test]
fn convert_input_result_drops_other_tools() {
    assert_eq!(convert_input_tcr_result(Some(ToolResult::Other)), None);
    assert_eq!(convert_input_tcr_result(None), None);
    let g = ToolResult::Grep(GrepResult { result: None });
    assert_eq!(convert_input_tcr_result(Some(g.clone())), Some(g));
}

#[test]
fn input_tool_results_are_echoed_into_task() {
    let inputs = vec![
        UserInput { input: Some(UserInputKind::UserQuery(UserQuery { query: s("q") })) },
        grep_input("c1"),
        UserInput {
            input: Some(UserInputKind::ToolCallResult(InputToolCallResult {
                tool_call_id: s("c2"),
                result: Some(ToolResult::Other),
            })),
        },
    ];
    let msgs = collect_input_tool_results(request(None, inputs, None, None), "root");
    assert_eq!(msgs.len(), 2);
    assert_eq!(msgs[0].task_id, "root");
    assert_eq!(msgs[0].id.len(), 36);
    assert_ne!(msgs[0].id, msgs[1].id);
    match &msgs[1].message {
        Some(MessageBody::ToolCallResult(r)) => {
            assert_eq!(r.tool_call_id, "c2");
            assert_eq!(r.result, None);
        }
        other => panic!("unexpected {:?}", other),
    }
    let none = collect_input_tool_results(
        Request { task_context: None, input: None, settings: None, metadata: None },
        "root",
    );
    assert!(none.is_empty());
}

#[test]
fn echoed_results_replay_as_the_model_saw_them() {
    let input = InputToolCallResult {
        tool_call_id: s("c1"),
        result: Some(ToolResult::Grep(GrepResult { result: None })),
    };
    let shown = input_tool_result_to_openai(&input);
    let msgs = collect_input_tool_results(request(None, vec![grep_input("c1")], None, None), "root");
    let replayed = warp_message_to_openai(&msgs[0]);
    assert_eq!(replayed.into_iter().next(), shown);
}

#[test]
fn first_turn_gets_fresh_ids_and_creates_task() {
    let plan = prepare_turn(&config(), request(None, vec![], None, None));
    assert_eq!(plan.state.conversation_id.len(), 36);
    assert_eq!(plan.state.root_task_id.len(), 36);
    assert!(plan.state.needs_create_task);
    assert!(plan.state.input_tool_results.is_empty());
    assert_eq!(plan.chat_request.model, "llama3.2");
    assert!(!plan.chat_request.stream);
    assert_eq!(plan.chat_request.tools, None);
    assert_eq!(plan.chat_request.tool_choice, None);
    assert_eq!(plan.chat_request.messages.len(), 1);
    assert_eq!(plan.call.url, "http://localhost:11434/v1/chat/completions");
    assert_eq!(plan.call.bearer_token, None);
}

#[test]
fn later_turn_reuses_conversation_and_root_task() {
    let root = Task { id: s("root-7"), description: s("Main task"), messages: vec![] };
    let plan = prepare_turn(
        &config(),
        request(Some(vec![root]), vec![grep_input("c1")], Some("conv-3"), Some(vec![ToolType::Grep])),
    );
    assert_eq!(plan.state.conversation_id, "conv-3");
    assert_eq!(plan.state.root_task_id, "root-7");
    assert!(!plan.state.needs_create_task);
    assert_eq!(plan.state.input_tool_results.len(), 1);
    assert_eq!(plan.state.input_tool_results[0].task_id, "root-7");
    let tools = plan.chat_request.tools.unwrap();
    assert_eq!(tools.len(), 1);
    assert_eq!(tools[0].function.name, "grep");
    let roles: Vec<&str> = plan.chat_request.messages.iter().map(|m| m.role.as_str()).collect();
    assert_eq!(roles, vec!["system", "tool"]);
}

#[test]
fn empty_conversation_id_gets_fresh_one() {
    let plan = prepare_turn(&config(), request(None, vec![], Some(""), None));
    assert_eq!(plan.state.conversation_id.len(), 36);
}

#[test]
fn text_answer_events_on_first_turn() {
    let ev = assemble_response_events(state(true, vec![]), text_completion(Some("hello")), &vec![], ids(0));
    assert_eq!(ev.len(), 6);
    assert_eq!(
        ev[0],
        ResponseEvent::Init { conversation_id: s("conv"), request_id: s("req"), run_id: s("run") }
    );
    assert!(is_action(
        &ev[1],
        &ClientAction::CreateTask { task: Task { id: s("root"), description: s("Main task"), messages: vec![] } }
    ));
    assert!(is_action(&ev[2], &ClientAction::BeginTransaction));
    let (task_id, msgs) = add_messages(&ev[3]).unwrap();
    assert_eq!(task_id, "root");
    assert_eq!(
        msgs,
        &vec![Message {
            id: s("msg"),
            task_id: s("root"),
            message: Some(MessageBody::AgentOutput(AgentOutput { text: s("hello") })),
        }]
    );
    assert!(is_action(&ev[4], &ClientAction::CommitTransaction));
    assert_eq!(ev[5], ResponseEvent::Finished { reason: Some(FinishReason::Done) });
}

#[test]
fn missing_content_is_empty_agent_output() {
    let ev = assemble_response_events(state(false, vec![]), text_completion(None), &vec![], ids(0));
    assert_eq!(ev.len(), 5);
    let (_, msgs) = add_messages(&ev[2]).unwrap();
    assert_eq!(msgs[0].message, Some(MessageBody::AgentOutput(AgentOutput { text: s("") })));
}

#[test]
fn no_choice_means_no_answer_event() {
    let ev = assemble_response_events(state(false, vec![]), ChatCompletion { choices: vec![] }, &vec![], ids(0));
    assert_eq!(ev.len(), 4);
    assert!(is_action(&ev[1], &ClientAction::BeginTransaction));
    assert!(is_action(&ev[2], &ClientAction::CommitTransaction));
}

#[test]
fn echo_event_comes_before_transaction() {
    let echo = vec![Message {
        id: s("e1"),
        task_id: s("root"),
        message: Some(MessageBody::UserQuery(UserQuery { query: s("x") })),
    }];
    let ev = assemble_response_events(state(false, echo.clone()), text_completion(Some("a")), &vec![], ids(0));
    assert_eq!(ev.len(), 6);
    let (task_id, msgs) = add_messages(&ev[1]).unwrap();
    assert_eq!(task_id, "root");
    assert_eq!(msgs, &echo);
    assert!(is_action(&ev[2], &ClientAction::BeginTransaction));
}

#[test]
fn tool_calls_become_tool_call_messages() {
    let calls = vec![
        tool_call("c1", "grep", r#"{"queries":["a"]}"#),
        tool_call("c2", "unknown_tool", "{}"),
        tool_call("c3", "grep", "not json"),
        tool_call("c4", "grep", r#"{"queries":["b"],"path":"src"}"#),
    ];
    let completion = ChatCompletion {
        choices: vec![CompletionChoice {
            message: CompletionMessage { role: s("assistant"), content: Some(s("ignored")), tool_calls: Some(calls) },
            finish_reason: Some(s("tool_calls")),
        }],
    };
    let parsed: Vec<Option<JsonValue>> = vec![
        Some(JsonValue::Object(vec![(s("queries"), JsonValue::Array(vec![JsonValue::Str(s("a"))]))])),
        Some(JsonValue::Object(vec![])),
        None,
        Some(JsonValue::Object(vec![
            (s("queries"), JsonValue::Array(vec![JsonValue::Str(s("b"))])),
            (s("path"), JsonValue::Str(s("src"))),
        ])),
    ];
    let ev = assemble_response_events(state(false, vec![]), completion, &parsed, ids(4));
    assert_eq!(ev.len(), 5);
    let (_, msgs) = add_messages(&ev[2]).unwrap();
    assert_eq!(msgs.len(), 2);
    assert_eq!(msgs[0].id, "tm0");
    assert_eq!(msgs[1].id, "tm3");
    assert_eq!(
        msgs[1].message,
        Some(MessageBody::ToolCall(ToolCall {
            tool_call_id: s("c4"),
            tool: Some(Tool::Grep(Grep { queries: vec![s("b")], path: s("src") })),
        }))
    );
}

#[test]
fn untranslatable_tool_calls_give_no_answer_event() {
    let completion = ChatCompletion {
        choices: vec![CompletionChoice {
            message: CompletionMessage {
                role: s("assistant"),
                content: None,
                tool_calls: Some(vec![tool_call("c1", "nope", "{}")]),
            },
            finish_reason: None,
        }],
    };
    let ev = assemble_response_events(state(false, vec![]), completion, &vec![Some(JsonValue::Object(vec![]))], ids(1));
    assert_eq!(ev.len(), 4);
}

#[test]
fn finish_turn_uses_fresh_ids() {
    let ev = finish_turn(state(true, vec![]), text_completion(Some("ok")));
    assert_eq!(ev.len(), 6);
    match &ev[0] {
        ResponseEvent::Init { conversation_id, request_id, run_id } => {
            assert_eq!(conversation_id, "conv");
            assert_eq!(request_id.len(), 36);
            assert_eq!(run_id.len(), 36);
            assert_ne!(request_id, run_id);
        }
        other => panic!("unexpected {:?}", other),
    }
    let (_, msgs) = add_messages(&ev[3]).unwrap();
    assert_eq!(msgs[0].id.len(), 36);
}

#[test]
fn tool_definitions_follow_fixed_order() {
    let defs = tool_definitions_for(&[ToolType::Grep, ToolType::Unsupported, ToolType::RunShellCommand]);
    let names: Vec<&str> = defs.iter().map(|d| d.function.name.as_str()).collect();
    assert_eq!(names, vec!["run_shell_command", "grep"]);
    assert!(tool_definitions_for(&[]).is_empty());
    assert!(tool_definitions_for(&[ToolType::Unsupported]).is_empty());
    let all = all_tool_definitions();
    let names: Vec<&str> = all.iter().map(|(_, d)| d.function.name.as_str()).collect();
    assert_eq!(
        names,
        vec!["run_shell_command", "read_files", "apply_file_diffs", "grep", "file_glob_v2", "search_codebase"]
    );
    let every: Vec<ToolType> = all.iter().map(|(t, _)| *t).collect();
    assert_eq!(tool_definitions_for(&every).len(), 6);
}

#[test]
fn tool_definition_schema_of_shell_command() {
    let d = tool_definition(ToolType::RunShellCommand);
    assert_eq!(d.def_type, "function");
    assert!(d.function.description.starts_with("Execute a shell command in the user's terminal. "));
    let v: serde_json::Value = serde_json::from_str(&d.function.parameters.to_json_text()).unwrap();
    let expected: serde_json::Value = serde_json::from_str(
        r#"{
            "type": "object",
            "properties": {
                "command": {"type": "string", "description": "The shell command to execute"},
                "is_read_only": {"type": "boolean", "description": "True if the command only reads state without modifying it"},
                "uses_pager": {"type": "boolean", "description": "True if the command uses a pager like 'less' or 'more'"}
            },
            "required": ["command"]
        }"#,
    )
    .unwrap();
    assert_eq!(v, expected);
}

#[test]
fn finish_turn_reads_tool_call_arguments() {
    let calls = vec![
        tool_call("c1", "run_shell_command", r#"{"command":"ls","is_read_only":true}"#),
        tool_call("c2", "run_shell_command", "not json"),
    ];
    let completion = ChatCompletion {
        choices: vec![CompletionChoice {
            message: CompletionMessage { role: s("assistant"), content: None, tool_calls: Some(calls) },
            finish_reason: None,
        }],
    };
    let ev = finish_turn(state(false, vec![]), completion);
    assert_eq!(ev.len(), 5);
    let (_, msgs) = add_messages(&ev[2]).unwrap();
    assert_eq!(msgs.len(), 1);
    assert_eq!(msgs[0].id.len(), 36);
    assert_eq!(
        msgs[0].message,
        Some(MessageBody::ToolCall(ToolCall {
            tool_call_id: s("c1"),
            tool: Some(Tool::RunShellCommand(direct_inference::proto::RunShellCommand {
                command: s("ls"),
                is_read_only: true,
                uses_pager: false,
            })),
        }))
    );
}
