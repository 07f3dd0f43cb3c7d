use direct_inference::json::{parse_json_text, JsonValue};
use direct_inference::openai::{AssistantToolCall, ChatMessage, FunctionCallContent};
use direct_inference::proto::{
    AgentOutput, ApplyFileDiffs, ApplyFileDiffsOutcome, ApplyFileDiffsResult, DeleteFile,
    FileContent, FileDiff, FileGlobV2, FileGlobV2Outcome, FileGlobV2Result, FileToRead, Grep,
    GrepFileMatch, GrepOutcome, GrepResult, Input, InputToolCallResult, InputType, LineRange,
    Message, MessageBody, NewFile, ReadFiles, ReadFilesOutcome, ReadFilesResult, Request,
    RunShellCommand, RunShellCommandResult, SearchCodebase, SearchCodebaseOutcome,
    SearchCodebaseResult, ShellOutcome, SystemQuery, SystemQueryType, Task, TaskContext, Tool,
    ToolCall, ToolCallResult, ToolResult, UpdatedFile, UserInput, UserInputKind, UserQuery,
};
use direct_inference::translate::{
    build_openai_messages, history_tool_result_to_openai, input_tool_result_to_openai,
    openai_tc_to_warp_tool_call, tool_call_message, tool_from_args, tool_name_args,
    warp_message_to_openai, warp_tool_call_to_openai_tc, SYSTEM_PROMPT,
};

/// Reads JSON text as the library reads a tool call's arguments.
fn parse(text: &str) -> JsonValue {
    parse_json_text(text).unwrap()
}

fn s(x: &str) -> String {
    x.to_string()
}

fn call_of(tool: Tool) -> ToolCall {
    ToolCall { tool_call_id: s("call_1"), tool: Some(tool) }
}

fn history(body: MessageBody) -> Message {
    Message { id: s("m"), task_id: s("t"), message: Some(body) }
}

fn tool_text(result: ToolResult) -> Option<String> {
    history_tool_result_to_openai(&ToolCallResult { tool_call_id: s("c"), result: Some(result) })
        .and_then(|m| m.content)
}

fn all_tools() -> Vec<Tool> {
    vec![
        Tool::RunShellCommand(RunShellCommand {
            command: s("ls -la \"dir\""),
            is_read_only: true,
            uses_pager: false,
        }),
        Tool::ReadFiles(ReadFiles {
            files: vec![
                FileToRead { name: s("a.rs"), line_ranges: vec![] },
                FileToRead { name: s("b\n.rs"), line_ranges: vec![] },
            ],
        }),
        Tool::ApplyFileDiffs(ApplyFileDiffs {
            summary: s("fix"),
            diffs: vec![FileDiff { file_path: s("a.rs"), search: s("old"), replace: s("new") }],
            new_files: vec![NewFile { file_path: s("b.rs"), content: s("fn main() {}\n") }],
            deleted_files: vec![],
        }),
        Tool::Grep(Grep { queries: vec![s("foo"), s("bar")], path: s("src") }),
        Tool::FileGlobV2(FileGlobV2 {
            patterns: vec![s("**/*.rs")],
            search_dir: s("."),
            max_matches: 10,
            max_depth: -1,
            min_depth: 0,
        }),
        Tool::SearchCodebase(SearchCodebase {
            query: s("where is main"),
            path_filters: vec![s("src/")],
            codebase_path: s(""),
        }),
    ]
}

#[test]
fn tool_calls_are_sent_with_sorted_json_arguments() {
    let expected = [
        ("run_shell_command", r#"{"command":"ls -la \"dir\"","is_read_only":true,"uses_pager":false}"#),
        ("read_files", r#"{"files":[{"name":"a.rs"},{"name":"b\n.rs"}]}"#),
        (
            "apply_file_diffs",
            r#"{"diffs":[{"file_path":"a.rs","replace":"new","search":"old"}],"new_files":[{"content":"fn main() {}\n","file_path":"b.rs"}],"summary":"fix"}"#,
        ),
        ("grep", r#"{"path":"src","queries":["foo","bar"]}"#),
        ("file_glob_v2", r#"{"max_depth":-1,"max_matches":10,"patterns":["**/*.rs"],"search_dir":"."}"#),
        ("search_codebase", r#"{"path_filters":["src/"],"query":"where is main"}"#),
    ];
    for (tool, (name, args)) in all_tools().into_iter().zip(expected.iter()) {
        let tc = warp_tool_call_to_openai_tc(&call_of(tool)).unwrap();
        assert_eq!(tc.id, "call_1");
        assert_eq!(tc.call_type, "function");
        assert_eq!(tc.function.name, *name);
        assert_eq!(tc.function.arguments, *args);
    }
}

#[test]
fn tool_call_arguments_match_serde_json_rendering() {
    let tc = warp_tool_call_to_openai_tc(&call_of(Tool::Grep(Grep {
        queries: vec![s("a\"b"), s("\u{1}")],
        path: s("é/ü"),
    })))
    .unwrap();
    let mut map = serde_json::Map::new();
    map.insert(s("queries"), serde_json::Value::from(vec![s("a\"b"), s("\u{1}")]));
    map.insert(s("path"), serde_json::Value::from("é/ü"));
    let expected = serde_json::Value::Object(map).to_string();
    assert_eq!(tc.function.arguments, expected);
}

#[test]
fn tools_without_chat_form_are_not_sent() {
    assert!(warp_tool_call_to_openai_tc(&call_of(Tool::Other)).is_none());
    assert!(warp_tool_call_to_openai_tc(&ToolCall { tool_call_id: s("x"), tool: None }).is_none());
    assert!(tool_name_args(&Tool::Other).is_none());
}

#[test]
fn deleted_files_and_line_ranges_are_not_sent() {
    let tc = warp_tool_call_to_openai_tc(&call_of(Tool::ApplyFileDiffs(ApplyFileDiffs {
        summary: s(""),
        diffs: vec![],
        new_files: vec![],
        deleted_files: vec![DeleteFile { file_path: s("gone.rs") }],
    })))
    .unwrap();
    assert_eq!(tc.function.arguments, r#"{"diffs":[],"new_files":[],"summary":""}"#);
    let tc = warp_tool_call_to_openai_tc(&call_of(Tool::ReadFiles(ReadFiles {
        files: vec![FileToRead { name: s("a"), line_ranges: vec![LineRange { start: 1, end: 3 }] }],
    })))
    .unwrap();
    assert_eq!(tc.function.arguments, r#"{"files":[{"name":"a"}]}"#);
}

#[test]
fn sent_tool_calls_read_back_as_the_same_tool() {
    for tool in all_tools() {
        let (name, args) = tool_name_args(&tool).unwrap();
        let text = args.to_json_text();
        let back = tool_from_args(&name, &parse(&text));
        assert_eq!(back, Some(tool));
    }
}

#[test]
fn tool_from_args_reads_each_tool() {
    let t = tool_from_args("run_shell_command", &parse(r#"{"command":"pwd"}"#)).unwrap();
    assert_eq!(
        t,
        Tool::RunShellCommand(RunShellCommand { command: s("pwd"), is_read_only: false, uses_pager: false })
    );
    let t = tool_from_args(
        "apply_file_diffs",
        &parse(r#"{"diffs":[{"file_path":"a","replace":"r"},{"search":"no path"}],"deleted_files":[{"file_path":"d"}]}"#),
    )
    .unwrap();
    assert_eq!(
        t,
        Tool::ApplyFileDiffs(ApplyFileDiffs {
            summary: s(""),
            diffs: vec![FileDiff { file_path: s("a"), search: s(""), replace: s("r") }],
            new_files: vec![],
            deleted_files: vec![DeleteFile { file_path: s("d") }],
        })
    );
    let t = tool_from_args("grep", &parse(r#"{"queries":["x",1,"y"]}"#)).unwrap();
    assert_eq!(t, Tool::Grep(Grep { queries: vec![s("x"), s("y")], path: s("") }));
    let t = tool_from_args("file_glob_v2", &parse(r#"{"patterns":["*"],"max_matches":5}"#)).unwrap();
    assert_eq!(
        t,
        Tool::FileGlobV2(FileGlobV2 {
            patterns: vec![s("*")],
            search_dir: s(""),
            max_matches: 5,
            max_depth: 0,
            min_depth: 0,
        })
    );
    let t = tool_from_args("search_codebase", &parse(r#"{"query":"q","codebase_path":"/repo"}"#))
        .unwrap();
    assert_eq!(
        t,
        Tool::SearchCodebase(SearchCodebase {
            query: s("q"),
            path_filters: vec![],
            codebase_path: s("/repo"),
        })
    );
    let t = tool_from_args("read_files", &parse(r#"{"files":[{"name":"a"},{"nom":"b"}]}"#)).unwrap();
    assert_eq!(
        t,
        Tool::ReadFiles(ReadFiles { files: vec![FileToRead { name: s("a"), line_ranges: vec![] }] })
    );
}

#[test]
fn tool_from_args_refuses_missing_required_or_unknown_name() {
    assert!(tool_from_args("run_shell_command", &parse(r#"{"cmd":"ls"}"#)).is_none());
    assert!(tool_from_args("search_codebase", &parse(r#"{}"#)).is_none());
    assert!(tool_from_args("delete_everything", &parse(r#"{"command":"ls"}"#)).is_none());
    assert!(tool_from_args("run_shell_command", &parse(r#"{"command":7}"#)).is_none());
}

#[test]
fn model_tool_call_becomes_task_message() {
    let tc = AssistantToolCall {
        id: s("call_9"),
        call_type: s("function"),
        function: FunctionCallContent { name: s("grep"), arguments: s(r#"{"queries":["q"]}"#) },
    };
    let args = parse(&tc.function.arguments);
    let m = openai_tc_to_warp_tool_call(&tc, "task-1").unwrap();
    assert_eq!(m.id.len(), 36);
    assert_eq!(m.task_id, "task-1");
    assert_eq!(
        m.message,
        Some(MessageBody::ToolCall(ToolCall {
            tool_call_id: s("call_9"),
            tool: Some(Tool::Grep(Grep { queries: vec![s("q")], path: s("") })),
        }))
    );
    let fixed = tool_call_message(&tc, Some(&args), "task-1", s("msg-id")).unwrap();
    assert_eq!(fixed.id, "msg-id");
    assert!(tool_call_message(&tc, None, "task-1", s("x")).is_none());
    let not_json = AssistantToolCall {
        id: s("c"),
        call_type: s("function"),
        function: FunctionCallContent { name: s("run_shell_command"), arguments: s("not json") },
    };
    assert!(openai_tc_to_warp_tool_call(&not_json, "task-1").is_none());
    let unknown = AssistantToolCall {
        id: s("c"),
        call_type: s("function"),
        function: FunctionCallContent { name: s("nope"), arguments: s("{}") },
    };
    assert!(openai_tc_to_warp_tool_call(&unknown, "t").is_none());
}

#[test]
fn model_tool_call_replays_under_same_name() {
    let tc = AssistantToolCall {
        id: s("call_2"),
        call_type: s("function"),
        function: FunctionCallContent {
            name: s("run_shell_command"),
            arguments: s(r#"{"uses_pager":false,"command":"cargo test","is_read_only":false}"#),
        },
    };
    let m = tool_call_message(&tc, Some(&parse(&tc.function.arguments)), "t", s("id")).unwrap();
    let replay = warp_message_to_openai(&m);
    assert_eq!(replay.len(), 1);
    let calls = replay[0].tool_calls.as_ref().unwrap();
    assert_eq!(calls[0].id, "call_2");
    assert_eq!(calls[0].function.name, "run_shell_command");
    assert_eq!(
        calls[0].function.arguments,
        r#"{"command":"cargo test","is_read_only":false,"uses_pager":false}"#
    );
}

#[test]
fn shell_results_are_formatted() {
    let r = |o: Option<ShellOutcome>| {
        tool_text(ToolResult::RunShellCommand(RunShellCommandResult { command: s("ls"), result: o }))
    };
    assert_eq!(
        r(Some(ShellOutcome::CommandFinished { exit_code: -2, output: s("out") })).unwrap(),
        "Command: ls\nExit code: -2\nout"
    );
    assert_eq!(
        r(Some(ShellOutcome::LongRunningCommandSnapshot { output: s("partial") })).unwrap(),
        "Command: ls (still running)\npartial"
    );
    assert_eq!(r(Some(ShellOutcome::PermissionDenied)).unwrap(), "Command denied: ls");
    assert_eq!(r(None).unwrap(), "Command: ls (no result)");
}

#[test]
fn read_files_results_are_formatted() {
    let r = |o: Option<ReadFilesOutcome>| tool_text(ToolResult::ReadFiles(ReadFilesResult { result: o }));
    let files = vec![
        FileContent { file_path: s("a.rs"), content: s("A") },
        FileContent { file_path: s("b.rs"), content: s("B") },
    ];
    assert_eq!(
        r(Some(ReadFilesOutcome::TextFilesSuccess { files })).unwrap(),
        "=== a.rs ===\nA\n\n=== b.rs ===\nB"
    );
    assert_eq!(r(Some(ReadFilesOutcome::TextFilesSuccess { files: vec![] })).unwrap(), "");
    assert_eq!(
        r(Some(ReadFilesOutcome::AnyFilesSuccess { files: vec![s("x"), s("y")] })).unwrap(),
        "Read 2 file(s)"
    );
    assert_eq!(
        r(Some(ReadFilesOutcome::Error { message: s("boom") })).unwrap(),
        "Error reading files: boom"
    );
    assert_eq!(r(None).unwrap(), "No result");
}

#[test]
fn apply_diffs_results_are_formatted() {
    let r = |o: Option<ApplyFileDiffsOutcome>| {
        tool_text(ToolResult::ApplyFileDiffs(ApplyFileDiffsResult { result: o }))
    };
    let updated = vec![
        UpdatedFile { file_path: Some(s("a.rs")) },
        UpdatedFile { file_path: None },
        UpdatedFile { file_path: Some(s("b.rs")) },
    ];
    assert_eq!(
        r(Some(ApplyFileDiffsOutcome::Success { updated_files: updated })).unwrap(),
        "Successfully updated: a.rs, b.rs"
    );
    assert_eq!(
        r(Some(ApplyFileDiffsOutcome::Success { updated_files: vec![] })).unwrap(),
        "Successfully updated: "
    );
    assert_eq!(
        r(Some(ApplyFileDiffsOutcome::Error { message: s("conflict") })).unwrap(),
        "Error applying diffs: conflict"
    );
    assert_eq!(r(None).unwrap(), "No result");
}

#[test]
fn grep_results_are_formatted() {
    let r = |o: Option<GrepOutcome>| tool_text(ToolResult::Grep(GrepResult { result: o }));
    let matched = vec![
        GrepFileMatch { file_path: s("a.rs"), line_numbers: vec![1, 20, 4294967295] },
        GrepFileMatch { file_path: s("b.rs"), line_numbers: vec![] },
    ];
    assert_eq!(
        r(Some(GrepOutcome::Success { matched_files: matched })).unwrap(),
        "a.rs: lines 1, 20, 4294967295\nb.rs: lines "
    );
    assert_eq!(
        r(Some(GrepOutcome::Success { matched_files: vec![] })).unwrap(),
        "No matches found"
    );
    assert_eq!(r(Some(GrepOutcome::Error { message: s("bad") })).unwrap(), "Grep error: bad");
    assert_eq!(r(None).unwrap(), "No result");
}

#[test]
fn glob_results_are_formatted() {
    let r = |o: Option<FileGlobV2Outcome>| tool_text(ToolResult::FileGlobV2(FileGlobV2Result { result: o }));
    assert_eq!(
        r(Some(FileGlobV2Outcome::Success { matched_files: vec![s("x"), s("y/z")] })).unwrap(),
        "x\ny/z"
    );
    assert_eq!(
        r(Some(FileGlobV2Outcome::Success { matched_files: vec![] })).unwrap(),
        "No files matched"
    );
    assert_eq!(r(Some(FileGlobV2Outcome::Error { message: s("e") })).unwrap(), "Glob error: e");
    assert_eq!(r(None).unwrap(), "No result");
}

#[test]
fn search_results_are_formatted() {
    let r = |o: Option<SearchCodebaseOutcome>| {
        tool_text(ToolResult::SearchCodebase(SearchCodebaseResult { result: o }))
    };
    let files = vec![FileContent { file_path: s("m.rs"), content: s("fn main") }];
    assert_eq!(r(Some(SearchCodebaseOutcome::Success { files })).unwrap(), "=== m.rs ===\nfn main");
    assert_eq!(r(Some(SearchCodebaseOutcome::Error { message: s("e") })).unwrap(), "Search error: e");
    assert_eq!(r(None).unwrap(), "No result");
}

#[test]
fn tool_results_become_tool_messages() {
    let tcr = ToolCallResult {
        tool_call_id: s("call_7"),
        result: Some(ToolResult::Grep(GrepResult { result: None })),
    };
    let m = history_tool_result_to_openai(&tcr).unwrap();
    assert_eq!(
        m,
        ChatMessage { role: s("tool"), content: Some(s("No result")), tool_calls: None, tool_call_id: Some(s("call_7")) }
    );
    let input = InputToolCallResult {
        tool_call_id: s("call_7"),
        result: Some(ToolResult::Grep(GrepResult { result: None })),
    };
    assert_eq!(input_tool_result_to_openai(&input), Some(m));
    let other = ToolCallResult { tool_call_id: s("c"), result: Some(ToolResult::Other) };
    assert!(history_tool_result_to_openai(&other).is_none());
    let none = InputToolCallResult { tool_call_id: s("c"), result: None };
    assert!(input_tool_result_to_openai(&none).is_none());
}

#[test]
fn history_messages_translate_by_kind() {
    let user = warp_message_to_openai(&history(MessageBody::UserQuery(UserQuery { query: s("hi") })));
    assert_eq!(user, vec![ChatMessage { role: s("user"), content: Some(s("hi")), tool_calls: None, tool_call_id: None }]);
    let empty = warp_message_to_openai(&history(MessageBody::AgentOutput(AgentOutput { text: s("") })));
    assert!(empty.is_empty());
    let out = warp_message_to_openai(&history(MessageBody::AgentOutput(AgentOutput { text: s("done") })));
    assert_eq!(out[0].role, "assistant");
    assert_eq!(out[0].content.as_deref(), Some("done"));
    let call = warp_message_to_openai(&history(MessageBody::ToolCall(call_of(Tool::Grep(Grep {
        queries: vec![],
        path: s(""),
    })))));
    assert_eq!(call[0].role, "assistant");
    assert_eq!(call[0].content, None);
    assert_eq!(call[0].tool_calls.as_ref().unwrap().len(), 1);
    let other_call = warp_message_to_openai(&history(MessageBody::ToolCall(call_of(Tool::Other))));
    assert!(other_call.is_empty());
    let diff = warp_message_to_openai(&history(MessageBody::SystemQuery(SystemQuery {
        query_type: Some(SystemQueryType::AutoCodeDiff { query: s("review this") }),
    })));
    assert_eq!(diff[0].role, "user");
    assert_eq!(diff[0].content.as_deref(), Some("review this"));
    let sq = warp_message_to_openai(&history(MessageBody::SystemQuery(SystemQuery {
        query_type: Some(SystemQueryType::Other),
    })));
    assert!(sq.is_empty());
    assert!(warp_message_to_openai(&history(MessageBody::Other)).is_empty());
    assert!(warp_message_to_openai(&Message { id: s("m"), task_id: s("t"), message: None }).is_empty());
}

fn request_with(tasks: Option<Vec<Task>>, inputs: Option<Vec<UserInput>>) -> Request {
    Request {
        task_context: tasks.map(|tasks| TaskContext { tasks }),
        input: inputs.map(|inputs| Input { input_type: Some(InputType::UserInputs { inputs }) }),
        settings: None,
        metadata: None,
    }
}

#[test]
fn openai_messages_are_system_history_then_inputs() {
    let root = Task {
        id: s("root"),
        description: s("Main task"),
        messages: vec![
            history(MessageBody::UserQuery(UserQuery { query: s("first") })),
            history(MessageBody::AgentOutput(AgentOutput { text: s("answer") })),
        ],
    };
    let other = Task {
        id: s("sub"),
        description: s(""),
        messages: vec![history(MessageBody::UserQuery(UserQuery { query: s("ignored") }))],
    };
    let inputs = vec![
        UserInput { input: Some(UserInputKind::UserQuery(UserQuery { query: s("second") })) },
        UserInput { input: Some(UserInputKind::Other) },
        UserInput { input: None },
        UserInput {
            input: Some(UserInputKind::ToolCallResult(InputToolCallResult {
                tool_call_id: s("c1"),
                result: Some(ToolResult::FileGlobV2(FileGlobV2Result { result: None })),
            })),
        },
    ];
    let msgs = build_openai_messages(&request_with(Some(vec![root, other]), Some(inputs)));
    let roles: Vec<&str> = msgs.iter().map(|m| m.role.as_str()).collect();
    assert_eq!(roles, vec!["system", "user", "assistant", "user", "tool"]);
    assert_eq!(msgs[0].content.as_deref(), Some(SYSTEM_PROMPT));
    assert_eq!(msgs[1].content.as_deref(), Some("first"));
    assert_eq!(msgs[3].content.as_deref(), Some("second"));
    assert_eq!(msgs[4].tool_call_id.as_deref(), Some("c1"));
}

#[test]
fn openai_messages_of_empty_request_is_system_prompt() {
    let msgs = build_openai_messages(&request_with(None, None));
    assert_eq!(msgs.len(), 1);
    assert!(SYSTEM_PROMPT.starts_with("You are an expert AI assistant embedded in the Warp terminal. "));
    assert!(SYSTEM_PROMPT.ends_with("Be concise and take action rather than explaining what you're about to do."));
    let msgs = build_openai_messages(&request_with(Some(vec![]), Some(vec![])));
    assert_eq!(msgs.len(), 1);
}

#[test]
fn glob_limits_are_cut_to_32_bits() {
    let t = tool_from_args(
        "file_glob_v2",
        &parse(r#"{"patterns":["*"],"max_matches":4294967301,"max_depth":2.5}"#),
    )
    .unwrap();
    assert_eq!(
        t,
        Tool::FileGlobV2(FileGlobV2 {
            patterns: vec![s("*")],
            search_dir: s(""),
            max_matches: 5,
            max_depth: 0,
            min_depth: 0,
        })
    );
}
