//! Translation between task histories of the multi-agent protocol and
//! OpenAI chat-completions messages, in both directions.

use vstd::prelude::*;

use crate::ids::{is_uuid_v4_text, new_uuid_text};
use crate::json::{
    json_items_view, json_view, spec_array_field, spec_bool_field, spec_i64_field, spec_json_text,
    spec_str_field, spec_str_items, JsonValue, SpecJson, parse_json_text, spec_parse_json_text,
};
use crate::openai::{
    AssistantToolCall, ChatMessage, FunctionCallContent, SpecAssistantToolCall, SpecChatMessage,
};
use crate::proto::{
    ApplyFileDiffs, ApplyFileDiffsOutcome, ApplyFileDiffsResult, DeleteFile, FileContent,
    FileDiff, FileGlobV2, FileGlobV2Outcome, FileGlobV2Result, FileToRead, Grep, GrepFileMatch, GrepOutcome,
    GrepResult, InputToolCallResult, InputType, Message, MessageBody, NewFile, ReadFiles,
    ReadFilesOutcome, ReadFilesResult, Request, RunShellCommand, RunShellCommandResult,
    SearchCodebase, SearchCodebaseOutcome, SearchCodebaseResult, ShellOutcome,
    SpecApplyFileDiffs, SpecApplyFileDiffsOutcome, SpecFileDiff, SpecFileGlobV2,
    SpecFileGlobV2Outcome, SpecFileToRead, SpecGrep, SpecGrepOutcome, SpecMessage,
    SpecMessageBody, SpecNewFile, SpecReadFiles, SpecReadFilesOutcome, SpecRequest,
    SpecRunShellCommand, SpecRunShellCommandResult, SpecSearchCodebase,
    SpecSearchCodebaseOutcome, SpecShellOutcome, SpecTool, SpecToolCall, SpecToolCallResult,
    SpecToolResult, SpecUserInput, SystemQueryType, Tool, ToolCall, ToolCallResult, ToolResult,
    UserInputKind,
};
use crate::text::{
    concat2, concat3, decimal_i64, decimal_u64, join, owned, spec_decimal, spec_digits,
    spec_join, text_eq,
};

verus! {

/// The system prompt that opens every conversation sent to the provider.
pub const SYSTEM_PROMPT: &'static str = "You are an expert AI assistant embedded in the Warp terminal. You help users with shell commands, coding, file editing, and system administration. You have tools to run shell commands, read and edit files, search code, and list files by pattern. When making code changes, prefer apply_file_diffs for accuracy. Be concise and take action rather than explaining what you're about to do.";

// ── Specification: protocol tool calls → chat tool calls ────────────────────

/// A JSON string value.
pub open spec fn js(s: Seq<char>) -> SpecJson {
    SpecJson::Str(s)
}

/// A JSON array of strings.
pub open spec fn js_strings(items: Seq<Seq<char>>) -> SpecJson {
    SpecJson::Array(items.map_values(|s: Seq<char>| SpecJson::Str(s)))
}

/// The tool name and JSON arguments that a protocol tool is sent as; object
/// members are listed by ascending key. `None` for tools with no
/// chat-completions counterpart.
pub open spec fn spec_tool_name_args(t: SpecTool) -> Option<(Seq<char>, SpecJson)> {
    match t {
        SpecTool::RunShellCommand(r) => Some(
            (
                "run_shell_command"@,
                SpecJson::Object(
                    seq![
                        ("command"@, js(r.command)),
                        ("is_read_only"@, SpecJson::Bool(r.is_read_only)),
                        ("uses_pager"@, SpecJson::Bool(r.uses_pager)),
                    ],
                ),
            ),
        ),
        SpecTool::ReadFiles(rf) => Some(
            (
                "read_files"@,
                SpecJson::Object(
                    seq![
                        (
                            "files"@,
                            SpecJson::Array(
                                rf.files.map_values(
                                    |f: SpecFileToRead| SpecJson::Object(seq![("name"@, js(f.name))]),
                                ),
                            ),
                        ),
                    ],
                ),
            ),
        ),
        SpecTool::ApplyFileDiffs(ad) => Some(
            (
                "apply_file_diffs"@,
                SpecJson::Object(
                    seq![
                        (
                            "diffs"@,
                            SpecJson::Array(
                                ad.diffs.map_values(
                                    |d: SpecFileDiff|
                                        SpecJson::Object(
                                            seq![
                                                ("file_path"@, js(d.file_path)),
                                                ("replace"@, js(d.replace)),
                                                ("search"@, js(d.search)),
                                            ],
                                        ),
                                ),
                            ),
                        ),
                        (
                            "new_files"@,
                            SpecJson::Array(
                                ad.new_files.map_values(
                                    |f: SpecNewFile|
                                        SpecJson::Object(
                                            seq![
                                                ("content"@, js(f.content)),
                                                ("file_path"@, js(f.file_path)),
                                            ],
                                        ),
                                ),
                            ),
                        ),
                        ("summary"@, js(ad.summary)),
                    ],
                ),
            ),
        ),
        SpecTool::Grep(g) => Some(
            (
                "grep"@,
                SpecJson::Object(
                    seq![("path"@, js(g.path)), ("queries"@, js_strings(g.queries))],
                ),
            ),
        ),
        SpecTool::FileGlobV2(fg) => Some(
            (
                "file_glob_v2"@,
                SpecJson::Object(
                    seq![
                        ("max_depth"@, SpecJson::Int(fg.max_depth as i64)),
                        ("max_matches"@, SpecJson::Int(fg.max_matches as i64)),
                        ("patterns"@, js_strings(fg.patterns)),
                        ("search_dir"@, js(fg.search_dir)),
                    ],
                ),
            ),
        ),
        SpecTool::SearchCodebase(sc) => Some(
            (
                "search_codebase"@,
                SpecJson::Object(
                    seq![("path_filters"@, js_strings(sc.path_filters)), ("query"@, js(sc.query))],
                ),
            ),
        ),
        SpecTool::Other => None,
    }
}

/// The chat tool call that a protocol tool call is sent as.
pub open spec fn spec_warp_tool_call_to_openai_tc(tc: SpecToolCall) -> Option<SpecAssistantToolCall> {
    match tc.tool {
        Some(t) => match spec_tool_name_args(t) {
            Some((name, args)) => Some(
                SpecAssistantToolCall {
                    id: tc.tool_call_id,
                    call_type: "function"@,
                    name: name,
                    arguments: spec_json_text(args),
                },
            ),
            None => None,
        },
        None => None,
    }
}

// ── Implementation: protocol tool calls → chat tool calls ───────────────────

fn json_str(s: &str) -> (r: JsonValue)
    ensures
        json_view(&r) == SpecJson::Str(s@),
{
    JsonValue::Str(String::from_str(s))
}

fn member(key: &str, value: JsonValue) -> (r: (String, JsonValue))
    ensures
        r.0@ == key@,
        r.1 == value,
{
    (String::from_str(key), value)
}

proof fn lemma_object_view(members: Vec<(String, JsonValue)>, spec: Seq<(Seq<char>, SpecJson)>)
    requires
        members@.len() == spec.len(),
        forall|k: int|
            0 <= k < spec.len() ==> (#[trigger] members@[k]).0@ == spec[k].0 && json_view(
                &members@[k].1,
            ) == spec[k].1,
    ensures
        json_view(&JsonValue::Object(members)) == SpecJson::Object(spec),
{
    assert(json_view(&JsonValue::Object(members))->Object_0 =~= spec);
}

proof fn lemma_array_view(items: Vec<JsonValue>, spec: Seq<SpecJson>)
    requires
        json_items_view(items@) == spec,
    ensures
        json_view(&JsonValue::Array(items)) == SpecJson::Array(spec),
{
    assert(json_view(&JsonValue::Array(items))->Array_0 =~= spec);
}

fn strings_json(items: &Vec<String>) -> (r: JsonValue)
    ensures
        json_view(&r) == js_strings(items.deep_view()),
{
    let ghost target = items.deep_view().map_values(|s: Seq<char>| SpecJson::Str(s));
    let mut out: Vec<JsonValue> = Vec::new();
    let mut i: usize = 0;
    while i < items.len()
        invariant
            i <= items@.len(),
            target.len() == items@.len(),
            out@.len() == i,
            target == items.deep_view().map_values(|s: Seq<char>| SpecJson::Str(s)),
            json_items_view(out@) =~= target.take(i as int),
        decreases items@.len() - i,
    {
        out.push(JsonValue::Str(items[i].clone()));
        assert(items.deep_view()[i as int] == items@[i as int]@);
        assert(json_items_view(out@)[i as int] == target[i as int]);
        assert(json_items_view(out@) =~= target.take(i + 1));
        i = i + 1;
    }
    proof {
        assert(target.take(items@.len() as int) =~= target);
        lemma_array_view(out, target);
    }
    JsonValue::Array(out)
}

fn files_to_read_json(files: &Vec<FileToRead>) -> (r: JsonValue)
    ensures
        json_view(&r) == SpecJson::Array(
            files.deep_view().map_values(
                |f: SpecFileToRead| SpecJson::Object(seq![("name"@, js(f.name))]),
            ),
        ),
{
    let ghost target = files.deep_view().map_values(
        |f: SpecFileToRead| SpecJson::Object(seq![("name"@, js(f.name))]),
    );
    let mut out: Vec<JsonValue> = Vec::new();
    let mut i: usize = 0;
    while i < files.len()
        invariant
            i <= files@.len(),
            target.len() == files@.len(),
            out@.len() == i,
            target == files.deep_view().map_values(
                |f: SpecFileToRead| SpecJson::Object(seq![("name"@, js(f.name))]),
            ),
            json_items_view(out@) =~= target.take(i as int),
        decreases files@.len() - i,
    {
        assert(files.deep_view()[i as int] == files@[i as int].deep_view());
        let mut members: Vec<(String, JsonValue)> = Vec::new();
        members.push(member("name", JsonValue::Str(files[i].name.clone())));
        proof {
            lemma_object_view(members, seq![("name"@, js(files@[i as int].name@))]);
        }
        out.push(JsonValue::Object(members));
        assert(json_items_view(out@)[i as int] == target[i as int]);
        assert(json_items_view(out@) =~= target.take(i + 1));
        i = i + 1;
    }
    proof {
        assert(target.take(files@.len() as int) =~= target);
        lemma_array_view(out, target);
    }
    JsonValue::Array(out)
}

fn diffs_json(diffs: &Vec<FileDiff>) -> (r: JsonValue)
    ensures
        json_view(&r) == SpecJson::Array(
            diffs.deep_view().map_values(
                |d: SpecFileDiff|
                    SpecJson::Object(
                        seq![
                            ("file_path"@, js(d.file_path)),
                            ("replace"@, js(d.replace)),
                            ("search"@, js(d.search)),
                        ],
                    ),
            ),
        ),
{
    let ghost target = diffs.deep_view().map_values(
        |d: SpecFileDiff|
            SpecJson::Object(
                seq![
                    ("file_path"@, js(d.file_path)),
                    ("replace"@, js(d.replace)),
                    ("search"@, js(d.search)),
                ],
            ),
    );
    let mut out: Vec<JsonValue> = Vec::new();
    let mut i: usize = 0;
    while i < diffs.len()
        invariant
            i <= diffs@.len(),
            target.len() == diffs@.len(),
            out@.len() == i,
            target == diffs.deep_view().map_values(
                |d: SpecFileDiff|
                    SpecJson::Object(
                        seq![
                            ("file_path"@, js(d.file_path)),
                            ("replace"@, js(d.replace)),
                            ("search"@, js(d.search)),
                        ],
                    ),
            ),
            json_items_view(out@) =~= target.take(i as int),
        decreases diffs@.len() - i,
    {
        let d = &diffs[i];
        assert(diffs.deep_view()[i as int] == d.deep_view());
        let mut members: Vec<(String, JsonValue)> = Vec::new();
        members.push(member("file_path", JsonValue::Str(d.file_path.clone())));
        members.push(member("replace", JsonValue::Str(d.replace.clone())));
        members.push(member("search", JsonValue::Str(d.search.clone())));
        proof {
            lemma_object_view(
                members,
                seq![
                    ("file_path"@, js(d.file_path@)),
                    ("replace"@, js(d.replace@)),
                    ("search"@, js(d.search@)),
                ],
            );
        }
        out.push(JsonValue::Object(members));
        assert(json_items_view(out@)[i as int] == target[i as int]);
        assert(json_items_view(out@) =~= target.take(i + 1));
        i = i + 1;
    }
    proof {
        assert(target.take(diffs@.len() as int) =~= target);
        lemma_array_view(out, target);
    }
    JsonValue::Array(out)
}

fn new_files_json(files: &Vec<NewFile>) -> (r: JsonValue)
    ensures
        json_view(&r) == SpecJson::Array(
            files.deep_view().map_values(
                |f: SpecNewFile|
                    SpecJson::Object(
                        seq![("content"@, js(f.content)), ("file_path"@, js(f.file_path))],
                    ),
            ),
        ),
{
    let ghost target = files.deep_view().map_values(
        |f: SpecNewFile|
            SpecJson::Object(seq![("content"@, js(f.content)), ("file_path"@, js(f.file_path))]),
    );
    let mut out: Vec<JsonValue> = Vec::new();
    let mut i: usize = 0;
    while i < files.len()
        invariant
            i <= files@.len(),
            target.len() == files@.len(),
            out@.len() == i,
            target == files.deep_view().map_values(
                |f: SpecNewFile|
                    SpecJson::Object(
                        seq![("content"@, js(f.content)), ("file_path"@, js(f.file_path))],
                    ),
            ),
            json_items_view(out@) =~= target.take(i as int),
        decreases files@.len() - i,
    {
        let f = &files[i];
        assert(files.deep_view()[i as int] == f.deep_view());
        let mut members: Vec<(String, JsonValue)> = Vec::new();
        members.push(member("content", JsonValue::Str(f.content.clone())));
        members.push(member("file_path", JsonValue::Str(f.file_path.clone())));
        proof {
            lemma_object_view(
                members,
                seq![("content"@, js(f.content@)), ("file_path"@, js(f.file_path@))],
            );
        }
        out.push(JsonValue::Object(members));
        assert(json_items_view(out@)[i as int] == target[i as int]);
        assert(json_items_view(out@) =~= target.take(i + 1));
        i = i + 1;
    }
    proof {
        assert(target.take(files@.len() as int) =~= target);
        lemma_array_view(out, target);
    }
    JsonValue::Array(out)
}

/// The tool name and JSON arguments that a protocol tool is sent as.
pub fn tool_name_args(t: &Tool) -> (r: Option<(String, JsonValue)>)
    ensures
        match r {
            Some((name, args)) => spec_tool_name_args(t.deep_view()) == Some(
                (name@, json_view(&args)),
            ),
            None => spec_tool_name_args(t.deep_view()) is None,
        },
{
    match t {
        Tool::RunShellCommand(r) => {
            let mut members: Vec<(String, JsonValue)> = Vec::new();
            members.push(member("command", JsonValue::Str(r.command.clone())));
            members.push(member("is_read_only", JsonValue::Bool(r.is_read_only)));
            members.push(member("uses_pager", JsonValue::Bool(r.uses_pager)));
            proof {
                lemma_object_view(
                    members,
                    seq![
                        ("command"@, js(r.command@)),
                        ("is_read_only"@, SpecJson::Bool(r.is_read_only)),
                        ("uses_pager"@, SpecJson::Bool(r.uses_pager)),
                    ],
                );
            }
            Some((String::from_str("run_shell_command"), JsonValue::Object(members)))
        },
        Tool::ReadFiles(rf) => {
            let files = files_to_read_json(&rf.files);
            let mut members: Vec<(String, JsonValue)> = Vec::new();
            members.push(member("files", files));
            proof {
                lemma_object_view(members, seq![("files"@, json_view(&members@[0].1))]);
            }
            Some((String::from_str("read_files"), JsonValue::Object(members)))
        },
        Tool::ApplyFileDiffs(ad) => {
            let diffs = diffs_json(&ad.diffs);
            let new_files = new_files_json(&ad.new_files);
            let mut members: Vec<(String, JsonValue)> = Vec::new();
            members.push(member("diffs", diffs));
            members.push(member("new_files", new_files));
            members.push(member("summary", JsonValue::Str(ad.summary.clone())));
            proof {
                lemma_object_view(
                    members,
                    seq![
                        ("diffs"@, json_view(&members@[0].1)),
                        ("new_files"@, json_view(&members@[1].1)),
                        ("summary"@, js(ad.summary@)),
                    ],
                );
            }
            Some((String::from_str("apply_file_diffs"), JsonValue::Object(members)))
        },
        Tool::Grep(g) => {
            let queries = strings_json(&g.queries);
            let mut members: Vec<(String, JsonValue)> = Vec::new();
            members.push(member("path", JsonValue::Str(g.path.clone())));
            members.push(member("queries", queries));
            proof {
                lemma_object_view(
                    members,
                    seq![("path"@, js(g.path@)), ("queries"@, json_view(&members@[1].1))],
                );
            }
            Some((String::from_str("grep"), JsonValue::Object(members)))
        },
        Tool::FileGlobV2(fg) => {
            let patterns = strings_json(&fg.patterns);
            let mut members: Vec<(String, JsonValue)> = Vec::new();
            members.push(member("max_depth", JsonValue::Int(fg.max_depth as i64)));
            members.push(member("max_matches", JsonValue::Int(fg.max_matches as i64)));
            members.push(member("patterns", patterns));
            members.push(member("search_dir", JsonValue::Str(fg.search_dir.clone())));
            proof {
                lemma_object_view(
                    members,
                    seq![
                        ("max_depth"@, SpecJson::Int(fg.max_depth as i64)),
                        ("max_matches"@, SpecJson::Int(fg.max_matches as i64)),
                        ("patterns"@, json_view(&members@[2].1)),
                        ("search_dir"@, js(fg.search_dir@)),
                    ],
                );
            }
            Some((String::from_str("file_glob_v2"), JsonValue::Object(members)))
        },
        Tool::SearchCodebase(sc) => {
            let filters = strings_json(&sc.path_filters);
            let mut members: Vec<(String, JsonValue)> = Vec::new();
            members.push(member("path_filters", filters));
            members.push(member("query", JsonValue::Str(sc.query.clone())));
            proof {
                lemma_object_view(
                    members,
                    seq![("path_filters"@, json_view(&members@[0].1)), ("query"@, js(sc.query@))],
                );
            }
            Some((String::from_str("search_codebase"), JsonValue::Object(members)))
        },
        Tool::Other => None,
    }
}

/// Convert a protocol `ToolCall` (from the conversation history) to an OpenAI
/// `AssistantToolCall` whose arguments are the tool's JSON arguments as text.
pub fn warp_tool_call_to_openai_tc(tc: &ToolCall) -> (r: Option<AssistantToolCall>)
    ensures
        r.deep_view() == spec_warp_tool_call_to_openai_tc(tc.deep_view()),
{
    match &tc.tool {
        Some(t) => match tool_name_args(t) {
            Some((name, args)) => {
                let arguments = args.to_json_text();
                Some(
                    AssistantToolCall {
                        id: tc.tool_call_id.clone(),
                        call_type: String::from_str("function"),
                        function: FunctionCallContent { name, arguments },
                    },
                )
            },
            None => None,
        },
        None => None,
    }
}

// ── Tool result formatting ──────────────────────────────────────────────────

/// A file shown with a header line: `=== path ===` then its text.
pub open spec fn spec_file_block(f: (Seq<char>, Seq<char>)) -> Seq<char> {
    "=== "@ + f.0 + " ===\n"@ + f.1
}

/// How a shell command result is shown to the model.
pub open spec fn spec_format_shell_result(r: SpecRunShellCommandResult) -> Seq<char> {
    match r.result {
        Some(SpecShellOutcome::CommandFinished { exit_code, output }) => "Command: "@ + r.command
            + "\nExit code: "@ + spec_decimal(exit_code as int) + "\n"@ + output,
        Some(SpecShellOutcome::LongRunningCommandSnapshot { output }) => "Command: "@ + r.command
            + " (still running)\n"@ + output,
        Some(SpecShellOutcome::PermissionDenied) => "Command denied: "@ + r.command,
        None => "Command: "@ + r.command + " (no result)"@,
    }
}

/// How a read-files result is shown to the model.
pub open spec fn spec_format_read_files_result(r: Option<SpecReadFilesOutcome>) -> Seq<char> {
    match r {
        Some(SpecReadFilesOutcome::TextFilesSuccess { files }) => spec_join(
            files.map_values(|f: (Seq<char>, Seq<char>)| spec_file_block(f)),
            "\n\n"@,
        ),
        Some(SpecReadFilesOutcome::AnyFilesSuccess { files }) => "Read "@ + spec_digits(
            files.len(),
        ) + " file(s)"@,
        Some(SpecReadFilesOutcome::Error { message }) => "Error reading files: "@ + message,
        None => "No result"@,
    }
}

/// How an apply-diffs result is shown to the model.
pub open spec fn spec_format_apply_diffs_result(r: Option<SpecApplyFileDiffsOutcome>) -> Seq<char> {
    match r {
        Some(SpecApplyFileDiffsOutcome::Success { updated_files }) => "Successfully updated: "@
            + spec_join(updated_files.filter_map(|u: Option<Seq<char>>| u), ", "@),
        Some(SpecApplyFileDiffsOutcome::Error { message }) => "Error applying diffs: "@ + message,
        None => "No result"@,
    }
}

/// One line of a grep result: the file and its matched line numbers.
pub open spec fn spec_grep_line(m: (Seq<char>, Seq<u32>)) -> Seq<char> {
    m.0 + ": lines "@ + spec_join(m.1.map_values(|n: u32| spec_digits(n as nat)), ", "@)
}

/// How a grep result is shown to the model.
pub open spec fn spec_format_grep_result(r: Option<SpecGrepOutcome>) -> Seq<char> {
    match r {
        Some(SpecGrepOutcome::Success { matched_files }) => if matched_files.len() == 0 {
            "No matches found"@
        } else {
            spec_join(
                matched_files.map_values(|m: (Seq<char>, Seq<u32>)| spec_grep_line(m)),
                "\n"@,
            )
        },
        Some(SpecGrepOutcome::Error { message }) => "Grep error: "@ + message,
        None => "No result"@,
    }
}

/// How a file-glob result is shown to the model.
pub open spec fn spec_format_file_glob_v2_result(r: Option<SpecFileGlobV2Outcome>) -> Seq<char> {
    match r {
        Some(SpecFileGlobV2Outcome::Success { matched_files }) => if matched_files.len() == 0 {
            "No files matched"@
        } else {
            spec_join(matched_files, "\n"@)
        },
        Some(SpecFileGlobV2Outcome::Error { message }) => "Glob error: "@ + message,
        None => "No result"@,
    }
}

/// How a codebase-search result is shown to the model.
pub open spec fn spec_format_search_codebase_result(r: Option<SpecSearchCodebaseOutcome>) -> Seq<char> {
    match r {
        Some(SpecSearchCodebaseOutcome::Success { files }) => spec_join(
            files.map_values(|f: (Seq<char>, Seq<char>)| spec_file_block(f)),
            "\n\n"@,
        ),
        Some(SpecSearchCodebaseOutcome::Error { message }) => "Search error: "@ + message,
        None => "No result"@,
    }
}

/// The text a tool result is shown to the model as; `None` for results of
/// tools with no chat-completions counterpart.
pub open spec fn spec_tool_result_content(r: SpecToolResult) -> Option<Seq<char>> {
    match r {
        SpecToolResult::RunShellCommand(x) => Some(spec_format_shell_result(x)),
        SpecToolResult::ReadFiles(x) => Some(spec_format_read_files_result(x)),
        SpecToolResult::ApplyFileDiffs(x) => Some(spec_format_apply_diffs_result(x)),
        SpecToolResult::Grep(x) => Some(spec_format_grep_result(x)),
        SpecToolResult::FileGlobV2(x) => Some(spec_format_file_glob_v2_result(x)),
        SpecToolResult::SearchCodebase(x) => Some(spec_format_search_codebase_result(x)),
        SpecToolResult::Other => None,
    }
}

/// The `tool` message that carries a tool result to the model.
pub open spec fn spec_tool_result_message(t: SpecToolCallResult) -> Option<SpecChatMessage> {
    match t.result {
        Some(r) => match spec_tool_result_content(r) {
            Some(c) => Some(
                SpecChatMessage {
                    role: "tool"@,
                    content: Some(c),
                    tool_calls: None,
                    tool_call_id: Some(t.tool_call_id),
                },
            ),
            None => None,
        },
        None => None,
    }
}

fn file_block(f: &FileContent) -> (r: String)
    ensures
        r@ == spec_file_block(f.deep_view()),
{
    let mut r = owned("=== ");
    r.append(f.file_path.as_str());
    r.append(" ===\n");
    r.append(f.content.as_str());
    r
}

fn file_blocks(files: &Vec<FileContent>) -> (r: String)
    ensures
        r@ == spec_join(
            files.deep_view().map_values(|f: (Seq<char>, Seq<char>)| spec_file_block(f)),
            "\n\n"@,
        ),
{
    let ghost target = files.deep_view().map_values(
        |f: (Seq<char>, Seq<char>)| spec_file_block(f),
    );
    let mut parts: Vec<String> = Vec::new();
    let mut i: usize = 0;
    while i < files.len()
        invariant
            i <= files@.len(),
            parts@.len() == i,
            target.len() == files@.len(),
            target == files.deep_view().map_values(
                |f: (Seq<char>, Seq<char>)| spec_file_block(f),
            ),
            parts@.map_values(|p: String| p@) =~= target.take(i as int),
        decreases files@.len() - i,
    {
        assert(files.deep_view()[i as int] == files@[i as int].deep_view());
        parts.push(file_block(&files[i]));
        assert(parts@.map_values(|p: String| p@) =~= target.take(i + 1));
        i = i + 1;
    }
    assert(target.take(files@.len() as int) =~= target);
    join(&parts, "\n\n")
}

fn format_shell_result(r: &RunShellCommandResult) -> (t: String)
    ensures
        t@ == spec_format_shell_result(r.deep_view()),
{
    match &r.result {
        Some(ShellOutcome::CommandFinished { exit_code, output }) => {
            let mut t = owned("Command: ");
            t.append(r.command.as_str());
            t.append("\nExit code: ");
            let code = decimal_i64(*exit_code as i64);
            t.append(code.as_str());
            t.append("\n");
            t.append(output.as_str());
            t
        },
        Some(ShellOutcome::LongRunningCommandSnapshot { output }) => {
            let mut t = owned("Command: ");
            t.append(r.command.as_str());
            t.append(" (still running)\n");
            t.append(output.as_str());
            t
        },
        Some(ShellOutcome::PermissionDenied) => concat2("Command denied: ", r.command.as_str()),
        None => concat3("Command: ", r.command.as_str(), " (no result)"),
    }
}

fn format_read_files_result(r: &ReadFilesResult) -> (t: String)
    ensures
        t@ == spec_format_read_files_result(r.deep_view()),
{
    match &r.result {
        Some(ReadFilesOutcome::TextFilesSuccess { files }) => file_blocks(files),
        Some(ReadFilesOutcome::AnyFilesSuccess { files }) => {
            let n = decimal_u64(files.len() as u64);
            concat3("Read ", n.as_str(), " file(s)")
        },
        Some(ReadFilesOutcome::Error { message }) => concat2(
            "Error reading files: ",
            message.as_str(),
        ),
        None => owned("No result"),
    }
}

fn format_apply_diffs_result(r: &ApplyFileDiffsResult) -> (t: String)
    ensures
        t@ == spec_format_apply_diffs_result(r.deep_view()),
{
    match &r.result {
        Some(ApplyFileDiffsOutcome::Success { updated_files }) => {
            let ghost sv = updated_files.deep_view();
            let mut files: Vec<String> = Vec::new();
            let mut i: usize = 0;
            while i < updated_files.len()
                invariant
                    i <= updated_files@.len(),
                    sv == updated_files.deep_view(),
                    files@.map_values(|p: String| p@) =~= sv.take(i as int).filter_map(
                        |u: Option<Seq<char>>| u,
                    ),
                decreases updated_files@.len() - i,
            {
                assert(sv[i as int] == updated_files@[i as int].deep_view());
                assert(sv.take(i + 1).drop_last() =~= sv.take(i as int));
                match &updated_files[i].file_path {
                    Some(p) => {
                        files.push(p.clone());
                    },
                    None => {},
                }
                assert(files@.map_values(|p: String| p@) =~= sv.take(i + 1).filter_map(
                    |u: Option<Seq<char>>| u,
                ));
                i = i + 1;
            }
            assert(sv.take(updated_files@.len() as int) =~= sv);
            let joined = join(&files, ", ");
            concat2("Successfully updated: ", joined.as_str())
        },
        Some(ApplyFileDiffsOutcome::Error { message }) => concat2(
            "Error applying diffs: ",
            message.as_str(),
        ),
        None => owned("No result"),
    }
}

fn grep_line(m: &GrepFileMatch) -> (t: String)
    ensures
        t@ == spec_grep_line(m.deep_view()),
{
    let ghost target = m.line_numbers.deep_view().map_values(|n: u32| spec_digits(n as nat));
    let mut nums: Vec<String> = Vec::new();
    let mut i: usize = 0;
    while i < m.line_numbers.len()
        invariant
            i <= m.line_numbers@.len(),
            nums@.len() == i,
            target.len() == m.line_numbers@.len(),
            target == m.line_numbers.deep_view().map_values(|n: u32| spec_digits(n as nat)),
            nums@.map_values(|p: String| p@) =~= target.take(i as int),
        decreases m.line_numbers@.len() - i,
    {
        let d = decimal_u64(m.line_numbers[i] as u64);
        assert(d@ == target[i as int]);
        nums.push(d);
        assert(nums@.map_values(|p: String| p@) =~= target.take(i + 1));
        i = i + 1;
    }
    assert(target.take(m.line_numbers@.len() as int) =~= target);
    let joined = join(&nums, ", ");
    concat3(m.file_path.as_str(), ": lines ", joined.as_str())
}

fn format_grep_result(r: &GrepResult) -> (t: String)
    ensures
        t@ == spec_format_grep_result(r.deep_view()),
{
    match &r.result {
        Some(GrepOutcome::Success { matched_files }) => {
            let ghost target = matched_files.deep_view().map_values(
                |m: (Seq<char>, Seq<u32>)| spec_grep_line(m),
            );
            let mut lines: Vec<String> = Vec::new();
            let mut i: usize = 0;
            while i < matched_files.len()
                invariant
                    i <= matched_files@.len(),
                    lines@.len() == i,
                    target.len() == matched_files@.len(),
                    target == matched_files.deep_view().map_values(
                        |m: (Seq<char>, Seq<u32>)| spec_grep_line(m),
                    ),
                    lines@.map_values(|p: String| p@) =~= target.take(i as int),
                decreases matched_files@.len() - i,
            {
                assert(matched_files.deep_view()[i as int] == matched_files@[i as int].deep_view());
                lines.push(grep_line(&matched_files[i]));
                assert(lines@.map_values(|p: String| p@) =~= target.take(i + 1));
                i = i + 1;
            }
            assert(target.take(matched_files@.len() as int) =~= target);
            if lines.len() == 0 {
                owned("No matches found")
            } else {
                join(&lines, "\n")
            }
        },
        Some(GrepOutcome::Error { message }) => concat2("Grep error: ", message.as_str()),
        None => owned("No result"),
    }
}

fn format_file_glob_v2_result(r: &FileGlobV2Result) -> (t: String)
    ensures
        t@ == spec_format_file_glob_v2_result(r.deep_view()),
{
    match &r.result {
        Some(FileGlobV2Outcome::Success { matched_files }) => {
            assert(matched_files@.map_values(|p: String| p@) =~= matched_files.deep_view());
            if matched_files.len() == 0 {
                owned("No files matched")
            } else {
                join(matched_files, "\n")
            }
        },
        Some(FileGlobV2Outcome::Error { message }) => concat2("Glob error: ", message.as_str()),
        None => owned("No result"),
    }
}

fn format_search_codebase_result(r: &SearchCodebaseResult) -> (t: String)
    ensures
        t@ == spec_format_search_codebase_result(r.deep_view()),
{
    match &r.result {
        Some(SearchCodebaseOutcome::Success { files }) => file_blocks(files),
        Some(SearchCodebaseOutcome::Error { message }) => concat2(
            "Search error: ",
            message.as_str(),
        ),
        None => owned("No result"),
    }
}

/// The text a tool result is shown to the model as.
fn tool_result_content(r: &ToolResult) -> (t: Option<String>)
    ensures
        t.deep_view() == spec_tool_result_content(r.deep_view()),
{
    match r {
        ToolResult::RunShellCommand(x) => Some(format_shell_result(x)),
        ToolResult::ReadFiles(x) => Some(format_read_files_result(x)),
        ToolResult::ApplyFileDiffs(x) => Some(format_apply_diffs_result(x)),
        ToolResult::Grep(x) => Some(format_grep_result(x)),
        ToolResult::FileGlobV2(x) => Some(format_file_glob_v2_result(x)),
        ToolResult::SearchCodebase(x) => Some(format_search_codebase_result(x)),
        ToolResult::Other => None,
    }
}

fn tool_message(tool_call_id: &String, result: &Option<ToolResult>) -> (m: Option<ChatMessage>)
    ensures
        m.deep_view() == spec_tool_result_message(
            SpecToolCallResult { tool_call_id: tool_call_id@, result: result.deep_view() },
        ),
{
    match result {
        Some(r) => match tool_result_content(r) {
            Some(content) => Some(
                ChatMessage {
                    role: owned("tool"),
                    content: Some(content),
                    tool_calls: None,
                    tool_call_id: Some(tool_call_id.clone()),
                },
            ),
            None => None,
        },
        None => None,
    }
}

/// Convert a tool result *in the conversation history* to an OpenAI tool message.
pub fn history_tool_result_to_openai(tcr: &ToolCallResult) -> (m: Option<ChatMessage>)
    ensures
        m.deep_view() == spec_tool_result_message(tcr.deep_view()),
{
    tool_message(&tcr.tool_call_id, &tcr.result)
}

/// Convert a tool result from the *new request input* to an OpenAI tool message.
pub fn input_tool_result_to_openai(tcr: &InputToolCallResult) -> (m: Option<ChatMessage>)
    ensures
        m.deep_view() == spec_tool_result_message(tcr.deep_view()),
{
    tool_message(&tcr.tool_call_id, &tcr.result)
}

// ── Chat tool calls → protocol tool calls ───────────────────────────────────

/// The text, or the empty text when absent.
pub open spec fn text_or_empty(o: Option<Seq<char>>) -> Seq<char> {
    match o {
        Some(t) => t,
        None => Seq::empty(),
    }
}

/// The items, or no items when absent.
pub open spec fn items_or_empty(o: Option<Seq<SpecJson>>) -> Seq<SpecJson> {
    match o {
        Some(items) => items,
        None => Seq::empty(),
    }
}

/// The flag, or `false` when absent.
pub open spec fn flag_or_false(o: Option<bool>) -> bool {
    match o {
        Some(b) => b,
        None => false,
    }
}

/// The integer, or zero when absent, cut to 32 bits as `as i32` does.
pub open spec fn int_or_zero_i32(o: Option<i64>) -> i32 {
    match o {
        Some(i) => i as i32,
        None => 0,
    }
}

/// A file to read, from a `{"name": ...}` argument object.
pub open spec fn spec_file_to_read_from_json(f: SpecJson) -> Option<SpecFileToRead> {
    match spec_str_field(f, "name"@) {
        Some(n) => Some(SpecFileToRead { name: n, line_ranges: Seq::empty() }),
        None => None,
    }
}

/// A diff, from a `{"file_path", "search", "replace"}` argument object; the
/// search text may be missing.
pub open spec fn spec_diff_from_json(d: SpecJson) -> Option<SpecFileDiff> {
    match (spec_str_field(d, "file_path"@), spec_str_field(d, "replace"@)) {
        (Some(fp), Some(rep)) => Some(
            SpecFileDiff {
                file_path: fp,
                search: text_or_empty(spec_str_field(d, "search"@)),
                replace: rep,
            },
        ),
        _ => None,
    }
}

/// A new file, from a `{"file_path", "content"}` argument object.
pub open spec fn spec_new_file_from_json(f: SpecJson) -> Option<SpecNewFile> {
    match (spec_str_field(f, "file_path"@), spec_str_field(f, "content"@)) {
        (Some(fp), Some(c)) => Some(SpecNewFile { file_path: fp, content: c }),
        _ => None,
    }
}

/// A deleted file's path, from a `{"file_path"}` argument object.
pub open spec fn spec_deleted_file_from_json(f: SpecJson) -> Option<Seq<char>> {
    spec_str_field(f, "file_path"@)
}

/// The protocol tool that a chat tool call with this function name and these
/// parsed arguments stands for. `None` for an unknown name or when a required
/// argument is missing; array items that lack a required member are skipped.
pub open spec fn spec_tool_from_args(name: Seq<char>, args: SpecJson) -> Option<SpecTool> {
    if name == "run_shell_command"@ {
        match spec_str_field(args, "command"@) {
            Some(c) => Some(
                SpecTool::RunShellCommand(
                    SpecRunShellCommand {
                        command: c,
                        is_read_only: flag_or_false(spec_bool_field(args, "is_read_only"@)),
                        uses_pager: flag_or_false(spec_bool_field(args, "uses_pager"@)),
                    },
                ),
            ),
            None => None,
        }
    } else if name == "read_files"@ {
        Some(
            SpecTool::ReadFiles(
                SpecReadFiles {
                    files: items_or_empty(spec_array_field(args, "files"@)).filter_map(
                        |f: SpecJson| spec_file_to_read_from_json(f),
                    ),
                },
            ),
        )
    } else if name == "apply_file_diffs"@ {
        Some(
            SpecTool::ApplyFileDiffs(
                SpecApplyFileDiffs {
                    summary: text_or_empty(spec_str_field(args, "summary"@)),
                    diffs: items_or_empty(spec_array_field(args, "diffs"@)).filter_map(
                        |d: SpecJson| spec_diff_from_json(d),
                    ),
                    new_files: items_or_empty(spec_array_field(args, "new_files"@)).filter_map(
                        |f: SpecJson| spec_new_file_from_json(f),
                    ),
                    deleted_files: items_or_empty(
                        spec_array_field(args, "deleted_files"@),
                    ).filter_map(|f: SpecJson| spec_deleted_file_from_json(f)),
                },
            ),
        )
    } else if name == "grep"@ {
        Some(
            SpecTool::Grep(
                SpecGrep {
                    queries: spec_str_items(items_or_empty(spec_array_field(args, "queries"@))),
                    path: text_or_empty(spec_str_field(args, "path"@)),
                },
            ),
        )
    } else if name == "file_glob_v2"@ {
        Some(
            SpecTool::FileGlobV2(
                SpecFileGlobV2 {
                    patterns: spec_str_items(items_or_empty(spec_array_field(args, "patterns"@))),
                    search_dir: text_or_empty(spec_str_field(args, "search_dir"@)),
                    max_matches: int_or_zero_i32(spec_i64_field(args, "max_matches"@)),
                    max_depth: int_or_zero_i32(spec_i64_field(args, "max_depth"@)),
                    min_depth: 0,
                },
            ),
        )
    } else if name == "search_codebase"@ {
        match spec_str_field(args, "query"@) {
            Some(q) => Some(
                SpecTool::SearchCodebase(
                    SpecSearchCodebase {
                        query: q,
                        path_filters: spec_str_items(
                            items_or_empty(spec_array_field(args, "path_filters"@)),
                        ),
                        codebase_path: text_or_empty(spec_str_field(args, "codebase_path"@)),
                    },
                ),
            ),
            None => None,
        }
    } else {
        None
    }
}

/// The tool-call message (with message id `id`) that a chat tool call stands
/// for, given its arguments parsed as JSON (`None` when they are not JSON).
pub open spec fn spec_tool_call_message(
    tc: SpecAssistantToolCall,
    args: Option<SpecJson>,
    task_id: Seq<char>,
    id: Seq<char>,
) -> Option<SpecMessage> {
    match args {
        Some(a) => match spec_tool_from_args(tc.name, a) {
            Some(tool) => Some(
                SpecMessage {
                    id: id,
                    task_id: task_id,
                    message: Some(
                        SpecMessageBody::ToolCall(
                            SpecToolCall { tool_call_id: tc.id, tool: Some(tool) },
                        ),
                    ),
                },
            ),
            None => None,
        },
        None => None,
    }
}

/// The mathematical value of optional parsed arguments.
pub open spec fn opt_json_view(args: Option<&JsonValue>) -> Option<SpecJson> {
    match args {
        Some(a) => Some(json_view(a)),
        None => None,
    }
}

fn text_or_new(o: Option<String>) -> (r: String)
    ensures
        r@ == text_or_empty(o.deep_view()),
{
    match o {
        Some(t) => t,
        None => String::new(),
    }
}

fn array_items<'a>(args: &'a JsonValue, key: &str) -> (r: &'a [JsonValue])
    ensures
        json_items_view(r@) == items_or_empty(spec_array_field(json_view(args), key@)),
{
    match args.array_field(key) {
        Some(v) => v.as_slice(),
        None => {
            let e: &[JsonValue] = &[];
            assert(json_items_view(e@) =~= Seq::<SpecJson>::empty());
            e
        },
    }
}

fn files_to_read_from_json(items: &[JsonValue]) -> (r: Vec<FileToRead>)
    ensures
        r.deep_view() == json_items_view(items@).filter_map(
            |f: SpecJson| spec_file_to_read_from_json(f),
        ),
{
    let ghost sv = json_items_view(items@);
    let mut r: Vec<FileToRead> = Vec::new();
    let mut i: usize = 0;
    while i < items.len()
        invariant
            i <= items@.len(),
            sv == json_items_view(items@),
            r.deep_view() =~= sv.take(i as int).filter_map(
                |f: SpecJson| spec_file_to_read_from_json(f),
            ),
        decreases items@.len() - i,
    {
        assert(sv.take(i + 1).drop_last() =~= sv.take(i as int));
        assert(sv.take(i + 1).last() == json_view(&items@[i as int]));
        match items[i].str_field("name") {
            Some(n) => {
                let f = FileToRead { name: n, line_ranges: Vec::new() };
                assert(f.line_ranges.deep_view() =~= Seq::<(u32, u32)>::empty());
                r.push(f);
            },
            None => {},
        }
        assert(r.deep_view() =~= sv.take(i + 1).filter_map(
            |f: SpecJson| spec_file_to_read_from_json(f),
        ));
        i = i + 1;
    }
    assert(sv.take(items@.len() as int) =~= sv);
    r
}

fn diffs_from_json(items: &[JsonValue]) -> (r: Vec<FileDiff>)
    ensures
        r.deep_view() == json_items_view(items@).filter_map(|d: SpecJson| spec_diff_from_json(d)),
{
    let ghost sv = json_items_view(items@);
    let mut r: Vec<FileDiff> = Vec::new();
    let mut i: usize = 0;
    while i < items.len()
        invariant
            i <= items@.len(),
            sv == json_items_view(items@),
            r.deep_view() =~= sv.take(i as int).filter_map(|d: SpecJson| spec_diff_from_json(d)),
        decreases items@.len() - i,
    {
        assert(sv.take(i + 1).drop_last() =~= sv.take(i as int));
        assert(sv.take(i + 1).last() == json_view(&items@[i as int]));
        let d = &items[i];
        match (d.str_field("file_path"), d.str_field("replace")) {
            (Some(fp), Some(rep)) => {
                let search = text_or_new(d.str_field("search"));
                r.push(FileDiff { file_path: fp, search, replace: rep });
            },
            _ => {},
        }
        assert(r.deep_view() =~= sv.take(i + 1).filter_map(|d: SpecJson| spec_diff_from_json(d)));
        i = i + 1;
    }
    assert(sv.take(items@.len() as int) =~= sv);
    r
}

fn new_files_from_json(items: &[JsonValue]) -> (r: Vec<NewFile>)
    ensures
        r.deep_view() == json_items_view(items@).filter_map(
            |f: SpecJson| spec_new_file_from_json(f),
        ),
{
    let ghost sv = json_items_view(items@);
    let mut r: Vec<NewFile> = Vec::new();
    let mut i: usize = 0;
    while i < items.len()
        invariant
            i <= items@.len(),
            sv == json_items_view(items@),
            r.deep_view() =~= sv.take(i as int).filter_map(
                |f: SpecJson| spec_new_file_from_json(f),
            ),
        decreases items@.len() - i,
    {
        assert(sv.take(i + 1).drop_last() =~= sv.take(i as int));
        assert(sv.take(i + 1).last() == json_view(&items@[i as int]));
        let f = &items[i];
        match (f.str_field("file_path"), f.str_field("content")) {
            (Some(fp), Some(c)) => {
                r.push(NewFile { file_path: fp, content: c });
            },
            _ => {},
        }
        assert(r.deep_view() =~= sv.take(i + 1).filter_map(
            |f: SpecJson| spec_new_file_from_json(f),
        ));
        i = i + 1;
    }
    assert(sv.take(items@.len() as int) =~= sv);
    r
}

fn deleted_files_from_json(items: &[JsonValue]) -> (r: Vec<DeleteFile>)
    ensures
        r.deep_view() == json_items_view(items@).filter_map(
            |f: SpecJson| spec_deleted_file_from_json(f),
        ),
{
    let ghost sv = json_items_view(items@);
    let mut r: Vec<DeleteFile> = Vec::new();
    let mut i: usize = 0;
    while i < items.len()
        invariant
            i <= items@.len(),
            sv == json_items_view(items@),
            r.deep_view() =~= sv.take(i as int).filter_map(
                |f: SpecJson| spec_deleted_file_from_json(f),
            ),
        decreases items@.len() - i,
    {
        assert(sv.take(i + 1).drop_last() =~= sv.take(i as int));
        assert(sv.take(i + 1).last() == json_view(&items@[i as int]));
        match items[i].str_field("file_path") {
            Some(fp) => {
                r.push(DeleteFile { file_path: fp });
            },
            None => {},
        }
        assert(r.deep_view() =~= sv.take(i + 1).filter_map(
            |f: SpecJson| spec_deleted_file_from_json(f),
        ));
        i = i + 1;
    }
    assert(sv.take(items@.len() as int) =~= sv);
    r
}

/// The protocol tool a chat tool call with this function name and these
/// parsed arguments stands for.
pub fn tool_from_args(name: &str, args: &JsonValue) -> (r: Option<Tool>)
    ensures
        r.deep_view() == spec_tool_from_args(name@, json_view(args)),
{
    if text_eq(name, "run_shell_command") {
        match args.str_field("command") {
            Some(command) => {
                let is_read_only = match args.bool_field("is_read_only") {
                    Some(b) => b,
                    None => false,
                };
                let uses_pager = match args.bool_field("uses_pager") {
                    Some(b) => b,
                    None => false,
                };
                Some(Tool::RunShellCommand(RunShellCommand { command, is_read_only, uses_pager }))
            },
            None => None,
        }
    } else if text_eq(name, "read_files") {
        let files = files_to_read_from_json(array_items(args, "files"));
        Some(Tool::ReadFiles(ReadFiles { files }))
    } else if text_eq(name, "apply_file_diffs") {
        let diffs = diffs_from_json(array_items(args, "diffs"));
        let new_files = new_files_from_json(array_items(args, "new_files"));
        let deleted_files = deleted_files_from_json(array_items(args, "deleted_files"));
        let summary = text_or_new(args.str_field("summary"));
        Some(Tool::ApplyFileDiffs(ApplyFileDiffs { summary, diffs, new_files, deleted_files }))
    } else if text_eq(name, "grep") {
        let queries = str_items_of(array_items(args, "queries"));
        let path = text_or_new(args.str_field("path"));
        Some(Tool::Grep(Grep { queries, path }))
    } else if text_eq(name, "file_glob_v2") {
        let patterns = str_items_of(array_items(args, "patterns"));
        let search_dir = text_or_new(args.str_field("search_dir"));
        let max_matches: i32 = match args.i64_field("max_matches") {
            Some(i) => i as i32,
            None => 0,
        };
        let max_depth: i32 = match args.i64_field("max_depth") {
            Some(i) => i as i32,
            None => 0,
        };
        Some(
            Tool::FileGlobV2(
                FileGlobV2 { patterns, search_dir, max_matches, max_depth, min_depth: 0 },
            ),
        )
    } else if text_eq(name, "search_codebase") {
        match args.str_field("query") {
            Some(query) => {
                let path_filters = str_items_of(array_items(args, "path_filters"));
                let codebase_path = text_or_new(args.str_field("codebase_path"));
                Some(Tool::SearchCodebase(SearchCodebase { query, path_filters, codebase_path }))
            },
            None => None,
        }
    } else {
        None
    }
}

fn str_items_of(items: &[JsonValue]) -> (r: Vec<String>)
    ensures
        r.deep_view() == spec_str_items(json_items_view(items@)),
{
    let ghost sv = json_items_view(items@);
    let mut r: Vec<String> = Vec::new();
    let mut i: usize = 0;
    while i < items.len()
        invariant
            i <= items@.len(),
            sv == json_items_view(items@),
            r.deep_view() =~= spec_str_items(sv.take(i as int)),
        decreases items@.len() - i,
    {
        assert(sv.take(i + 1).drop_last() =~= sv.take(i as int));
        assert(sv.take(i + 1).last() == json_view(&items@[i as int]));
        match items[i].as_str() {
            Some(t) => {
                r.push(t);
            },
            None => {},
        }
        assert(r.deep_view() =~= spec_str_items(sv.take(i + 1)));
        i = i + 1;
    }
    assert(sv.take(items@.len() as int) =~= sv);
    r
}

/// The protocol tool-call message with id `id` for a chat tool call, given
/// the tool call's arguments parsed as JSON (`None` when they are not valid
/// JSON).
pub fn tool_call_message(
    tc: &AssistantToolCall,
    args: Option<&JsonValue>,
    task_id: &str,
    id: String,
) -> (r: Option<Message>)
    ensures
        r.deep_view() == spec_tool_call_message(tc.deep_view(), opt_json_view(args), task_id@, id@),
{
    let args = match args {
        Some(a) => a,
        None => return None,
    };
    let tool = match tool_from_args(tc.function.name.as_str(), args) {
        Some(t) => t,
        None => return None,
    };
    Some(
        Message {
            id,
            task_id: owned(task_id),
            message: Some(
                MessageBody::ToolCall(ToolCall { tool_call_id: tc.id.clone(), tool: Some(tool) }),
            ),
        },
    )
}

/// Parse a chat tool call's JSON arguments and build the protocol tool-call
/// message it stands for, with a fresh random id; `None` when the arguments
/// are not JSON, the function name is unknown or a required argument is
/// missing.
pub fn openai_tc_to_warp_tool_call(tc: &AssistantToolCall, task_id: &str) -> (r: Option<Message>)
    ensures
        match r {
            Some(m) => is_uuid_v4_text(m.id@) && spec_tool_call_message(
                tc.deep_view(),
                spec_parse_json_text(tc.deep_view().arguments),
                task_id@,
                m.id@,
            ) == Some(m.deep_view()),
            None => spec_tool_call_message(
                tc.deep_view(),
                spec_parse_json_text(tc.deep_view().arguments),
                task_id@,
                Seq::empty(),
            ) is None,
        },
{
    let args = parse_json_text(tc.function.arguments.as_str());
    let id = new_uuid_text();
    let ghost idv = id@;
    let r = tool_call_message(tc, args.as_ref(), task_id, id);
    proof {
        if r is Some {
            assert(r->Some_0.id@ == idv);
        }
    }
    r
}

// ── Conversation history → chat messages ────────────────────────────────────

/// A `user` message with the given text.
pub open spec fn spec_user_message(text: Seq<char>) -> SpecChatMessage {
    SpecChatMessage { role: "user"@, content: Some(text), tool_calls: None, tool_call_id: None }
}

/// The `system` message that opens the conversation.
pub open spec fn spec_system_message() -> SpecChatMessage {
    SpecChatMessage {
        role: "system"@,
        content: Some(SYSTEM_PROMPT@),
        tool_calls: None,
        tool_call_id: None,
    }
}

/// The chat message a history message becomes, if any: user and system
/// queries become `user` messages, non-empty agent output an `assistant`
/// message, a tool call an `assistant` message carrying it, a tool result a
/// `tool` message; everything else is skipped.
pub open spec fn spec_warp_message_to_openai(m: SpecMessage) -> Option<SpecChatMessage> {
    match m.message {
        Some(SpecMessageBody::UserQuery(q)) => Some(spec_user_message(q)),
        Some(SpecMessageBody::AgentOutput(t)) => if t.len() > 0 {
            Some(
                SpecChatMessage {
                    role: "assistant"@,
                    content: Some(t),
                    tool_calls: None,
                    tool_call_id: None,
                },
            )
        } else {
            None
        },
        Some(SpecMessageBody::ToolCall(tc)) => match spec_warp_tool_call_to_openai_tc(tc) {
            Some(otc) => Some(
                SpecChatMessage {
                    role: "assistant"@,
                    content: None,
                    tool_calls: Some(seq![otc]),
                    tool_call_id: None,
                },
            ),
            None => None,
        },
        Some(SpecMessageBody::ToolCallResult(r)) => spec_tool_result_message(r),
        Some(SpecMessageBody::SystemQuery(Some(Some(q)))) => Some(spec_user_message(q)),
        _ => None,
    }
}

/// The sequence holding the value, if any.
pub open spec fn option_to_seq<A>(o: Option<A>) -> Seq<A> {
    match o {
        Some(a) => seq![a],
        None => Seq::empty(),
    }
}

/// The chat messages replaying the history of the first (root) task.
pub open spec fn spec_history_messages(tasks: Option<Seq<crate::proto::SpecTask>>) -> Seq<SpecChatMessage> {
    match tasks {
        Some(ts) => if ts.len() > 0 {
            ts[0].messages.filter_map(|m: SpecMessage| spec_warp_message_to_openai(m))
        } else {
            Seq::empty()
        },
        None => Seq::empty(),
    }
}

/// The chat message a new-turn input becomes, if any.
pub open spec fn spec_input_message(i: Option<SpecUserInput>) -> Option<SpecChatMessage> {
    match i {
        Some(SpecUserInput::UserQuery(q)) => Some(spec_user_message(q)),
        Some(SpecUserInput::ToolCallResult(r)) => spec_tool_result_message(r),
        _ => None,
    }
}

/// The chat messages for the inputs of the new turn.
pub open spec fn spec_input_messages(inputs: Option<Seq<Option<SpecUserInput>>>) -> Seq<SpecChatMessage> {
    match inputs {
        Some(ins) => ins.filter_map(|i: Option<SpecUserInput>| spec_input_message(i)),
        None => Seq::empty(),
    }
}

/// The full chat message list for a request: the system prompt, the replayed
/// history of the root task, then the new inputs.
pub open spec fn spec_openai_messages(r: SpecRequest) -> Seq<SpecChatMessage> {
    seq![spec_system_message()] + spec_history_messages(r.tasks) + spec_input_messages(
        r.user_inputs,
    )
}

fn user_message(text: &String) -> (m: ChatMessage)
    ensures
        m.deep_view() == spec_user_message(text@),
{
    ChatMessage {
        role: owned("user"),
        content: Some(text.clone()),
        tool_calls: None,
        tool_call_id: None,
    }
}

/// Convert a message of the task history to zero or one OpenAI messages.
pub fn warp_message_to_openai(msg: &Message) -> (r: Vec<ChatMessage>)
    ensures
        r.deep_view() == option_to_seq(spec_warp_message_to_openai(msg.deep_view())),
{
    let mut r: Vec<ChatMessage> = Vec::new();
    match &msg.message {
        Some(MessageBody::UserQuery(q)) => {
            r.push(user_message(&q.query));
        },
        Some(MessageBody::AgentOutput(a)) => {
            if !a.text.as_str().is_empty() {
                r.push(
                    ChatMessage {
                        role: owned("assistant"),
                        content: Some(a.text.clone()),
                        tool_calls: None,
                        tool_call_id: None,
                    },
                );
            }
        },
        Some(MessageBody::ToolCall(tc)) => {
            match warp_tool_call_to_openai_tc(tc) {
                Some(otc) => {
                    let mut calls: Vec<AssistantToolCall> = Vec::new();
                    calls.push(otc);
                    let m = ChatMessage {
                        role: owned("assistant"),
                        content: None,
                        tool_calls: Some(calls),
                        tool_call_id: None,
                    };
                    assert(m.tool_calls.deep_view() =~= Some(seq![otc.deep_view()]));
                    r.push(m);
                },
                None => {},
            }
        },
        Some(MessageBody::ToolCallResult(tcr)) => {
            match history_tool_result_to_openai(tcr) {
                Some(m) => {
                    r.push(m);
                },
                None => {},
            }
        },
        Some(MessageBody::SystemQuery(sq)) => {
            match &sq.query_type {
                Some(SystemQueryType::AutoCodeDiff { query }) => {
                    r.push(user_message(query));
                },
                _ => {},
            }
        },
        _ => {},
    }
    assert(r.deep_view() =~= option_to_seq(spec_warp_message_to_openai(msg.deep_view())));
    r
}

/// Build an OpenAI messages array from a protocol request: the system
/// prompt, then the history of the first task (`task_context.tasks[0]`),
/// then the new turn's user queries and tool results.
pub fn build_openai_messages(request: &Request) -> (r: Vec<ChatMessage>)
    ensures
        r.deep_view() == spec_openai_messages(request.deep_view()),
{
    let mut messages: Vec<ChatMessage> = Vec::new();
    messages.push(
        ChatMessage {
            role: owned("system"),
            content: Some(owned(SYSTEM_PROMPT)),
            tool_calls: None,
            tool_call_id: None,
        },
    );
    let ghost start = messages.deep_view();
    assert(start =~= seq![spec_system_message()]);

    // Replay history from the root task's message log.
    match &request.task_context {
        Some(tc) => {
            if tc.tasks.len() > 0 {
                let root = &tc.tasks[0];
                let ghost sv = root.messages.deep_view();
                let mut i: usize = 0;
                while i < root.messages.len()
                    invariant
                        i <= root.messages@.len(),
                        sv == root.messages.deep_view(),
                        messages.deep_view() =~= start + sv.take(i as int).filter_map(
                            |m: SpecMessage| spec_warp_message_to_openai(m),
                        ),
                    decreases root.messages@.len() - i,
                {
                    assert(sv.take(i + 1).drop_last() =~= sv.take(i as int));
                    assert(sv.take(i + 1).last() == root.messages@[i as int].deep_view());
                    let mut converted = warp_message_to_openai(&root.messages[i]);
                    let ghost before = messages.deep_view();
                    let ghost step = spec_warp_message_to_openai(sv[i as int]);
                    assert(sv.take(i + 1).filter_map(
                        |m: SpecMessage| spec_warp_message_to_openai(m),
                    ) == sv.take(i as int).filter_map(
                        |m: SpecMessage| spec_warp_message_to_openai(m),
                    ) + option_to_seq(step));
                    assert(converted.deep_view() == option_to_seq(step));
                    assert(converted@.len() == option_to_seq(step).len());
                    assert(step is Some ==> converted@[0].deep_view() == converted.deep_view()[0]);
                    match converted.pop() {
                        Some(m) => {
                            assert(m.deep_view() == step->Some_0);
                            messages.push(m);
                            assert(messages.deep_view() =~= before.push(step->Some_0));
                        },
                        None => {
                            assert(step is None);
                        },
                    }
                    assert(messages.deep_view() =~= start + sv.take(i + 1).filter_map(
                        |m: SpecMessage| spec_warp_message_to_openai(m),
                    ));
                    i = i + 1;
                }
                assert(sv.take(root.messages@.len() as int) =~= sv);
            }
        },
        None => {},
    }
    let ghost mid = messages.deep_view();
    assert(mid =~= seq![spec_system_message()] + spec_history_messages(
        request.deep_view().tasks,
    ));

    // Append the new inputs for this turn.
    match &request.input {
        Some(input) => match &input.input_type {
            Some(InputType::UserInputs { inputs }) => {
                let ghost sv = inputs.deep_view();
                let mut i: usize = 0;
                while i < inputs.len()
                    invariant
                        i <= inputs@.len(),
                        sv == inputs.deep_view(),
                        messages.deep_view() =~= mid + sv.take(i as int).filter_map(
                            |x: Option<SpecUserInput>| spec_input_message(x),
                        ),
                    decreases inputs@.len() - i,
                {
                    assert(sv.take(i + 1).drop_last() =~= sv.take(i as int));
                    assert(sv.take(i + 1).last() == inputs@[i as int].deep_view());
                    let ghost before = messages.deep_view();
                    let ghost step = spec_input_message(sv[i as int]);
                    assert(sv.take(i + 1).filter_map(
                        |x: Option<SpecUserInput>| spec_input_message(x),
                    ) == sv.take(i as int).filter_map(
                        |x: Option<SpecUserInput>| spec_input_message(x),
                    ) + option_to_seq(step));
                    match &inputs[i].input {
                        Some(UserInputKind::UserQuery(q)) => {
                            let m = user_message(&q.query);
                            messages.push(m);
                            assert(messages.deep_view() =~= before.push(step->Some_0));
                        },
                        Some(UserInputKind::ToolCallResult(r)) => {
                            match input_tool_result_to_openai(r) {
                                Some(m) => {
                                    messages.push(m);
                                    assert(messages.deep_view() =~= before.push(step->Some_0));
                                },
                                None => {},
                            }
                        },
                        _ => {},
                    }
                    assert(messages.deep_view() =~= mid + sv.take(i + 1).filter_map(
                        |x: Option<SpecUserInput>| spec_input_message(x),
                    ));
                    i = i + 1;
                }
                assert(sv.take(inputs@.len() as int) =~= sv);
            },
            _ => {},
        },
        None => {},
    }
    messages
}

} // verus!
