//! OpenAI tool definitions (function name, description and JSON schema of
//! the arguments) for the protocol tools that have a chat counterpart.

use vstd::prelude::*;

use crate::json::{
    json_array, json_items_view, json_object, json_string, json_view, members_view, push_item,
    push_member, JsonValue, SpecJson,
};
use crate::openai::{FunctionDefinition, SpecToolDefinition, ToolDefinition};
use crate::proto::ToolType;
use crate::text::owned;

verus! {

// ── Specification ───────────────────────────────────────────────────────────

/// `{"type": ty, "description": desc}`.
pub open spec fn sj_prop(ty: Seq<char>, desc: Seq<char>) -> SpecJson {
    SpecJson::Object(seq![("type"@, SpecJson::Str(ty)), ("description"@, SpecJson::Str(desc))])
}

/// `{"type": ty}`.
pub open spec fn sj_typed(ty: Seq<char>) -> SpecJson {
    SpecJson::Object(seq![("type"@, SpecJson::Str(ty))])
}

/// `{"type": "array", "items": {"type": "string"}, "description": desc}`.
pub open spec fn sj_string_array(desc: Seq<char>) -> SpecJson {
    SpecJson::Object(
        seq![
            ("type"@, SpecJson::Str("array"@)),
            ("items"@, sj_typed("string"@)),
            ("description"@, SpecJson::Str(desc)),
        ],
    )
}

/// `{"type": "object", "properties": props, "required": required}`.
pub open spec fn sj_object_schema(
    props: Seq<(Seq<char>, SpecJson)>,
    required: Seq<Seq<char>>,
) -> SpecJson {
    SpecJson::Object(
        seq![
            ("type"@, SpecJson::Str("object"@)),
            ("properties"@, SpecJson::Object(props)),
            ("required"@, SpecJson::Array(required.map_values(|s: Seq<char>| SpecJson::Str(s)))),
        ],
    )
}

/// Argument schema of `run_shell_command`.
pub open spec fn spec_run_shell_command_parameters() -> SpecJson {
    sj_object_schema(
        seq![
            ("command"@, sj_prop("string"@, "The shell command to execute"@)),
            (
                "is_read_only"@,
                sj_prop("boolean"@, "True if the command only reads state without modifying it"@),
            ),
            (
                "uses_pager"@,
                sj_prop("boolean"@, "True if the command uses a pager like 'less' or 'more'"@),
            ),
        ],
        seq!["command"@],
    )
}

/// Argument schema of `read_files`.
pub open spec fn spec_read_files_parameters() -> SpecJson {
    sj_object_schema(
        seq![
            (
                "files"@,
                SpecJson::Object(
                    seq![
                        ("type"@, SpecJson::Str("array"@)),
                        (
                            "items"@,
                            sj_object_schema(
                                seq![
                                    (
                                        "name"@,
                                        sj_prop("string"@, "Absolute or relative path to the file"@),
                                    ),
                                ],
                                seq!["name"@],
                            ),
                        ),
                    ],
                ),
            ),
        ],
        seq!["files"@],
    )
}

/// Argument schema of `apply_file_diffs`.
pub open spec fn spec_apply_file_diffs_parameters() -> SpecJson {
    sj_object_schema(
        seq![
            (
                "summary"@,
                sj_prop("string"@, "Brief description of what these changes accomplish"@),
            ),
            (
                "diffs"@,
                SpecJson::Object(
                    seq![
                        ("type"@, SpecJson::Str("array"@)),
                        ("description"@, SpecJson::Str("List of search/replace diffs to apply"@)),
                        (
                            "items"@,
                            sj_object_schema(
                                seq![
                                    ("file_path"@, sj_prop("string"@, "Path to the file to modify"@)),
                                    (
                                        "search"@,
                                        sj_prop(
                                            "string"@,
                                            "Exact content to find and replace. Must match exactly."@,
                                        ),
                                    ),
                                    (
                                        "replace"@,
                                        sj_prop("string"@, "Content to insert in place of 'search'"@),
                                    ),
                                ],
                                seq!["file_path"@, "search"@, "replace"@],
                            ),
                        ),
                    ],
                ),
            ),
            (
                "new_files"@,
                SpecJson::Object(
                    seq![
                        ("type"@, SpecJson::Str("array"@)),
                        ("description"@, SpecJson::Str("New files to create with given content"@)),
                        (
                            "items"@,
                            sj_object_schema(
                                seq![
                                    ("file_path"@, sj_typed("string"@)),
                                    ("content"@, sj_typed("string"@)),
                                ],
                                seq!["file_path"@, "content"@],
                            ),
                        ),
                    ],
                ),
            ),
            (
                "deleted_files"@,
                SpecJson::Object(
                    seq![
                        ("type"@, SpecJson::Str("array"@)),
                        ("description"@, SpecJson::Str("Files to delete"@)),
                        (
                            "items"@,
                            sj_object_schema(
                                seq![("file_path"@, sj_typed("string"@))],
                                seq!["file_path"@],
                            ),
                        ),
                    ],
                ),
            ),
        ],
        seq!["summary"@, "diffs"@],
    )
}

/// Argument schema of `grep`.
pub open spec fn spec_grep_parameters() -> SpecJson {
    sj_object_schema(
        seq![
            ("queries"@, sj_string_array("Search patterns or terms to look for"@)),
            (
                "path"@,
                sj_prop(
                    "string"@,
                    "Relative path to file or directory to search in. Defaults to current directory."@,
                ),
            ),
        ],
        seq!["queries"@],
    )
}

/// Argument schema of `file_glob_v2`.
pub open spec fn spec_file_glob_v2_parameters() -> SpecJson {
    sj_object_schema(
        seq![
            ("patterns"@, sj_string_array("Glob patterns to match file names"@)),
            (
                "search_dir"@,
                sj_prop("string"@, "Directory to search in. Defaults to current directory."@),
            ),
            (
                "max_matches"@,
                SpecJson::Object(
                    seq![
                        ("type"@, SpecJson::Str("integer"@)),
                        (
                            "description"@,
                            SpecJson::Str("Maximum number of matches to return. 0 means no limit."@),
                        ),
                        ("default"@, SpecJson::Int(100)),
                    ],
                ),
            ),
            (
                "max_depth"@,
                sj_prop("integer"@, "Maximum directory depth to search. 0 means no limit."@),
            ),
        ],
        seq!["patterns"@],
    )
}

/// Argument schema of `search_codebase`.
pub open spec fn spec_search_codebase_parameters() -> SpecJson {
    sj_object_schema(
        seq![
            ("query"@, sj_prop("string"@, "Natural language description of what to find"@)),
            ("path_filters"@, sj_string_array("Optional file path filters to narrow the search"@)),
        ],
        seq!["query"@],
    )
}

/// The tools that have a chat-completions definition, in the order the
/// definitions are listed.
pub open spec fn spec_defined_tool_types() -> Seq<ToolType> {
    seq![
        ToolType::RunShellCommand,
        ToolType::ReadFiles,
        ToolType::ApplyFileDiffs,
        ToolType::Grep,
        ToolType::FileGlobV2,
        ToolType::SearchCodebase,
    ]
}

/// A `function` tool definition.
pub open spec fn spec_function_def(
    name: Seq<char>,
    description: Seq<char>,
    parameters: SpecJson,
) -> SpecToolDefinition {
    SpecToolDefinition {
        def_type: "function"@,
        name: name,
        description: description,
        parameters: parameters,
    }
}

/// The chat tool definition of a protocol tool.
pub open spec fn spec_tool_definition(t: ToolType) -> SpecToolDefinition {
    match t {
        ToolType::RunShellCommand => spec_function_def(
            "run_shell_command"@,
            "Execute a shell command in the user's terminal. Use for running programs, checking system state, installing packages, compiling code, running tests, and other shell operations."@,
            spec_run_shell_command_parameters(),
        ),
        ToolType::ReadFiles => spec_function_def(
            "read_files"@,
            "Read the contents of one or more files. Specify optional line ranges to read only part of a file."@,
            spec_read_files_parameters(),
        ),
        ToolType::ApplyFileDiffs => spec_function_def(
            "apply_file_diffs"@,
            "Apply changes to files using search/replace diffs. Each diff specifies the exact content to find and the replacement. For new files use new_files; for deletions use deleted_files."@,
            spec_apply_file_diffs_parameters(),
        ),
        ToolType::Grep => spec_function_def(
            "grep"@,
            "Search for text patterns in files. Returns matching file paths and line numbers."@,
            spec_grep_parameters(),
        ),
        ToolType::FileGlobV2 => spec_function_def(
            "file_glob_v2"@,
            "List files matching glob patterns. Supports ?, *, and [] wildcards. Use ** for recursive matching."@,
            spec_file_glob_v2_parameters(),
        ),
        _ => spec_function_def(
            "search_codebase"@,
            "Semantically search the codebase for relevant code snippets using natural language. Returns matching file contents."@,
            spec_search_codebase_parameters(),
        ),
    }
}

/// The chat tool definitions for the supported tools: one per defined tool
/// that occurs in `supported`, in the order of [`spec_defined_tool_types`].
pub open spec fn spec_tool_definitions_for(supported: Seq<ToolType>) -> Seq<SpecToolDefinition> {
    spec_defined_tool_types().filter_map(
        |t: ToolType|
            if supported.contains(t) {
                Some(spec_tool_definition(t))
            } else {
                None
            },
    )
}

// ── Construction ────────────────────────────────────────────────────────────

fn prop(ty: &str, desc: &str) -> (r: JsonValue)
    ensures
        json_view(&r) == sj_prop(ty@, desc@),
{
    let mut m: Vec<(String, JsonValue)> = Vec::new();
    push_member(&mut m, "type", json_string(ty));
    push_member(&mut m, "description", json_string(desc));
    let r = json_object(m);
    assert(json_view(&r)->Object_0 =~= sj_prop(ty@, desc@)->Object_0);
    r
}

fn typed(ty: &str) -> (r: JsonValue)
    ensures
        json_view(&r) == sj_typed(ty@),
{
    let mut m: Vec<(String, JsonValue)> = Vec::new();
    push_member(&mut m, "type", json_string(ty));
    let r = json_object(m);
    assert(json_view(&r)->Object_0 =~= sj_typed(ty@)->Object_0);
    r
}

fn string_array(desc: &str) -> (r: JsonValue)
    ensures
        json_view(&r) == sj_string_array(desc@),
{
    let mut m: Vec<(String, JsonValue)> = Vec::new();
    push_member(&mut m, "type", json_string("array"));
    push_member(&mut m, "items", typed("string"));
    push_member(&mut m, "description", json_string(desc));
    let r = json_object(m);
    assert(json_view(&r)->Object_0 =~= sj_string_array(desc@)->Object_0);
    r
}

fn object_schema(props: Vec<(String, JsonValue)>, required: Vec<JsonValue>) -> (r: JsonValue)
    ensures
        json_view(&r) == SpecJson::Object(
            seq![
                ("type"@, SpecJson::Str("object"@)),
                ("properties"@, SpecJson::Object(members_view(props@))),
                ("required"@, SpecJson::Array(json_items_view(required@))),
            ],
        ),
{
    let ghost pv = members_view(props@);
    let ghost rv = json_items_view(required@);
    let mut m: Vec<(String, JsonValue)> = Vec::new();
    push_member(&mut m, "type", json_string("object"));
    push_member(&mut m, "properties", json_object(props));
    push_member(&mut m, "required", json_array(required));
    let r = json_object(m);
    assert(json_view(&r)->Object_0 =~= seq![
        ("type"@, SpecJson::Str("object"@)),
        ("properties"@, SpecJson::Object(pv)),
        ("required"@, SpecJson::Array(rv)),
    ]);
    r
}

fn run_shell_command_parameters() -> (r: JsonValue)
    ensures
        json_view(&r) == spec_run_shell_command_parameters(),
{
    let mut props: Vec<(String, JsonValue)> = Vec::new();
    push_member(&mut props, "command", prop("string", "The shell command to execute"));
    push_member(
        &mut props,
        "is_read_only",
        prop("boolean", "True if the command only reads state without modifying it"),
    );
    push_member(
        &mut props,
        "uses_pager",
        prop("boolean", "True if the command uses a pager like 'less' or 'more'"),
    );
    let mut req: Vec<JsonValue> = Vec::new();
    push_item(&mut req, json_string("command"));
    assert(members_view(props@) =~= spec_run_shell_command_parameters()->Object_0[1].1->Object_0);
    assert(json_items_view(req@) =~= spec_run_shell_command_parameters()->Object_0[2].1->Array_0);
    let r = object_schema(props, req);
    assert(json_view(&r)->Object_0 =~= spec_run_shell_command_parameters()->Object_0);
    r
}

fn read_files_parameters() -> (r: JsonValue)
    ensures
        json_view(&r) == spec_read_files_parameters(),
{
    let mut file_props: Vec<(String, JsonValue)> = Vec::new();
    push_member(&mut file_props, "name", prop("string", "Absolute or relative path to the file"));
    let mut file_req: Vec<JsonValue> = Vec::new();
    push_item(&mut file_req, json_string("name"));
    let ghost fp = members_view(file_props@);
    let ghost fr = json_items_view(file_req@);
    let file_schema = object_schema(file_props, file_req);
    let ghost item_spec = sj_object_schema(
        seq![("name"@, sj_prop("string"@, "Absolute or relative path to the file"@))],
        seq!["name"@],
    );
    assert(fp =~= item_spec->Object_0[1].1->Object_0);
    assert(fr =~= item_spec->Object_0[2].1->Array_0);
    assert(json_view(&file_schema)->Object_0 =~= item_spec->Object_0);
    let mut files: Vec<(String, JsonValue)> = Vec::new();
    push_member(&mut files, "type", json_string("array"));
    push_member(&mut files, "items", file_schema);
    let mut props: Vec<(String, JsonValue)> = Vec::new();
    push_member(&mut props, "files", json_object(files));
    let mut req: Vec<JsonValue> = Vec::new();
    push_item(&mut req, json_string("files"));
    assert(members_view(props@)[0].1->Object_0 =~= spec_read_files_parameters()->Object_0[1].1->Object_0[0].1->Object_0);
    assert(members_view(props@) =~= spec_read_files_parameters()->Object_0[1].1->Object_0);
    assert(json_items_view(req@) =~= spec_read_files_parameters()->Object_0[2].1->Array_0);
    let r = object_schema(props, req);
    assert(json_view(&r)->Object_0 =~= spec_read_files_parameters()->Object_0);
    r
}

/// `{"type": "array", "description": desc, "items": items}`.
fn described_array(desc: &str, items: JsonValue) -> (r: JsonValue)
    ensures
        json_view(&r) == SpecJson::Object(
            seq![
                ("type"@, SpecJson::Str("array"@)),
                ("description"@, SpecJson::Str(desc@)),
                ("items"@, json_view(&items)),
            ],
        ),
{
    let ghost iv = json_view(&items);
    let mut m: Vec<(String, JsonValue)> = Vec::new();
    push_member(&mut m, "type", json_string("array"));
    push_member(&mut m, "description", json_string(desc));
    push_member(&mut m, "items", items);
    let r = json_object(m);
    assert(json_view(&r)->Object_0 =~= seq![
        ("type"@, SpecJson::Str("array"@)),
        ("description"@, SpecJson::Str(desc@)),
        ("items"@, iv),
    ]);
    r
}

fn apply_file_diffs_parameters() -> (r: JsonValue)
    ensures
        json_view(&r) == spec_apply_file_diffs_parameters(),
{
    let ghost top = spec_apply_file_diffs_parameters()->Object_0;
    let ghost tprops = top[1].1->Object_0;

    // diffs
    let mut diff_props: Vec<(String, JsonValue)> = Vec::new();
    push_member(&mut diff_props, "file_path", prop("string", "Path to the file to modify"));
    push_member(
        &mut diff_props,
        "search",
        prop("string", "Exact content to find and replace. Must match exactly."),
    );
    push_member(&mut diff_props, "replace", prop("string", "Content to insert in place of 'search'"));
    let mut diff_req: Vec<JsonValue> = Vec::new();
    push_item(&mut diff_req, json_string("file_path"));
    push_item(&mut diff_req, json_string("search"));
    push_item(&mut diff_req, json_string("replace"));
    let ghost dspec = tprops[1].1->Object_0[2].1;
    assert(members_view(diff_props@) =~= dspec->Object_0[1].1->Object_0);
    assert(json_items_view(diff_req@) =~= dspec->Object_0[2].1->Array_0);
    let diff_schema = object_schema(diff_props, diff_req);
    assert(json_view(&diff_schema)->Object_0 =~= dspec->Object_0);
    let diffs = described_array("List of search/replace diffs to apply", diff_schema);
    assert(json_view(&diffs)->Object_0 =~= tprops[1].1->Object_0);

    // new_files
    let mut nf_props: Vec<(String, JsonValue)> = Vec::new();
    push_member(&mut nf_props, "file_path", typed("string"));
    push_member(&mut nf_props, "content", typed("string"));
    let mut nf_req: Vec<JsonValue> = Vec::new();
    push_item(&mut nf_req, json_string("file_path"));
    push_item(&mut nf_req, json_string("content"));
    let ghost nspec = tprops[2].1->Object_0[2].1;
    assert(members_view(nf_props@) =~= nspec->Object_0[1].1->Object_0);
    assert(json_items_view(nf_req@) =~= nspec->Object_0[2].1->Array_0);
    let nf_schema = object_schema(nf_props, nf_req);
    assert(json_view(&nf_schema)->Object_0 =~= nspec->Object_0);
    let new_files = described_array("New files to create with given content", nf_schema);
    assert(json_view(&new_files)->Object_0 =~= tprops[2].1->Object_0);

    // deleted_files
    let mut df_props: Vec<(String, JsonValue)> = Vec::new();
    push_member(&mut df_props, "file_path", typed("string"));
    let mut df_req: Vec<JsonValue> = Vec::new();
    push_item(&mut df_req, json_string("file_path"));
    let ghost fspec = tprops[3].1->Object_0[2].1;
    assert(members_view(df_props@) =~= fspec->Object_0[1].1->Object_0);
    assert(json_items_view(df_req@) =~= fspec->Object_0[2].1->Array_0);
    let df_schema = object_schema(df_props, df_req);
    assert(json_view(&df_schema)->Object_0 =~= fspec->Object_0);
    let deleted_files = described_array("Files to delete", df_schema);
    assert(json_view(&deleted_files)->Object_0 =~= tprops[3].1->Object_0);

    let mut props: Vec<(String, JsonValue)> = Vec::new();
    push_member(
        &mut props,
        "summary",
        prop("string", "Brief description of what these changes accomplish"),
    );
    push_member(&mut props, "diffs", diffs);
    push_member(&mut props, "new_files", new_files);
    push_member(&mut props, "deleted_files", deleted_files);
    let mut req: Vec<JsonValue> = Vec::new();
    push_item(&mut req, json_string("summary"));
    push_item(&mut req, json_string("diffs"));
    assert(members_view(props@) =~= tprops);
    assert(json_items_view(req@) =~= top[2].1->Array_0);
    let r = object_schema(props, req);
    assert(json_view(&r)->Object_0 =~= top);
    r
}

fn grep_parameters() -> (r: JsonValue)
    ensures
        json_view(&r) == spec_grep_parameters(),
{
    let ghost top = spec_grep_parameters()->Object_0;
    let queries = string_array("Search patterns or terms to look for");
    assert(json_view(&queries)->Object_0 =~= top[1].1->Object_0[0].1->Object_0);
    let mut props: Vec<(String, JsonValue)> = Vec::new();
    push_member(&mut props, "queries", queries);
    push_member(
        &mut props,
        "path",
        prop(
            "string",
            "Relative path to file or directory to search in. Defaults to current directory.",
        ),
    );
    let mut req: Vec<JsonValue> = Vec::new();
    push_item(&mut req, json_string("queries"));
    assert(members_view(props@) =~= top[1].1->Object_0);
    assert(json_items_view(req@) =~= top[2].1->Array_0);
    let r = object_schema(props, req);
    assert(json_view(&r)->Object_0 =~= top);
    r
}

fn file_glob_v2_parameters() -> (r: JsonValue)
    ensures
        json_view(&r) == spec_file_glob_v2_parameters(),
{
    let ghost top = spec_file_glob_v2_parameters()->Object_0;
    let patterns = string_array("Glob patterns to match file names");
    assert(json_view(&patterns)->Object_0 =~= top[1].1->Object_0[0].1->Object_0);
    let mut mm: Vec<(String, JsonValue)> = Vec::new();
    push_member(&mut mm, "type", json_string("integer"));
    push_member(
        &mut mm,
        "description",
        json_string("Maximum number of matches to return. 0 means no limit."),
    );
    push_member(&mut mm, "default", JsonValue::Int(100));
    let max_matches = json_object(mm);
    assert(json_view(&max_matches)->Object_0 =~= top[1].1->Object_0[2].1->Object_0);
    let mut props: Vec<(String, JsonValue)> = Vec::new();
    push_member(&mut props, "patterns", patterns);
    push_member(
        &mut props,
        "search_dir",
        prop("string", "Directory to search in. Defaults to current directory."),
    );
    push_member(&mut props, "max_matches", max_matches);
    push_member(
        &mut props,
        "max_depth",
        prop("integer", "Maximum directory depth to search. 0 means no limit."),
    );
    let mut req: Vec<JsonValue> = Vec::new();
    push_item(&mut req, json_string("patterns"));
    assert(members_view(props@) =~= top[1].1->Object_0);
    assert(json_items_view(req@) =~= top[2].1->Array_0);
    let r = object_schema(props, req);
    assert(json_view(&r)->Object_0 =~= top);
    r
}

fn search_codebase_parameters() -> (r: JsonValue)
    ensures
        json_view(&r) == spec_search_codebase_parameters(),
{
    let ghost top = spec_search_codebase_parameters()->Object_0;
    let filters = string_array("Optional file path filters to narrow the search");
    assert(json_view(&filters)->Object_0 =~= top[1].1->Object_0[1].1->Object_0);
    let mut props: Vec<(String, JsonValue)> = Vec::new();
    push_member(
        &mut props,
        "query",
        prop("string", "Natural language description of what to find"),
    );
    push_member(&mut props, "path_filters", filters);
    let mut req: Vec<JsonValue> = Vec::new();
    push_item(&mut req, json_string("query"));
    assert(members_view(props@) =~= top[1].1->Object_0);
    assert(json_items_view(req@) =~= top[2].1->Array_0);
    let r = object_schema(props, req);
    assert(json_view(&r)->Object_0 =~= top);
    r
}

fn mk(name: &str, description: &str, parameters: JsonValue) -> (r: ToolDefinition)
    ensures
        r.deep_view() == spec_function_def(name@, description@, json_view(&parameters)),
{
    ToolDefinition {
        def_type: owned("function"),
        function: FunctionDefinition {
            name: owned(name),
            description: owned(description),
            parameters,
        },
    }
}

/// The chat tool definition of one protocol tool.
pub fn tool_definition(t: ToolType) -> (r: ToolDefinition)
    ensures
        r.deep_view() == spec_tool_definition(t),
{
    match t {
        ToolType::RunShellCommand => mk(
            "run_shell_command",
            "Execute a shell command in the user's terminal. Use for running programs, checking system state, installing packages, compiling code, running tests, and other shell operations.",
            run_shell_command_parameters(),
        ),
        ToolType::ReadFiles => mk(
            "read_files",
            "Read the contents of one or more files. Specify optional line ranges to read only part of a file.",
            read_files_parameters(),
        ),
        ToolType::ApplyFileDiffs => mk(
            "apply_file_diffs",
            "Apply changes to files using search/replace diffs. Each diff specifies the exact content to find and the replacement. For new files use new_files; for deletions use deleted_files.",
            apply_file_diffs_parameters(),
        ),
        ToolType::Grep => mk(
            "grep",
            "Search for text patterns in files. Returns matching file paths and line numbers.",
            grep_parameters(),
        ),
        ToolType::FileGlobV2 => mk(
            "file_glob_v2",
            "List files matching glob patterns. Supports ?, *, and [] wildcards. Use ** for recursive matching.",
            file_glob_v2_parameters(),
        ),
        _ => mk(
            "search_codebase",
            "Semantically search the codebase for relevant code snippets using natural language. Returns matching file contents.",
            search_codebase_parameters(),
        ),
    }
}

/// Every tool definition, paired with its protocol tool, in a fixed order.
pub fn all_tool_definitions() -> (r: Vec<(ToolType, ToolDefinition)>)
    ensures
        r@.len() == spec_defined_tool_types().len(),
        forall|k: int|
            0 <= k < r@.len() ==> (#[trigger] r@[k]).0 == spec_defined_tool_types()[k]
                && r@[k].1.deep_view() == spec_tool_definition(spec_defined_tool_types()[k]),
{
    let mut r: Vec<(ToolType, ToolDefinition)> = Vec::new();
    let types = [
        ToolType::RunShellCommand,
        ToolType::ReadFiles,
        ToolType::ApplyFileDiffs,
        ToolType::Grep,
        ToolType::FileGlobV2,
        ToolType::SearchCodebase,
    ];
    assert(types@ =~= spec_defined_tool_types());
    let mut i: usize = 0;
    while i < 6
        invariant
            i <= 6,
            types@ == spec_defined_tool_types(),
            r@.len() == i,
            forall|k: int|
                0 <= k < i ==> (#[trigger] r@[k]).0 == spec_defined_tool_types()[k]
                    && r@[k].1.deep_view() == spec_tool_definition(spec_defined_tool_types()[k]),
        decreases 6 - i,
    {
        let t = types[i];
        r.push((t, tool_definition(t)));
        i = i + 1;
    }
    r
}

fn contains_tool(supported: &[ToolType], t: ToolType) -> (r: bool)
    ensures
        r == supported@.contains(t),
{
    let mut i: usize = 0;
    while i < supported.len()
        invariant
            i <= supported@.len(),
            forall|k: int| 0 <= k < i ==> supported@[k] != t,
        decreases supported@.len() - i,
    {
        if supported[i] == t {
            return true;
        }
        i = i + 1;
    }
    false
}

/// Build the list of OpenAI tool definitions for the given supported tools:
/// one definition per supported tool that has one, in the fixed order of
/// [`all_tool_definitions`].
pub fn tool_definitions_for(supported: &[ToolType]) -> (r: Vec<ToolDefinition>)
    ensures
        r.deep_view() == spec_tool_definitions_for(supported@),
{
    let all = all_tool_definitions();
    let ghost types = spec_defined_tool_types();
    let mut all = all;
    let mut rev: Vec<(ToolType, ToolDefinition)> = Vec::new();
    // Take the definitions out in reverse, then put the kept ones back in order.
    while all.len() > 0
        invariant
            all@.len() + rev@.len() == types.len(),
            forall|k: int|
                0 <= k < all@.len() ==> (#[trigger] all@[k]).0 == types[k]
                    && all@[k].1.deep_view() == spec_tool_definition(types[k]),
            forall|k: int|
                0 <= k < rev@.len() ==> (#[trigger] rev@[k]).0 == types[types.len() - 1 - k]
                    && rev@[k].1.deep_view() == spec_tool_definition(types[types.len() - 1 - k]),
        decreases all@.len(),
    {
        let e = all.pop().unwrap();
        rev.push(e);
    }
    let mut r: Vec<ToolDefinition> = Vec::new();
    let mut i: usize = 0;
    while rev.len() > 0
        invariant
            i + rev@.len() == types.len(),
            forall|k: int|
                0 <= k < rev@.len() ==> (#[trigger] rev@[k]).0 == types[types.len() - 1 - k]
                    && rev@[k].1.deep_view() == spec_tool_definition(types[types.len() - 1 - k]),
            i <= types.len(),
            types.len() == 6,
            r.deep_view() =~= types.take(i as int).filter_map(
                |t: ToolType|
                    if supported@.contains(t) {
                        Some(spec_tool_definition(t))
                    } else {
                        None
                    },
            ),
        decreases rev@.len(),
    {
        let (t, d) = rev.pop().unwrap();
        assert(t == types[i as int]);
        assert(types.take(i + 1).drop_last() =~= types.take(i as int));
        if contains_tool(supported, t) {
            r.push(d);
        }
        assert(r.deep_view() =~= types.take(i + 1).filter_map(
            |t: ToolType|
                if supported@.contains(t) {
                    Some(spec_tool_definition(t))
                } else {
                    None
                },
        ));
        i = i + 1;
    }
    assert(types.take(types.len() as int) =~= types);
    r
}

} // verus!
