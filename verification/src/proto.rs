//! The multi-agent task protocol: requests, task histories, tool calls,
//! tool results and response events, holding the fields the protocol conversion
//! reads and writes. Each type has a mathematical counterpart (`Spec…`)
//! reached through `deep_view`.

use vstd::prelude::*;

verus! {

// ── Tools ───────────────────────────────────────────────────────────────────

/// A tool the client can run on behalf of the model.
#[derive(Clone, Copy, PartialEq, Eq, Structural, Debug)]
pub enum ToolType {
    RunShellCommand,
    ReadFiles,
    ApplyFileDiffs,
    Grep,
    FileGlobV2,
    SearchCodebase,
    /// Any other tool of the protocol; it has no chat-completions counterpart.
    Unsupported,
}

impl View for ToolType {
    type V = ToolType;

    open spec fn view(&self) -> ToolType {
        *self
    }
}

impl DeepView for ToolType {
    type V = ToolType;

    open spec fn deep_view(&self) -> ToolType {
        *self
    }
}

/// Run a command in the user's shell.
#[derive(Clone, Debug, PartialEq)]
pub struct RunShellCommand {
    pub command: String,
    pub is_read_only: bool,
    pub uses_pager: bool,
}

pub struct SpecRunShellCommand {
    pub command: Seq<char>,
    pub is_read_only: bool,
    pub uses_pager: bool,
}

impl DeepView for RunShellCommand {
    type V = SpecRunShellCommand;

    open spec fn deep_view(&self) -> SpecRunShellCommand {
        SpecRunShellCommand {
            command: self.command@,
            is_read_only: self.is_read_only,
            uses_pager: self.uses_pager,
        }
    }
}

/// A line range of a file to read.
#[derive(Clone, Debug, PartialEq)]
pub struct LineRange {
    pub start: u32,
    pub end: u32,
}

impl DeepView for LineRange {
    type V = (u32, u32);

    open spec fn deep_view(&self) -> (u32, u32) {
        (self.start, self.end)
    }
}

/// One file to read.
#[derive(Clone, Debug, PartialEq)]
pub struct FileToRead {
    pub name: String,
    pub line_ranges: Vec<LineRange>,
}

pub struct SpecFileToRead {
    pub name: Seq<char>,
    pub line_ranges: Seq<(u32, u32)>,
}

impl DeepView for FileToRead {
    type V = SpecFileToRead;

    open spec fn deep_view(&self) -> SpecFileToRead {
        SpecFileToRead { name: self.name@, line_ranges: self.line_ranges.deep_view() }
    }
}

/// Read the contents of files.
#[derive(Clone, Debug, PartialEq)]
pub struct ReadFiles {
    pub files: Vec<FileToRead>,
}

pub struct SpecReadFiles {
    pub files: Seq<SpecFileToRead>,
}

impl DeepView for ReadFiles {
    type V = SpecReadFiles;

    open spec fn deep_view(&self) -> SpecReadFiles {
        SpecReadFiles { files: self.files.deep_view() }
    }
}

/// A search/replace edit of one file.
#[derive(Clone, Debug, PartialEq)]
pub struct FileDiff {
    pub file_path: String,
    pub search: String,
    pub replace: String,
}

pub struct SpecFileDiff {
    pub file_path: Seq<char>,
    pub search: Seq<char>,
    pub replace: Seq<char>,
}

impl DeepView for FileDiff {
    type V = SpecFileDiff;

    open spec fn deep_view(&self) -> SpecFileDiff {
        SpecFileDiff {
            file_path: self.file_path@,
            search: self.search@,
            replace: self.replace@,
        }
    }
}

/// A file to create.
#[derive(Clone, Debug, PartialEq)]
pub struct NewFile {
    pub file_path: String,
    pub content: String,
}

pub struct SpecNewFile {
    pub file_path: Seq<char>,
    pub content: Seq<char>,
}

impl DeepView for NewFile {
    type V = SpecNewFile;

    open spec fn deep_view(&self) -> SpecNewFile {
        SpecNewFile { file_path: self.file_path@, content: self.content@ }
    }
}

/// A file to delete.
#[derive(Clone, Debug, PartialEq)]
pub struct DeleteFile {
    pub file_path: String,
}

impl DeepView for DeleteFile {
    type V = Seq<char>;

    open spec fn deep_view(&self) -> Seq<char> {
        self.file_path@
    }
}

/// Edit, create and delete files.
#[derive(Clone, Debug, PartialEq)]
pub struct ApplyFileDiffs {
    pub summary: String,
    pub diffs: Vec<FileDiff>,
    pub new_files: Vec<NewFile>,
    pub deleted_files: Vec<DeleteFile>,
}

pub struct SpecApplyFileDiffs {
    pub summary: Seq<char>,
    pub diffs: Seq<SpecFileDiff>,
    pub new_files: Seq<SpecNewFile>,
    pub deleted_files: Seq<Seq<char>>,
}

impl DeepView for ApplyFileDiffs {
    type V = SpecApplyFileDiffs;

    open spec fn deep_view(&self) -> SpecApplyFileDiffs {
        SpecApplyFileDiffs {
            summary: self.summary@,
            diffs: self.diffs.deep_view(),
            new_files: self.new_files.deep_view(),
            deleted_files: self.deleted_files.deep_view(),
        }
    }
}

/// Search files for text.
#[derive(Clone, Debug, PartialEq)]
pub struct Grep {
    pub queries: Vec<String>,
    pub path: String,
}

pub struct SpecGrep {
    pub queries: Seq<Seq<char>>,
    pub path: Seq<char>,
}

impl DeepView for Grep {
    type V = SpecGrep;

    open spec fn deep_view(&self) -> SpecGrep {
        SpecGrep { queries: self.queries.deep_view(), path: self.path@ }
    }
}

/// List files matching glob patterns.
#[derive(Clone, Debug, PartialEq)]
pub struct FileGlobV2 {
    pub patterns: Vec<String>,
    pub search_dir: String,
    pub max_matches: i32,
    pub max_depth: i32,
    pub min_depth: i32,
}

pub struct SpecFileGlobV2 {
    pub patterns: Seq<Seq<char>>,
    pub search_dir: Seq<char>,
    pub max_matches: i32,
    pub max_depth: i32,
    pub min_depth: i32,
}

impl DeepView for FileGlobV2 {
    type V = SpecFileGlobV2;

    open spec fn deep_view(&self) -> SpecFileGlobV2 {
        SpecFileGlobV2 {
            patterns: self.patterns.deep_view(),
            search_dir: self.search_dir@,
            max_matches: self.max_matches,
            max_depth: self.max_depth,
            min_depth: self.min_depth,
        }
    }
}

/// Semantic search of the codebase.
#[derive(Clone, Debug, PartialEq)]
pub struct SearchCodebase {
    pub query: String,
    pub path_filters: Vec<String>,
    pub codebase_path: String,
}

pub struct SpecSearchCodebase {
    pub query: Seq<char>,
    pub path_filters: Seq<Seq<char>>,
    pub codebase_path: Seq<char>,
}

impl DeepView for SearchCodebase {
    type V = SpecSearchCodebase;

    open spec fn deep_view(&self) -> SpecSearchCodebase {
        SpecSearchCodebase {
            query: self.query@,
            path_filters: self.path_filters.deep_view(),
            codebase_path: self.codebase_path@,
        }
    }
}

/// The tool a tool call invokes, with its arguments.
#[derive(Clone, Debug, PartialEq)]
pub enum Tool {
    RunShellCommand(RunShellCommand),
    ReadFiles(ReadFiles),
    ApplyFileDiffs(ApplyFileDiffs),
    Grep(Grep),
    FileGlobV2(FileGlobV2),
    SearchCodebase(SearchCodebase),
    /// Any other tool of the protocol.
    Other,
}

pub enum SpecTool {
    RunShellCommand(SpecRunShellCommand),
    ReadFiles(SpecReadFiles),
    ApplyFileDiffs(SpecApplyFileDiffs),
    Grep(SpecGrep),
    FileGlobV2(SpecFileGlobV2),
    SearchCodebase(SpecSearchCodebase),
    Other,
}

impl DeepView for Tool {
    type V = SpecTool;

    open spec fn deep_view(&self) -> SpecTool {
        match self {
            Tool::RunShellCommand(t) => SpecTool::RunShellCommand(t.deep_view()),
            Tool::ReadFiles(t) => SpecTool::ReadFiles(t.deep_view()),
            Tool::ApplyFileDiffs(t) => SpecTool::ApplyFileDiffs(t.deep_view()),
            Tool::Grep(t) => SpecTool::Grep(t.deep_view()),
            Tool::FileGlobV2(t) => SpecTool::FileGlobV2(t.deep_view()),
            Tool::SearchCodebase(t) => SpecTool::SearchCodebase(t.deep_view()),
            Tool::Other => SpecTool::Other,
        }
    }
}

/// A tool call made by the model.
#[derive(Clone, Debug, PartialEq)]
pub struct ToolCall {
    pub tool_call_id: String,
    pub tool: Option<Tool>,
}

pub struct SpecToolCall {
    pub tool_call_id: Seq<char>,
    pub tool: Option<SpecTool>,
}

impl DeepView for ToolCall {
    type V = SpecToolCall;

    open spec fn deep_view(&self) -> SpecToolCall {
        SpecToolCall { tool_call_id: self.tool_call_id@, tool: self.tool.deep_view() }
    }
}

// ── Tool results ────────────────────────────────────────────────────────────

/// How a shell command ended up.
#[derive(Clone, Debug, PartialEq)]
pub enum ShellOutcome {
    CommandFinished { exit_code: i32, output: String },
    LongRunningCommandSnapshot { output: String },
    PermissionDenied,
}

pub enum SpecShellOutcome {
    CommandFinished { exit_code: i32, output: Seq<char> },
    LongRunningCommandSnapshot { output: Seq<char> },
    PermissionDenied,
}

impl DeepView for ShellOutcome {
    type V = SpecShellOutcome;

    open spec fn deep_view(&self) -> SpecShellOutcome {
        match self {
            ShellOutcome::CommandFinished { exit_code, output } => SpecShellOutcome::CommandFinished {
                exit_code: *exit_code,
                output: output@,
            },
            ShellOutcome::LongRunningCommandSnapshot { output } =>
                SpecShellOutcome::LongRunningCommandSnapshot { output: output@ },
            ShellOutcome::PermissionDenied => SpecShellOutcome::PermissionDenied,
        }
    }
}

/// Result of a shell command.
#[derive(Clone, Debug, PartialEq)]
pub struct RunShellCommandResult {
    pub command: String,
    pub result: Option<ShellOutcome>,
}

pub struct SpecRunShellCommandResult {
    pub command: Seq<char>,
    pub result: Option<SpecShellOutcome>,
}

impl DeepView for RunShellCommandResult {
    type V = SpecRunShellCommandResult;

    open spec fn deep_view(&self) -> SpecRunShellCommandResult {
        SpecRunShellCommandResult { command: self.command@, result: self.result.deep_view() }
    }
}

/// A file and its text.
#[derive(Clone, Debug, PartialEq)]
pub struct FileContent {
    pub file_path: String,
    pub content: String,
}

impl DeepView for FileContent {
    type V = (Seq<char>, Seq<char>);

    open spec fn deep_view(&self) -> (Seq<char>, Seq<char>) {
        (self.file_path@, self.content@)
    }
}

/// How reading files ended up.
#[derive(Clone, Debug, PartialEq)]
pub enum ReadFilesOutcome {
    TextFilesSuccess { files: Vec<FileContent> },
    /// Files read in a form other than text; only their paths are kept.
    AnyFilesSuccess { files: Vec<String> },
    Error { message: String },
}

pub enum SpecReadFilesOutcome {
    TextFilesSuccess { files: Seq<(Seq<char>, Seq<char>)> },
    AnyFilesSuccess { files: Seq<Seq<char>> },
    Error { message: Seq<char> },
}

impl DeepView for ReadFilesOutcome {
    type V = SpecReadFilesOutcome;

    open spec fn deep_view(&self) -> SpecReadFilesOutcome {
        match self {
            ReadFilesOutcome::TextFilesSuccess { files } => SpecReadFilesOutcome::TextFilesSuccess {
                files: files.deep_view(),
            },
            ReadFilesOutcome::AnyFilesSuccess { files } => SpecReadFilesOutcome::AnyFilesSuccess {
                files: files.deep_view(),
            },
            ReadFilesOutcome::Error { message } => SpecReadFilesOutcome::Error {
                message: message@,
            },
        }
    }
}

/// Result of reading files.
#[derive(Clone, Debug, PartialEq)]
pub struct ReadFilesResult {
    pub result: Option<ReadFilesOutcome>,
}

impl DeepView for ReadFilesResult {
    type V = Option<SpecReadFilesOutcome>;

    open spec fn deep_view(&self) -> Option<SpecReadFilesOutcome> {
        self.result.deep_view()
    }
}

/// A file that applying diffs updated.
#[derive(Clone, Debug, PartialEq)]
pub struct UpdatedFile {
    /// The path of the file, when the result names it.
    pub file_path: Option<String>,
}

impl DeepView for UpdatedFile {
    type V = Option<Seq<char>>;

    open spec fn deep_view(&self) -> Option<Seq<char>> {
        self.file_path.deep_view()
    }
}

/// How applying diffs ended up.
#[derive(Clone, Debug, PartialEq)]
pub enum ApplyFileDiffsOutcome {
    Success { updated_files: Vec<UpdatedFile> },
    Error { message: String },
}

pub enum SpecApplyFileDiffsOutcome {
    Success { updated_files: Seq<Option<Seq<char>>> },
    Error { message: Seq<char> },
}

impl DeepView for ApplyFileDiffsOutcome {
    type V = SpecApplyFileDiffsOutcome;

    open spec fn deep_view(&self) -> SpecApplyFileDiffsOutcome {
        match self {
            ApplyFileDiffsOutcome::Success { updated_files } => SpecApplyFileDiffsOutcome::Success {
                updated_files: updated_files.deep_view(),
            },
            ApplyFileDiffsOutcome::Error { message } => SpecApplyFileDiffsOutcome::Error {
                message: message@,
            },
        }
    }
}

/// Result of applying diffs.
#[derive(Clone, Debug, PartialEq)]
pub struct ApplyFileDiffsResult {
    pub result: Option<ApplyFileDiffsOutcome>,
}

impl DeepView for ApplyFileDiffsResult {
    type V = Option<SpecApplyFileDiffsOutcome>;

    open spec fn deep_view(&self) -> Option<SpecApplyFileDiffsOutcome> {
        self.result.deep_view()
    }
}

/// The lines of one file that a grep matched.
#[derive(Clone, Debug, PartialEq)]
pub struct GrepFileMatch {
    pub file_path: String,
    pub line_numbers: Vec<u32>,
}

impl DeepView for GrepFileMatch {
    type V = (Seq<char>, Seq<u32>);

    open spec fn deep_view(&self) -> (Seq<char>, Seq<u32>) {
        (self.file_path@, self.line_numbers.deep_view())
    }
}

/// How a grep ended up.
#[derive(Clone, Debug, PartialEq)]
pub enum GrepOutcome {
    Success { matched_files: Vec<GrepFileMatch> },
    Error { message: String },
}

pub enum SpecGrepOutcome {
    Success { matched_files: Seq<(Seq<char>, Seq<u32>)> },
    Error { message: Seq<char> },
}

impl DeepView for GrepOutcome {
    type V = SpecGrepOutcome;

    open spec fn deep_view(&self) -> SpecGrepOutcome {
        match self {
            GrepOutcome::Success { matched_files } => SpecGrepOutcome::Success {
                matched_files: matched_files.deep_view(),
            },
            GrepOutcome::Error { message } => SpecGrepOutcome::Error { message: message@ },
        }
    }
}

/// Result of a grep.
#[derive(Clone, Debug, PartialEq)]
pub struct GrepResult {
    pub result: Option<GrepOutcome>,
}

impl DeepView for GrepResult {
    type V = Option<SpecGrepOutcome>;

    open spec fn deep_view(&self) -> Option<SpecGrepOutcome> {
        self.result.deep_view()
    }
}

/// How a file glob ended up.
#[derive(Clone, Debug, PartialEq)]
pub enum FileGlobV2Outcome {
    Success { matched_files: Vec<String> },
    Error { message: String },
}

pub enum SpecFileGlobV2Outcome {
    Success { matched_files: Seq<Seq<char>> },
    Error { message: Seq<char> },
}

impl DeepView for FileGlobV2Outcome {
    type V = SpecFileGlobV2Outcome;

    open spec fn deep_view(&self) -> SpecFileGlobV2Outcome {
        match self {
            FileGlobV2Outcome::Success { matched_files } => SpecFileGlobV2Outcome::Success {
                matched_files: matched_files.deep_view(),
            },
            FileGlobV2Outcome::Error { message } => SpecFileGlobV2Outcome::Error {
                message: message@,
            },
        }
    }
}

/// Result of a file glob.
#[derive(Clone, Debug, PartialEq)]
pub struct FileGlobV2Result {
    pub result: Option<FileGlobV2Outcome>,
}

impl DeepView for FileGlobV2Result {
    type V = Option<SpecFileGlobV2Outcome>;

    open spec fn deep_view(&self) -> Option<SpecFileGlobV2Outcome> {
        self.result.deep_view()
    }
}

/// How a codebase search ended up.
#[derive(Clone, Debug, PartialEq)]
pub enum SearchCodebaseOutcome {
    Success { files: Vec<FileContent> },
    Error { message: String },
}

pub enum SpecSearchCodebaseOutcome {
    Success { files: Seq<(Seq<char>, Seq<char>)> },
    Error { message: Seq<char> },
}

impl DeepView for SearchCodebaseOutcome {
    type V = SpecSearchCodebaseOutcome;

    open spec fn deep_view(&self) -> SpecSearchCodebaseOutcome {
        match self {
            SearchCodebaseOutcome::Success { files } => SpecSearchCodebaseOutcome::Success {
                files: files.deep_view(),
            },
            SearchCodebaseOutcome::Error { message } => SpecSearchCodebaseOutcome::Error {
                message: message@,
            },
        }
    }
}

/// Result of a codebase search.
#[derive(Clone, Debug, PartialEq)]
pub struct SearchCodebaseResult {
    pub result: Option<SearchCodebaseOutcome>,
}

impl DeepView for SearchCodebaseResult {
    type V = Option<SpecSearchCodebaseOutcome>;

    open spec fn deep_view(&self) -> Option<SpecSearchCodebaseOutcome> {
        self.result.deep_view()
    }
}

/// The result of one tool.
#[derive(Clone, Debug, PartialEq)]
pub enum ToolResult {
    RunShellCommand(RunShellCommandResult),
    ReadFiles(ReadFilesResult),
    ApplyFileDiffs(ApplyFileDiffsResult),
    Grep(GrepResult),
    FileGlobV2(FileGlobV2Result),
    SearchCodebase(SearchCodebaseResult),
    /// The result of any other tool of the protocol.
    Other,
}

pub enum SpecToolResult {
    RunShellCommand(SpecRunShellCommandResult),
    ReadFiles(Option<SpecReadFilesOutcome>),
    ApplyFileDiffs(Option<SpecApplyFileDiffsOutcome>),
    Grep(Option<SpecGrepOutcome>),
    FileGlobV2(Option<SpecFileGlobV2Outcome>),
    SearchCodebase(Option<SpecSearchCodebaseOutcome>),
    Other,
}

impl DeepView for ToolResult {
    type V = SpecToolResult;

    open spec fn deep_view(&self) -> SpecToolResult {
        match self {
            ToolResult::RunShellCommand(r) => SpecToolResult::RunShellCommand(r.deep_view()),
            ToolResult::ReadFiles(r) => SpecToolResult::ReadFiles(r.deep_view()),
            ToolResult::ApplyFileDiffs(r) => SpecToolResult::ApplyFileDiffs(r.deep_view()),
            ToolResult::Grep(r) => SpecToolResult::Grep(r.deep_view()),
            ToolResult::FileGlobV2(r) => SpecToolResult::FileGlobV2(r.deep_view()),
            ToolResult::SearchCodebase(r) => SpecToolResult::SearchCodebase(r.deep_view()),
            ToolResult::Other => SpecToolResult::Other,
        }
    }
}

/// A tool result recorded in a task's history.
#[derive(Clone, Debug, PartialEq)]
pub struct ToolCallResult {
    pub tool_call_id: String,
    pub result: Option<ToolResult>,
}

/// A tool result sent as input of a new turn.
#[derive(Clone, Debug, PartialEq)]
pub struct InputToolCallResult {
    pub tool_call_id: String,
    pub result: Option<ToolResult>,
}

pub struct SpecToolCallResult {
    pub tool_call_id: Seq<char>,
    pub result: Option<SpecToolResult>,
}

impl DeepView for ToolCallResult {
    type V = SpecToolCallResult;

    open spec fn deep_view(&self) -> SpecToolCallResult {
        SpecToolCallResult { tool_call_id: self.tool_call_id@, result: self.result.deep_view() }
    }
}

impl DeepView for InputToolCallResult {
    type V = SpecToolCallResult;

    open spec fn deep_view(&self) -> SpecToolCallResult {
        SpecToolCallResult { tool_call_id: self.tool_call_id@, result: self.result.deep_view() }
    }
}

// ── Messages and tasks ──────────────────────────────────────────────────────

/// A query typed by the user.
#[derive(Clone, Debug, PartialEq)]
pub struct UserQuery {
    pub query: String,
}

/// Text written by the agent.
#[derive(Clone, Debug, PartialEq)]
pub struct AgentOutput {
    pub text: String,
}

/// The kind of a system query.
#[derive(Clone, Debug, PartialEq)]
pub enum SystemQueryType {
    /// An automatic code diff request, carrying its query text.
    AutoCodeDiff { query: String },
    Other,
}

/// A query issued by the client itself.
#[derive(Clone, Debug, PartialEq)]
pub struct SystemQuery {
    pub query_type: Option<SystemQueryType>,
}

/// The content of a task message.
#[derive(Clone, Debug, PartialEq)]
pub enum MessageBody {
    UserQuery(UserQuery),
    AgentOutput(AgentOutput),
    ToolCall(ToolCall),
    ToolCallResult(ToolCallResult),
    SystemQuery(SystemQuery),
    /// Any other kind of message of the protocol.
    Other,
}

pub enum SpecMessageBody {
    UserQuery(Seq<char>),
    AgentOutput(Seq<char>),
    ToolCall(SpecToolCall),
    ToolCallResult(SpecToolCallResult),
    /// `Some(query)` for an automatic code diff, `None` for other system queries.
    SystemQuery(Option<Option<Seq<char>>>),
    Other,
}

impl DeepView for MessageBody {
    type V = SpecMessageBody;

    open spec fn deep_view(&self) -> SpecMessageBody {
        match self {
            MessageBody::UserQuery(q) => SpecMessageBody::UserQuery(q.query@),
            MessageBody::AgentOutput(a) => SpecMessageBody::AgentOutput(a.text@),
            MessageBody::ToolCall(tc) => SpecMessageBody::ToolCall(tc.deep_view()),
            MessageBody::ToolCallResult(r) => SpecMessageBody::ToolCallResult(r.deep_view()),
            MessageBody::SystemQuery(sq) => SpecMessageBody::SystemQuery(
                match &sq.query_type {
                    Some(SystemQueryType::AutoCodeDiff { query }) => Some(Some(query@)),
                    Some(SystemQueryType::Other) => Some(None),
                    None => None,
                },
            ),
            MessageBody::Other => SpecMessageBody::Other,
        }
    }
}

/// A message of a task's history.
#[derive(Clone, Debug, PartialEq)]
pub struct Message {
    pub id: String,
    pub task_id: String,
    pub message: Option<MessageBody>,
}

pub struct SpecMessage {
    pub id: Seq<char>,
    pub task_id: Seq<char>,
    pub message: Option<SpecMessageBody>,
}

impl DeepView for Message {
    type V = SpecMessage;

    open spec fn deep_view(&self) -> SpecMessage {
        SpecMessage { id: self.id@, task_id: self.task_id@, message: self.message.deep_view() }
    }
}

/// A task and its message history.
#[derive(Clone, Debug, PartialEq)]
pub struct Task {
    pub id: String,
    pub description: String,
    pub messages: Vec<Message>,
}

pub struct SpecTask {
    pub id: Seq<char>,
    pub description: Seq<char>,
    pub messages: Seq<SpecMessage>,
}

impl DeepView for Task {
    type V = SpecTask;

    open spec fn deep_view(&self) -> SpecTask {
        SpecTask {
            id: self.id@,
            description: self.description@,
            messages: self.messages.deep_view(),
        }
    }
}

// ── Requests ────────────────────────────────────────────────────────────────

/// The tasks of the conversation so far.
#[derive(Clone, Debug, PartialEq)]
pub struct TaskContext {
    pub tasks: Vec<Task>,
}

/// One input of a new turn.
#[derive(Clone, Debug, PartialEq)]
pub enum UserInputKind {
    UserQuery(UserQuery),
    ToolCallResult(InputToolCallResult),
    /// Any other kind of input of the protocol.
    Other,
}

pub enum SpecUserInput {
    UserQuery(Seq<char>),
    ToolCallResult(SpecToolCallResult),
    Other,
}

/// One input of a new turn, possibly empty.
#[derive(Clone, Debug, PartialEq)]
pub struct UserInput {
    pub input: Option<UserInputKind>,
}

impl DeepView for UserInput {
    type V = Option<SpecUserInput>;

    open spec fn deep_view(&self) -> Option<SpecUserInput> {
        match &self.input {
            Some(UserInputKind::UserQuery(q)) => Some(SpecUserInput::UserQuery(q.query@)),
            Some(UserInputKind::ToolCallResult(r)) => Some(
                SpecUserInput::ToolCallResult(r.deep_view()),
            ),
            Some(UserInputKind::Other) => Some(SpecUserInput::Other),
            None => None,
        }
    }
}

/// The inputs of a new turn.
#[derive(Clone, Debug, PartialEq)]
pub enum InputType {
    UserInputs { inputs: Vec<UserInput> },
    /// Any other kind of turn input of the protocol.
    Other,
}

/// The input of a new turn.
#[derive(Clone, Debug, PartialEq)]
pub struct Input {
    pub input_type: Option<InputType>,
}

/// Settings of a request.
#[derive(Clone, Debug, PartialEq)]
pub struct Settings {
    pub supported_tools: Vec<ToolType>,
}

/// Metadata of a request.
#[derive(Clone, Debug, PartialEq)]
pub struct Metadata {
    pub conversation_id: String,
}

/// A request for one agent turn.
#[derive(Clone, Debug, PartialEq)]
pub struct Request {
    pub task_context: Option<TaskContext>,
    pub input: Option<Input>,
    pub settings: Option<Settings>,
    pub metadata: Option<Metadata>,
}

pub struct SpecRequest {
    /// The tasks, when there is a task context.
    pub tasks: Option<Seq<SpecTask>>,
    /// The inputs of the turn, when the input holds user inputs.
    pub user_inputs: Option<Seq<Option<SpecUserInput>>>,
    /// The supported tools, when there are settings.
    pub supported_tools: Option<Seq<ToolType>>,
    /// The conversation id, when there is metadata.
    pub conversation_id: Option<Seq<char>>,
}

impl DeepView for Request {
    type V = SpecRequest;

    open spec fn deep_view(&self) -> SpecRequest {
        SpecRequest {
            tasks: match &self.task_context {
                Some(tc) => Some(tc.tasks.deep_view()),
                None => None,
            },
            user_inputs: match &self.input {
                Some(Input { input_type: Some(InputType::UserInputs { inputs }) }) => Some(
                    inputs.deep_view(),
                ),
                _ => None,
            },
            supported_tools: match &self.settings {
                Some(s) => Some(s.supported_tools@),
                None => None,
            },
            conversation_id: match &self.metadata {
                Some(m) => Some(m.conversation_id@),
                None => None,
            },
        }
    }
}

// ── Response events ─────────────────────────────────────────────────────────

/// An action the client applies to its task state.
#[derive(Clone, Debug, PartialEq)]
pub enum ClientAction {
    CreateTask { task: Task },
    AddMessagesToTask { task_id: String, messages: Vec<Message> },
    BeginTransaction,
    CommitTransaction,
}

pub enum SpecClientAction {
    CreateTask { task: SpecTask },
    AddMessagesToTask { task_id: Seq<char>, messages: Seq<SpecMessage> },
    BeginTransaction,
    CommitTransaction,
}

impl DeepView for ClientAction {
    type V = SpecClientAction;

    open spec fn deep_view(&self) -> SpecClientAction {
        match self {
            ClientAction::CreateTask { task } => SpecClientAction::CreateTask {
                task: task.deep_view(),
            },
            ClientAction::AddMessagesToTask { task_id, messages } =>
                SpecClientAction::AddMessagesToTask {
                task_id: task_id@,
                messages: messages.deep_view(),
            },
            ClientAction::BeginTransaction => SpecClientAction::BeginTransaction,
            ClientAction::CommitTransaction => SpecClientAction::CommitTransaction,
        }
    }
}

/// Why a response stream finished.
#[derive(Clone, Copy, PartialEq, Eq, Structural, Debug)]
pub enum FinishReason {
    Done,
}

/// One event of a response stream.
#[derive(Clone, Debug, PartialEq)]
pub enum ResponseEvent {
    Init { conversation_id: String, request_id: String, run_id: String },
    ClientActions { actions: Vec<ClientAction> },
    Finished { reason: Option<FinishReason> },
}

pub enum SpecResponseEvent {
    Init { conversation_id: Seq<char>, request_id: Seq<char>, run_id: Seq<char> },
    ClientActions { actions: Seq<SpecClientAction> },
    Finished { reason: Option<FinishReason> },
}

impl DeepView for ResponseEvent {
    type V = SpecResponseEvent;

    open spec fn deep_view(&self) -> SpecResponseEvent {
        match self {
            ResponseEvent::Init { conversation_id, request_id, run_id } => SpecResponseEvent::Init {
                conversation_id: conversation_id@,
                request_id: request_id@,
                run_id: run_id@,
            },
            ResponseEvent::ClientActions { actions } => SpecResponseEvent::ClientActions {
                actions: actions.deep_view(),
            },
            ResponseEvent::Finished { reason } => SpecResponseEvent::Finished { reason: *reason },
        }
    }
}

} // verus!
