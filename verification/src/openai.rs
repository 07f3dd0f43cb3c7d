//! The OpenAI chat-completions protocol: request body, messages, tool
//! definitions and the (non-streaming) completion.

use vstd::prelude::*;

use crate::json::{json_view, JsonValue, SpecJson};

verus! {

/// The function named by a tool call, with its JSON-encoded arguments.
#[derive(Clone, Debug, PartialEq)]
pub struct FunctionCallContent {
    pub name: String,
    pub arguments: String,
}

/// An assistant-emitted tool call (in request history or response).
#[derive(Clone, Debug, PartialEq)]
pub struct AssistantToolCall {
    pub id: String,
    pub call_type: String,
    pub function: FunctionCallContent,
}

pub struct SpecAssistantToolCall {
    pub id: Seq<char>,
    pub call_type: Seq<char>,
    pub name: Seq<char>,
    pub arguments: Seq<char>,
}

impl DeepView for AssistantToolCall {
    type V = SpecAssistantToolCall;

    open spec fn deep_view(&self) -> SpecAssistantToolCall {
        SpecAssistantToolCall {
            id: self.id@,
            call_type: self.call_type@,
            name: self.function.name@,
            arguments: self.function.arguments@,
        }
    }
}

/// A single message in the conversation (request side).
#[derive(Clone, Debug, PartialEq)]
pub struct ChatMessage {
    pub role: String,
    pub content: Option<String>,
    pub tool_calls: Option<Vec<AssistantToolCall>>,
    pub tool_call_id: Option<String>,
}

pub struct SpecChatMessage {
    pub role: Seq<char>,
    pub content: Option<Seq<char>>,
    pub tool_calls: Option<Seq<SpecAssistantToolCall>>,
    pub tool_call_id: Option<Seq<char>>,
}

impl DeepView for ChatMessage {
    type V = SpecChatMessage;

    open spec fn deep_view(&self) -> SpecChatMessage {
        SpecChatMessage {
            role: self.role@,
            content: self.content.deep_view(),
            tool_calls: self.tool_calls.deep_view(),
            tool_call_id: self.tool_call_id.deep_view(),
        }
    }
}

/// The function a tool definition offers.
#[derive(Debug, PartialEq)]
pub struct FunctionDefinition {
    pub name: String,
    pub description: String,
    pub parameters: JsonValue,
}

/// A tool definition sent in the request.
#[derive(Debug, PartialEq)]
pub struct ToolDefinition {
    pub def_type: String,
    pub function: FunctionDefinition,
}

pub struct SpecToolDefinition {
    pub def_type: Seq<char>,
    pub name: Seq<char>,
    pub description: Seq<char>,
    pub parameters: SpecJson,
}

impl DeepView for ToolDefinition {
    type V = SpecToolDefinition;

    open spec fn deep_view(&self) -> SpecToolDefinition {
        SpecToolDefinition {
            def_type: self.def_type@,
            name: self.function.name@,
            description: self.function.description@,
            parameters: json_view(&self.function.parameters),
        }
    }
}

/// POST body for `POST /v1/chat/completions`.
#[derive(Debug, PartialEq)]
pub struct ChatRequest {
    pub model: String,
    pub messages: Vec<ChatMessage>,
    pub stream: bool,
    pub tools: Option<Vec<ToolDefinition>>,
    pub tool_choice: Option<JsonValue>,
}

pub struct SpecChatRequest {
    pub model: Seq<char>,
    pub messages: Seq<SpecChatMessage>,
    pub stream: bool,
    pub tools: Option<Seq<SpecToolDefinition>>,
    pub tool_choice: Option<SpecJson>,
}

impl DeepView for ChatRequest {
    type V = SpecChatRequest;

    open spec fn deep_view(&self) -> SpecChatRequest {
        SpecChatRequest {
            model: self.model@,
            messages: self.messages.deep_view(),
            stream: self.stream,
            tools: self.tools.deep_view(),
            tool_choice: match &self.tool_choice {
                Some(j) => Some(json_view(j)),
                None => None,
            },
        }
    }
}

// ── Non-streaming response ─────────────────────────────────────────────────

/// The message of a completion choice.
#[derive(Clone, Debug, PartialEq)]
pub struct CompletionMessage {
    pub role: String,
    pub content: Option<String>,
    pub tool_calls: Option<Vec<AssistantToolCall>>,
}

pub struct SpecCompletionMessage {
    pub role: Seq<char>,
    pub content: Option<Seq<char>>,
    pub tool_calls: Option<Seq<SpecAssistantToolCall>>,
}

impl DeepView for CompletionMessage {
    type V = SpecCompletionMessage;

    open spec fn deep_view(&self) -> SpecCompletionMessage {
        SpecCompletionMessage {
            role: self.role@,
            content: self.content.deep_view(),
            tool_calls: self.tool_calls.deep_view(),
        }
    }
}

/// One choice of a completion.
#[derive(Clone, Debug, PartialEq)]
pub struct CompletionChoice {
    pub message: CompletionMessage,
    pub finish_reason: Option<String>,
}

impl DeepView for CompletionChoice {
    type V = SpecCompletionMessage;

    /// The message of the choice (the finish reason plays no part in the translation).
    open spec fn deep_view(&self) -> SpecCompletionMessage {
        self.message.deep_view()
    }
}

/// A chat completion.
#[derive(Clone, Debug, PartialEq)]
pub struct ChatCompletion {
    pub choices: Vec<CompletionChoice>,
}

impl DeepView for ChatCompletion {
    type V = Seq<SpecCompletionMessage>;

    open spec fn deep_view(&self) -> Seq<SpecCompletionMessage> {
        self.choices.deep_view()
    }
}

} // verus!
