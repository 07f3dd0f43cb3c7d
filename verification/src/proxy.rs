//! One agent turn against a direct provider: what to send for a protocol
//! request, and the response events that a chat completion becomes.
//!
//! The transport (HTTP, decoding the reply, streaming to the client) lies
//! with the caller: it sends [`TurnPlan::chat_request`] as [`TurnPlan::call`]
//! says, decodes the completion and hands it to [`finish_turn`], which reads
//! the tool calls' arguments.

use vstd::prelude::*;

use crate::ids::{
    is_uuid_v4_text, lemma_stand_in_ids, new_uuid_text, stand_in_id, stand_in_id_text,
    texts_all_distinct, texts_distinct,
};
use crate::json::{json_view, parse_json_text, spec_parse_json_text, JsonValue, SpecJson};
use crate::net::{spec_http_call, HttpCall};
use crate::openai::{
    ChatCompletion, ChatRequest, SpecAssistantToolCall, SpecChatRequest, SpecCompletionMessage,
};
use crate::proto::{
    ClientAction, FinishReason, InputType, Message, MessageBody, Request, ResponseEvent,
    SpecClientAction, SpecMessage, SpecMessageBody, SpecRequest, SpecResponseEvent, SpecTask,
    SpecToolCallResult, SpecToolResult, SpecUserInput, Task, ToolCallResult, ToolResult,
    ToolType, UserInputKind, AgentOutput,
};
use crate::providers::{chat_completions_request, spec_endpoint_url, DirectProviderConfig};
use crate::text::owned;
use crate::tool_defs::{spec_tool_definitions_for, tool_definitions_for};
use crate::translate::{
    build_openai_messages, opt_json_view, spec_openai_messages, spec_tool_call_message,
    text_or_empty, tool_call_message,
};

verus! {

// ── Echoing the turn's tool results ────────────────────────────────────────

/// A new-turn tool result as it is recorded in the task: results of tools
/// with no chat counterpart are dropped.
pub open spec fn spec_convert_input_tcr_result(r: Option<SpecToolResult>) -> Option<SpecToolResult> {
    match r {
        Some(SpecToolResult::Other) => None,
        other => other,
    }
}

/// Convert the result of a new-turn tool result to the result recorded in
/// the task history; results of other tools become `None`.
pub fn convert_input_tcr_result(result: Option<ToolResult>) -> (r: Option<ToolResult>)
    ensures
        r.deep_view() == spec_convert_input_tcr_result(result.deep_view()),
{
    match result {
        Some(ToolResult::Other) => None,
        other => other,
    }
}

/// The tool results among the inputs of the new turn, in order.
pub open spec fn spec_input_tool_results(inputs: Option<Seq<Option<SpecUserInput>>>) -> Seq<SpecToolCallResult> {
    match inputs {
        Some(ins) => ins.filter_map(
            |i: Option<SpecUserInput>|
                match i {
                    Some(SpecUserInput::ToolCallResult(r)) => Some(r),
                    _ => None,
                },
        ),
        None => Seq::empty(),
    }
}

/// The task message (with id `id`) that echoes a new-turn tool result.
pub open spec fn spec_echo_message(t: SpecToolCallResult, task_id: Seq<char>, id: Seq<char>) -> SpecMessage {
    SpecMessage {
        id: id,
        task_id: task_id,
        message: Some(
            SpecMessageBody::ToolCallResult(
                SpecToolCallResult {
                    tool_call_id: t.tool_call_id,
                    result: spec_convert_input_tcr_result(t.result),
                },
            ),
        ),
    }
}

/// Whether `msgs` echoes the tool results `results` into task `task_id`, one
/// message per result, in order, each with a fresh random id.
pub open spec fn echoes(msgs: Seq<SpecMessage>, results: Seq<SpecToolCallResult>, task_id: Seq<char>) -> bool {
    &&& msgs.len() == results.len()
    &&& forall|k: int|
        0 <= k < msgs.len() ==> is_uuid_v4_text((#[trigger] msgs[k]).id) && msgs[k]
            == spec_echo_message(results[k], task_id, msgs[k].id)
}

/// Collect the tool results of the new turn's inputs as task messages, so
/// that the client's task state stays in step with what the model sees.
pub fn collect_input_tool_results(request: Request, task_id: &str) -> (r: Vec<Message>)
    ensures
        echoes(r.deep_view(), spec_input_tool_results(request.deep_view().user_inputs), task_id@),
{
    let ghost req = request.deep_view();
    let inputs = match request.input {
        Some(input) => match input.input_type {
            Some(InputType::UserInputs { inputs }) => inputs,
            _ => {
                let r: Vec<Message> = Vec::new();
                assert(r.deep_view() =~= Seq::<SpecMessage>::empty());
                return r;
            },
        },
        None => {
            let r: Vec<Message> = Vec::new();
            assert(r.deep_view() =~= Seq::<SpecMessage>::empty());
            return r;
        },
    };
    let ghost sv = inputs.deep_view();
    assert(req.user_inputs == Some(sv));
    let ghost results = spec_input_tool_results(Some(sv));
    // Take the inputs out in reverse, then convert them in order.
    let mut rest = inputs;
    let mut rev: Vec<crate::proto::UserInput> = Vec::new();
    let n = rest.len();
    while rest.len() > 0
        invariant
            rest@.len() + rev@.len() == sv.len(),
            forall|k: int| 0 <= k < rest@.len() ==> (#[trigger] rest@[k]).deep_view() == sv[k],
            forall|k: int|
                0 <= k < rev@.len() ==> (#[trigger] rev@[k]).deep_view() == sv[sv.len() - 1 - k],
        decreases rest@.len(),
    {
        let x = rest.pop().unwrap();
        rev.push(x);
    }
    let mut r: Vec<Message> = Vec::new();
    let mut i: usize = 0;
    while rev.len() > 0
        invariant
            i + rev@.len() == sv.len(),
            sv.len() == n,
            forall|k: int|
                0 <= k < rev@.len() ==> (#[trigger] rev@[k]).deep_view() == sv[sv.len() - 1 - k],
            echoes(
                r.deep_view(),
                spec_input_tool_results(Some(sv.take(i as int))),
                task_id@,
            ),
        decreases rev@.len(),
    {
        let ui = rev.pop().unwrap();
        assert(ui.deep_view() == sv[i as int]);
        assert(sv.take(i + 1).drop_last() =~= sv.take(i as int));
        let ghost before = r.deep_view();
        let ghost prev = spec_input_tool_results(Some(sv.take(i as int)));
        match ui.input {
            Some(UserInputKind::ToolCallResult(tcr)) => {
                let ghost t = tcr.deep_view();
                let m = Message {
                    id: new_uuid_text(),
                    task_id: owned(task_id),
                    message: Some(
                        MessageBody::ToolCallResult(
                            ToolCallResult {
                                tool_call_id: tcr.tool_call_id,
                                result: convert_input_tcr_result(tcr.result),
                            },
                        ),
                    ),
                };
                let ghost mv = m.deep_view();
                r.push(m);
                assert(r.deep_view() =~= before.push(mv));
                assert(spec_input_tool_results(Some(sv.take(i + 1))) =~= prev.push(t));
            },
            _ => {
                assert(spec_input_tool_results(Some(sv.take(i + 1))) =~= prev);
            },
        }
        i = i + 1;
    }
    assert(sv.take(sv.len() as int) =~= sv);
    r
}

// ── Preparing a turn ────────────────────────────────────────────────────────

/// The task bookkeeping of a turn.
#[derive(Clone, Debug, PartialEq)]
pub struct TurnState {
    pub conversation_id: String,
    pub root_task_id: String,
    /// Whether the root task must be created (first turn of a conversation).
    pub needs_create_task: bool,
    /// The new turn's tool results, to echo back into the root task.
    pub input_tool_results: Vec<Message>,
}

pub struct SpecTurnState {
    pub conversation_id: Seq<char>,
    pub root_task_id: Seq<char>,
    pub needs_create_task: bool,
    pub input_tool_results: Seq<SpecMessage>,
}

impl DeepView for TurnState {
    type V = SpecTurnState;

    open spec fn deep_view(&self) -> SpecTurnState {
        SpecTurnState {
            conversation_id: self.conversation_id@,
            root_task_id: self.root_task_id@,
            needs_create_task: self.needs_create_task,
            input_tool_results: self.input_tool_results.deep_view(),
        }
    }
}

/// Everything a turn needs: the bookkeeping, the chat request body and the
/// HTTP call that carries it.
#[derive(Debug, PartialEq)]
pub struct TurnPlan {
    pub state: TurnState,
    pub chat_request: ChatRequest,
    pub call: HttpCall,
}

/// The chat request body for a protocol request sent to `model`: all
/// messages, no streaming, the definitions of the supported tools (none
/// when there are none) and no tool choice.
pub open spec fn spec_chat_request(model: Seq<char>, req: SpecRequest) -> SpecChatRequest {
    let defs = spec_tool_definitions_for(
        match req.supported_tools {
            Some(t) => t,
            None => Seq::empty(),
        },
    );
    SpecChatRequest {
        model: model,
        messages: spec_openai_messages(req),
        stream: false,
        tools: if defs.len() == 0 {
            None
        } else {
            Some(defs)
        },
        tool_choice: None,
    }
}

/// Whether `state` is the bookkeeping of a turn for `req`: the request's
/// conversation id when it has a non-empty one, otherwise a fresh one; the
/// id of the first task when there is one, otherwise a fresh id and a task
/// to create; and the echo of the turn's tool results into that task.
pub open spec fn turn_state_for(state: SpecTurnState, req: SpecRequest) -> bool {
    &&& match req.conversation_id {
        Some(c) => if c.len() > 0 {
            state.conversation_id == c
        } else {
            is_uuid_v4_text(state.conversation_id)
        },
        None => is_uuid_v4_text(state.conversation_id),
    }
    &&& match req.tasks {
        Some(ts) => if ts.len() > 0 {
            state.root_task_id == ts[0].id && !state.needs_create_task
        } else {
            is_uuid_v4_text(state.root_task_id) && state.needs_create_task
        },
        None => is_uuid_v4_text(state.root_task_id) && state.needs_create_task,
    }
    &&& echoes(
        state.input_tool_results,
        spec_input_tool_results(req.user_inputs),
        state.root_task_id,
    )
}

/// Prepare a turn for `request` against the provider of `config`.
pub fn prepare_turn(config: &DirectProviderConfig, request: Request) -> (r: TurnPlan)
    ensures
        turn_state_for(r.state.deep_view(), request.deep_view()),
        r.chat_request.deep_view() == spec_chat_request(config.model_id@, request.deep_view()),
        r.call.deep_view() == spec_http_call(
            spec_endpoint_url(config.base_url@, "/v1/chat/completions"@),
            config.api_key@,
            config.extra_headers.deep_view(),
        ),
{
    let ghost req = request.deep_view();

    // ── Resolve ids ──
    let conversation_id = match &request.metadata {
        Some(m) => if m.conversation_id.as_str().is_empty() {
            new_uuid_text()
        } else {
            m.conversation_id.clone()
        },
        None => new_uuid_text(),
    };
    let (root_task_id, needs_create_task) = match &request.task_context {
        Some(tc) => if tc.tasks.len() > 0 {
            assert(req.tasks->Some_0[0] == tc.tasks@[0].deep_view());
            (tc.tasks[0].id.clone(), false)
        } else {
            (new_uuid_text(), true)
        },
        None => (new_uuid_text(), true),
    };

    // ── Build the chat request ──
    let messages = build_openai_messages(&request);
    let tool_defs = match &request.settings {
        Some(s) => tool_definitions_for(s.supported_tools.as_slice()),
        None => {
            let none: Vec<ToolType> = Vec::new();
            assert(none@ =~= Seq::<ToolType>::empty());
            tool_definitions_for(none.as_slice())
        },
    };
    let tools = if tool_defs.len() == 0 {
        None
    } else {
        Some(tool_defs)
    };
    let chat_request = ChatRequest {
        model: config.model_id.clone(),
        messages,
        stream: false,
        tools,
        tool_choice: None,
    };
    let call = chat_completions_request(config);

    // ── Tool results to echo back to the client ──
    let input_tool_results = collect_input_tool_results(request, root_task_id.as_str());

    TurnPlan {
        state: TurnState { conversation_id, root_task_id, needs_create_task, input_tool_results },
        chat_request,
        call,
    }
}

// ── Response events ─────────────────────────────────────────────────────────

/// Ids for the events of a turn.
#[derive(Clone, Debug, PartialEq)]
pub struct ResponseIds {
    pub request_id: String,
    pub run_id: String,
    /// Id of the agent-output message.
    pub message_id: String,
    /// Id of the message for each tool call, by the tool call's position.
    pub tool_message_ids: Vec<String>,
}

pub struct SpecResponseIds {
    pub request_id: Seq<char>,
    pub run_id: Seq<char>,
    pub message_id: Seq<char>,
    pub tool_message_ids: Seq<Seq<char>>,
}

impl DeepView for ResponseIds {
    type V = SpecResponseIds;

    open spec fn deep_view(&self) -> SpecResponseIds {
        SpecResponseIds {
            request_id: self.request_id@,
            run_id: self.run_id@,
            message_id: self.message_id@,
            tool_message_ids: self.tool_message_ids.deep_view(),
        }
    }
}

/// The item at `k`, or the empty text past the end.
pub open spec fn id_at(ids: Seq<Seq<char>>, k: int) -> Seq<char> {
    if 0 <= k < ids.len() {
        ids[k]
    } else {
        Seq::empty()
    }
}

/// The parsed arguments at `k`, or `None` past the end.
pub open spec fn args_at(args: Seq<Option<SpecJson>>, k: int) -> Option<SpecJson> {
    if 0 <= k < args.len() {
        args[k]
    } else {
        None
    }
}

/// The tool-call messages for the first `n` tool calls, skipping those that
/// have no protocol counterpart or unusable arguments.
pub open spec fn spec_tool_call_messages(
    tcs: Seq<SpecAssistantToolCall>,
    args: Seq<Option<SpecJson>>,
    task_id: Seq<char>,
    ids: Seq<Seq<char>>,
    n: nat,
) -> Seq<SpecMessage>
    decreases n,
{
    if n == 0 {
        Seq::empty()
    } else {
        spec_tool_call_messages(tcs, args, task_id, ids, (n - 1) as nat) + crate::translate::option_to_seq(
            spec_tool_call_message(
                tcs[n - 1],
                args_at(args, n - 1),
                task_id,
                id_at(ids, n - 1),
            ),
        )
    }
}

/// An event with one client action.
pub open spec fn action_event(a: SpecClientAction) -> SpecResponseEvent {
    SpecResponseEvent::ClientActions { actions: seq![a] }
}

/// The root task created on the first turn.
pub open spec fn spec_root_task(root_task_id: Seq<char>) -> SpecTask {
    SpecTask { id: root_task_id, description: "Main task"@, messages: Seq::empty() }
}

/// The events for the first choice of a completion: its tool calls as
/// tool-call messages (no event when none of them translates), or else its
/// text as agent output (empty text when it has none). No event when there
/// is no choice.
pub open spec fn spec_choice_events(
    choices: Seq<SpecCompletionMessage>,
    args: Seq<Option<SpecJson>>,
    root_task_id: Seq<char>,
    ids: SpecResponseIds,
) -> Seq<SpecResponseEvent> {
    if choices.len() == 0 {
        Seq::empty()
    } else {
        match choices[0].tool_calls {
            Some(tcs) => {
                let msgs = spec_tool_call_messages(
                    tcs,
                    args,
                    root_task_id,
                    ids.tool_message_ids,
                    tcs.len(),
                );
                if msgs.len() == 0 {
                    Seq::empty()
                } else {
                    seq![
                        action_event(
                            SpecClientAction::AddMessagesToTask {
                                task_id: root_task_id,
                                messages: msgs,
                            },
                        ),
                    ]
                }
            },
            None => seq![
                action_event(
                    SpecClientAction::AddMessagesToTask {
                        task_id: root_task_id,
                        messages: seq![
                            SpecMessage {
                                id: ids.message_id,
                                task_id: root_task_id,
                                message: Some(
                                    SpecMessageBody::AgentOutput(text_or_empty(choices[0].content)),
                                ),
                            },
                        ],
                    },
                ),
            ],
        }
    }
}

/// The response events of a turn: stream init; the root task's creation on
/// the first turn; the echo of the turn's tool results (when there are
/// any); then, inside a transaction, the events of the first choice; and
/// the end of the stream.
pub open spec fn spec_turn_events(
    state: SpecTurnState,
    choices: Seq<SpecCompletionMessage>,
    args: Seq<Option<SpecJson>>,
    ids: SpecResponseIds,
) -> Seq<SpecResponseEvent> {
    seq![
        SpecResponseEvent::Init {
            conversation_id: state.conversation_id,
            request_id: ids.request_id,
            run_id: ids.run_id,
        },
    ] + (if state.needs_create_task {
        seq![action_event(SpecClientAction::CreateTask { task: spec_root_task(state.root_task_id) })]
    } else {
        Seq::empty()
    }) + (if state.input_tool_results.len() > 0 {
        seq![
            action_event(
                SpecClientAction::AddMessagesToTask {
                    task_id: state.root_task_id,
                    messages: state.input_tool_results,
                },
            ),
        ]
    } else {
        Seq::empty()
    }) + seq![action_event(SpecClientAction::BeginTransaction)] + spec_choice_events(
        choices,
        args,
        state.root_task_id,
        ids,
    ) + seq![
        action_event(SpecClientAction::CommitTransaction),
        SpecResponseEvent::Finished { reason: Some(FinishReason::Done) },
    ]
}

/// The mathematical values of the parsed arguments.
pub open spec fn args_view(args: Seq<Option<JsonValue>>) -> Seq<Option<SpecJson>> {
    args.map_values(
        |a: Option<JsonValue>|
            match a {
                Some(j) => Some(json_view(&j)),
                None => None,
            },
    )
}

fn one_action(a: ClientAction) -> (r: ResponseEvent)
    ensures
        r.deep_view() == action_event(a.deep_view()),
{
    let ghost av = a.deep_view();
    let mut actions: Vec<ClientAction> = Vec::new();
    actions.push(a);
    let r = ResponseEvent::ClientActions { actions };
    assert(r.deep_view()->actions =~= seq![av]);
    r
}

fn id_at_exec(ids: &Vec<String>, k: usize) -> (r: String)
    ensures
        r@ == id_at(ids.deep_view(), k as int),
{
    if k < ids.len() {
        ids[k].clone()
    } else {
        String::new()
    }
}

/// The response events of a turn, given the ids to use.
pub fn assemble_response_events(
    state: TurnState,
    completion: ChatCompletion,
    args: &Vec<Option<JsonValue>>,
    ids: ResponseIds,
) -> (r: Vec<ResponseEvent>)
    ensures
        r.deep_view() == spec_turn_events(
            state.deep_view(),
            completion.deep_view(),
            args_view(args@),
            ids.deep_view(),
        ),
{
    let ghost sv = state.deep_view();
    let ghost cv = completion.deep_view();
    let ghost av = args_view(args@);
    let ghost iv = ids.deep_view();
    let TurnState { conversation_id, root_task_id, needs_create_task, input_tool_results } = state;
    let ResponseIds { request_id, run_id, message_id, tool_message_ids } = ids;
    let mut events: Vec<ResponseEvent> = Vec::new();

    // 1. Stream init
    events.push(ResponseEvent::Init { conversation_id, request_id, run_id });
    let ghost e1 = events.deep_view();

    // 2. Create the root task on the first turn
    if needs_create_task {
        let task = Task {
            id: root_task_id.clone(),
            description: owned("Main task"),
            messages: Vec::new(),
        };
        assert(task.messages.deep_view() =~= Seq::<SpecMessage>::empty());
        assert(task.deep_view() == spec_root_task(sv.root_task_id));
        events.push(one_action(ClientAction::CreateTask { task }));
    }
    let ghost e2 = events.deep_view();

    // 3. Echo back tool results so the client's task state stays in sync
    if input_tool_results.len() > 0 {
        events.push(
            one_action(
                ClientAction::AddMessagesToTask {
                    task_id: root_task_id.clone(),
                    messages: input_tool_results,
                },
            ),
        );
    }
    let ghost e3 = events.deep_view();

    // 4. Begin transaction
    events.push(one_action(ClientAction::BeginTransaction));
    let ghost e4 = events.deep_view();
    assert(e4 =~= seq![
        SpecResponseEvent::Init {
            conversation_id: sv.conversation_id,
            request_id: iv.request_id,
            run_id: iv.run_id,
        },
    ] + (if sv.needs_create_task {
        seq![action_event(SpecClientAction::CreateTask { task: spec_root_task(sv.root_task_id) })]
    } else {
        Seq::empty()
    }) + (if sv.input_tool_results.len() > 0 {
        seq![
            action_event(
                SpecClientAction::AddMessagesToTask {
                    task_id: sv.root_task_id,
                    messages: sv.input_tool_results,
                },
            ),
        ]
    } else {
        Seq::empty()
    }) + seq![action_event(SpecClientAction::BeginTransaction)]);

    // 5. Process the completion choice
    let mut choices = completion.choices;
    if choices.len() > 0 {
        assert(cv[0] == choices@[0].deep_view());
        let choice = choices.swap_remove(0);
        let msg = choice.message;
        assert(cv[0] == msg.deep_view());
        match msg.tool_calls {
            Some(tool_calls) => {
                // The model wants to call tools: emit tool-call messages.
                let ghost tcs = tool_calls.deep_view();
                let mut tool_call_messages: Vec<Message> = Vec::new();
                let mut k: usize = 0;
                while k < tool_calls.len()
                    invariant
                        k <= tool_calls@.len(),
                        tcs == tool_calls.deep_view(),
                        av == args_view(args@),
                        tool_call_messages.deep_view() =~= spec_tool_call_messages(
                            tcs,
                            av,
                            root_task_id@,
                            tool_message_ids.deep_view(),
                            k as nat,
                        ),
                    decreases tool_calls@.len() - k,
                {
                    let id = id_at_exec(&tool_message_ids, k);
                    let a: Option<&JsonValue> = if k < args.len() {
                        match &args[k] {
                            Some(j) => Some(j),
                            None => None,
                        }
                    } else {
                        None
                    };
                    assert(opt_json_view(a) == args_at(av, k as int));
                    assert(tcs[k as int] == tool_calls@[k as int].deep_view());
                    let ghost before = tool_call_messages.deep_view();
                    match tool_call_message(&tool_calls[k], a, root_task_id.as_str(), id) {
                        Some(m) => {
                            let ghost mv = m.deep_view();
                            tool_call_messages.push(m);
                            assert(tool_call_messages.deep_view() =~= before.push(mv));
                        },
                        None => {},
                    }
                    k = k + 1;
                }
                assert(cv[0].tool_calls == Some(tcs));
                let ghost msgs = tool_call_messages.deep_view();
                assert(msgs == spec_tool_call_messages(
                    tcs,
                    av,
                    sv.root_task_id,
                    iv.tool_message_ids,
                    tcs.len(),
                ));
                if tool_call_messages.len() > 0 {
                    let ev = one_action(
                        ClientAction::AddMessagesToTask {
                            task_id: root_task_id.clone(),
                            messages: tool_call_messages,
                        },
                    );
                    let ghost evv = ev.deep_view();
                    events.push(ev);
                    assert(events.deep_view() =~= e4.push(evv));
                } else {
                    assert(msgs.len() == 0);
                }
            },
            None => {
                // A text response: emit an agent-output message.
                let text = match msg.content {
                    Some(t) => t,
                    None => String::new(),
                };
                let mut messages: Vec<Message> = Vec::new();
                let m = Message {
                    id: message_id,
                    task_id: root_task_id.clone(),
                    message: Some(MessageBody::AgentOutput(AgentOutput { text })),
                };
                let ghost mv = m.deep_view();
                messages.push(m);
                assert(messages.deep_view() =~= seq![mv]);
                let ev = one_action(
                    ClientAction::AddMessagesToTask { task_id: root_task_id.clone(), messages },
                );
                let ghost evv = ev.deep_view();
                events.push(ev);
                assert(events.deep_view() =~= e4.push(evv));
            },
        }
    }
    let ghost e5 = events.deep_view();
    assert(e5 =~= e4 + spec_choice_events(cv, av, sv.root_task_id, iv));

    // 6. Commit transaction
    events.push(one_action(ClientAction::CommitTransaction));

    // 7. Finished
    events.push(ResponseEvent::Finished { reason: Some(FinishReason::Done) });
    events
}

/// Whether the ids are fresh random ids.
pub open spec fn fresh_ids(ids: SpecResponseIds) -> bool {
    &&& is_uuid_v4_text(ids.request_id)
    &&& is_uuid_v4_text(ids.run_id)
    &&& is_uuid_v4_text(ids.message_id)
    &&& forall|k: int|
        0 <= k < ids.tool_message_ids.len() ==> is_uuid_v4_text(#[trigger] ids.tool_message_ids[k])
    &&& texts_distinct(all_ids(ids))
}

/// All the ids of a turn: the request's, the run's, the agent output's and
/// the tool-call messages'.
pub open spec fn all_ids(ids: SpecResponseIds) -> Seq<Seq<char>> {
    seq![ids.request_id, ids.run_id, ids.message_id] + ids.tool_message_ids
}

/// Fresh ids for a turn with `n` tool calls: random version 4 UUIDs, all
/// different; should two random draws coincide, ids derived from their
/// position are used instead.
fn fresh_response_ids(n: usize) -> (r: ResponseIds)
    ensures
        fresh_ids(r.deep_view()),
        r.tool_message_ids@.len() == n,
{
    let request_id = new_uuid_text();
    let run_id = new_uuid_text();
    let message_id = new_uuid_text();
    let mut tool_message_ids: Vec<String> = Vec::new();
    let mut k: usize = 0;
    while k < n
        invariant
            k <= n,
            tool_message_ids@.len() == k,
            forall|q: int| 0 <= q < k ==> is_uuid_v4_text(#[trigger] tool_message_ids@[q]@),
        decreases n - k,
    {
        tool_message_ids.push(new_uuid_text());
        k = k + 1;
    }
    let mut all: Vec<String> = Vec::new();
    all.push(request_id.clone());
    all.push(run_id.clone());
    all.push(message_id.clone());
    let mut q: usize = 0;
    while q < tool_message_ids.len()
        invariant
            q <= tool_message_ids@.len(),
            all@.len() == 3 + q,
            all.deep_view() =~= seq![request_id@, run_id@, message_id@] + tool_message_ids.deep_view().take(q as int),
        decreases tool_message_ids@.len() - q,
    {
        let t = tool_message_ids[q].clone();
        let ghost before = all.deep_view();
        all.push(t);
        assert(all.deep_view() =~= before.push(tool_message_ids@[q as int]@));
        assert(tool_message_ids.deep_view()[q as int] == tool_message_ids@[q as int]@);
        assert(all.deep_view() =~= seq![request_id@, run_id@, message_id@]
            + tool_message_ids.deep_view().take(q + 1));
        q = q + 1;
    }
    assert(tool_message_ids.deep_view().take(tool_message_ids@.len() as int) =~= tool_message_ids.deep_view());
    if texts_all_distinct(&all) {
        let ids = ResponseIds { request_id, run_id, message_id, tool_message_ids };
        assert(all_ids(ids.deep_view()) =~= all.deep_view());
        assert forall|q: int| 0 <= q < ids.deep_view().tool_message_ids.len() implies is_uuid_v4_text(
            #[trigger] ids.deep_view().tool_message_ids[q],
        ) by {
            assert(ids.deep_view().tool_message_ids[q] == ids.tool_message_ids@[q]@);
        }
        return ids;
    }
    let mut stand_ins: Vec<String> = Vec::new();
    let mut k: usize = 0;
    while k < n
        invariant
            k <= n,
            stand_ins@.len() == k,
            forall|q: int| 0 <= q < k ==> (#[trigger] stand_ins@[q])@ == stand_in_id(3, q as u64),
        decreases n - k,
    {
        stand_ins.push(stand_in_id_text(3, k as u64));
        k = k + 1;
    }
    let ids = ResponseIds {
        request_id: stand_in_id_text(0, 0),
        run_id: stand_in_id_text(1, 0),
        message_id: stand_in_id_text(2, 0),
        tool_message_ids: stand_ins,
    };
    let ghost iv = ids.deep_view();
    let ghost all_v = all_ids(iv);
    proof {
        let kind = |i: int| if i < 3 { i as u64 } else { 3u64 };
        let key = |i: int| if i < 3 { 0u64 } else { (i - 3) as u64 };
        assert forall|i: int| 0 <= i < all_v.len() implies all_v[i] == stand_in_id(
            #[trigger] kind(i),
            key(i),
        ) by {
            if i >= 3 {
                assert(all_v[i] == iv.tool_message_ids[i - 3]);
                assert(iv.tool_message_ids[i - 3] == ids.tool_message_ids@[i - 3]@);
            }
        }
        assert forall|i: int, j: int| 0 <= i < j < all_v.len() implies all_v[i] != all_v[j] by {
            lemma_stand_in_ids(kind(i), key(i), kind(j), key(j));
        }
        assert forall|q: int| 0 <= q < iv.tool_message_ids.len() implies is_uuid_v4_text(
            #[trigger] iv.tool_message_ids[q],
        ) by {
            assert(iv.tool_message_ids[q] == ids.tool_message_ids@[q]@);
            lemma_stand_in_ids(3, q as u64, 3, q as u64);
        }
        lemma_stand_in_ids(0, 0, 0, 0);
        lemma_stand_in_ids(1, 0, 1, 0);
        lemma_stand_in_ids(2, 0, 2, 0);
    }
    ids
}

/// The arguments of the first choice's tool calls, each read as JSON, in order.
pub open spec fn spec_choice_arguments(choices: Seq<SpecCompletionMessage>) -> Seq<Option<SpecJson>> {
    if choices.len() > 0 {
        match choices[0].tool_calls {
            Some(tcs) => tcs.map_values(
                |tc: SpecAssistantToolCall| spec_parse_json_text(tc.arguments),
            ),
            None => Seq::empty(),
        }
    } else {
        Seq::empty()
    }
}

fn choice_arguments(completion: &ChatCompletion) -> (r: Vec<Option<JsonValue>>)
    ensures
        args_view(r@) == spec_choice_arguments(completion.deep_view()),
{
    let mut r: Vec<Option<JsonValue>> = Vec::new();
    if completion.choices.len() == 0 {
        assert(args_view(r@) =~= Seq::<Option<SpecJson>>::empty());
        return r;
    }
    assert(completion.deep_view()[0] == completion.choices@[0].deep_view());
    match &completion.choices[0].message.tool_calls {
        Some(tcs) => {
            let ghost target = spec_choice_arguments(completion.deep_view());
            assert(target.len() == tcs@.len());
            let mut i: usize = 0;
            while i < tcs.len()
                invariant
                    i <= tcs@.len(),
                    target.len() == tcs@.len(),
                    forall|k: int|
                        0 <= k < tcs@.len() ==> target[k] == spec_parse_json_text(
                            (#[trigger] tcs@[k]).function.arguments@,
                        ),
                    r@.len() == i,
                    args_view(r@) =~= target.take(i as int),
                decreases tcs@.len() - i,
            {
                let a = parse_json_text(tcs[i].function.arguments.as_str());
                assert(match a {
                    Some(j) => Some(json_view(&j)),
                    None => None,
                } == target[i as int]);
                let ghost ga = a;
                r.push(a);
                assert(r@[i as int] == ga);
                assert(args_view(r@) =~= target.take(i + 1));
                i = i + 1;
            }
            assert(target.take(tcs@.len() as int) =~= target);
            r
        },
        None => {
            assert(args_view(r@) =~= Seq::<Option<SpecJson>>::empty());
            r
        },
    }
}

/// The response events of a turn, with fresh random ids for the request,
/// the run and the new messages.
pub fn finish_turn(state: TurnState, completion: ChatCompletion) -> (r: Vec<ResponseEvent>)
    ensures
        exists|ids: SpecResponseIds|
            fresh_ids(ids) && r.deep_view() == spec_turn_events(
                state.deep_view(),
                completion.deep_view(),
                spec_choice_arguments(completion.deep_view()),
                ids,
            ),
{
    let args = choice_arguments(&completion);
    let n: usize = if completion.choices.len() > 0 {
        match &completion.choices[0].message.tool_calls {
            Some(tcs) => tcs.len(),
            None => 0,
        }
    } else {
        0
    };
    let ids = fresh_response_ids(n);
    assemble_response_events(state, completion, &args, ids)
}

} // verus!
