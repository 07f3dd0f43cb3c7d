//! What a turn does with the model's tool calls and with the client's tool
//! results, and how tool results are shown to the model.

use vstd::prelude::*;

use crate::json::spec_parse_json_text;
use crate::laws::lemma_filter_map_keeps;
use crate::openai::{SpecAssistantToolCall, SpecChatMessage, SpecCompletionMessage};
use crate::proto::{
    SpecApplyFileDiffsOutcome, SpecFileGlobV2Outcome, SpecGrepOutcome, SpecRunShellCommandResult,
    SpecShellOutcome, SpecClientAction, SpecMessage, SpecMessageBody, SpecReadFilesOutcome, SpecRequest,
    SpecResponseEvent, SpecSearchCodebaseOutcome, SpecToolCall, SpecToolCallResult, SpecToolResult,
    SpecUserInput,
};
use crate::proxy::{
    all_ids, args_at, fresh_ids, spec_chat_request, id_at, spec_choice_arguments, spec_echo_message, spec_tool_call_messages,
    spec_turn_events, SpecResponseIds, SpecTurnState,
};
use crate::text::{spec_decimal, spec_digits, spec_join};
use crate::translate::{
    spec_format_apply_diffs_result, spec_format_file_glob_v2_result, spec_format_grep_result,
    spec_format_read_files_result, spec_format_search_codebase_result, spec_format_shell_result, spec_input_message,
    spec_openai_messages, spec_tool_call_message, spec_tool_from_args, spec_tool_result_content,
    spec_warp_message_to_openai,
};

verus! {

// ── The model's tool calls ──────────────────────────────────────────────────

proof fn lemma_tool_call_messages_keep(
    tcs: Seq<SpecAssistantToolCall>,
    args: Seq<Option<crate::json::SpecJson>>,
    task_id: Seq<char>,
    ids: Seq<Seq<char>>,
    n: nat,
    k: int,
)
    requires
        0 <= k < n,
        spec_tool_call_message(tcs[k], args_at(args, k), task_id, id_at(ids, k)) is Some,
    ensures
        spec_tool_call_messages(tcs, args, task_id, ids, n).contains(
            spec_tool_call_message(tcs[k], args_at(args, k), task_id, id_at(ids, k))->Some_0,
        ),
    decreases n,
{
    let m = spec_tool_call_message(tcs[k], args_at(args, k), task_id, id_at(ids, k))->Some_0;
    let prev = spec_tool_call_messages(tcs, args, task_id, ids, (n - 1) as nat);
    let cur = spec_tool_call_messages(tcs, args, task_id, ids, n);
    let last = crate::translate::option_to_seq(
        spec_tool_call_message(tcs[n - 1], args_at(args, n - 1), task_id, id_at(ids, n - 1)),
    );
    assert(cur == prev + last);
    if k == n - 1 {
        assert(cur[prev.len() as int] == m);
    } else {
        lemma_tool_call_messages_keep(tcs, args, task_id, ids, (n - 1) as nat, k);
        let i = choose|i: int| 0 <= i < prev.len() && prev[i] == m;
        assert(cur[i] == m);
    }
}

/// Every tool call of the model's first choice whose own arguments text is
/// JSON and names a known tool reaches the root task: right after the turn's
/// transaction opens, the turn adds to the root task a list of messages
/// holding that call as a tool-call message (under the call's id, with the
/// tool its arguments describe).
pub proof fn law_readable_tool_calls_reach_the_task(
    state: SpecTurnState,
    choices: Seq<SpecCompletionMessage>,
    ids: SpecResponseIds,
    k: int,
)
    requires
        choices.len() > 0,
        choices[0].tool_calls is Some,
        0 <= k < choices[0].tool_calls->Some_0.len(),
        spec_parse_json_text(choices[0].tool_calls->Some_0[k].arguments) is Some,
        spec_tool_from_args(
            choices[0].tool_calls->Some_0[k].name,
            spec_parse_json_text(choices[0].tool_calls->Some_0[k].arguments)->Some_0,
        ) is Some,
    ensures
        ({
            let tc = choices[0].tool_calls->Some_0[k];
            let tool = spec_tool_from_args(tc.name, spec_parse_json_text(tc.arguments)->Some_0);
            let ev = spec_turn_events(state, choices, spec_choice_arguments(choices), ids);
            let b = (if state.needs_create_task { 1int } else { 0int }) + (if state.input_tool_results.len()
                > 0 { 1int } else { 0int }) + 1;
            &&& b + 1 < ev.len()
            &&& ev[b + 1] matches SpecResponseEvent::ClientActions { actions }
            &&& actions.len() == 1
            &&& actions[0] matches SpecClientAction::AddMessagesToTask { task_id, messages }
            &&& task_id == state.root_task_id
            &&& messages.contains(
                SpecMessage {
                    id: id_at(ids.tool_message_ids, k),
                    task_id: state.root_task_id,
                    message: Some(
                        SpecMessageBody::ToolCall(SpecToolCall { tool_call_id: tc.id, tool: tool }),
                    ),
                },
            )
        }),
{
    let tcs = choices[0].tool_calls->Some_0;
    let args = spec_choice_arguments(choices);
    assert(args_at(args, k) == spec_parse_json_text(tcs[k].arguments));
    lemma_tool_call_messages_keep(
        tcs,
        args,
        state.root_task_id,
        ids.tool_message_ids,
        tcs.len(),
        k,
    );
}

/// The ids a turn gives out are all different: no two tool-call messages
/// share an id, and none shares the agent output's, the request's or the
/// run's.
pub proof fn law_turn_ids_distinct(ids: SpecResponseIds, k1: int, k2: int)
    requires
        fresh_ids(ids),
        0 <= k1 < k2 < ids.tool_message_ids.len(),
    ensures
        id_at(ids.tool_message_ids, k1) != id_at(ids.tool_message_ids, k2),
        id_at(ids.tool_message_ids, k1) != ids.message_id,
        id_at(ids.tool_message_ids, k1) != ids.request_id,
        id_at(ids.tool_message_ids, k1) != ids.run_id,
        ids.message_id != ids.request_id,
        ids.message_id != ids.run_id,
        ids.request_id != ids.run_id,
{
    let a = all_ids(ids);
    assert(a[3 + k1] == ids.tool_message_ids[k1]);
    assert(a[3 + k2] == ids.tool_message_ids[k2]);
    assert(a[0] == ids.request_id && a[1] == ids.run_id && a[2] == ids.message_id);
}

/// The chat request of a turn asks the provider's model for one
/// (non-streamed) completion of the request's conversation, and offers the
/// model a tool that has a chat form exactly when the client supports it.
pub proof fn law_chat_request_carries_the_turn(
    model: Seq<char>,
    req: SpecRequest,
    tt: crate::proto::ToolType,
)
    requires
        tt != crate::proto::ToolType::Unsupported,
    ensures
        spec_chat_request(model, req).model == model,
        spec_chat_request(model, req).messages == spec_openai_messages(req),
        !spec_chat_request(model, req).stream,
        spec_chat_request(model, req).tool_choice is None,
        (spec_chat_request(model, req).tools is Some && spec_chat_request(model, req).tools->Some_0.contains(
            crate::tool_defs::spec_tool_definition(tt),
        )) == (req.supported_tools is Some && req.supported_tools->Some_0.contains(tt)),
{
    let sup = match req.supported_tools {
        Some(t) => t,
        None => Seq::empty(),
    };
    crate::laws::law_offered_iff_supported(sup, tt);
    if req.supported_tools is None {
        assert(!sup.contains(tt));
    }
}

// ── The client's tool results ───────────────────────────────────────────────

/// A tool result of the new turn is shown to the model as the same chat
/// message that replays it from the task history on later turns.
pub proof fn law_new_tool_result_shown_as_replayed(
    t: SpecToolCallResult,
    task_id: Seq<char>,
    id: Seq<char>,
)
    ensures
        spec_input_message(Some(SpecUserInput::ToolCallResult(t))) == spec_warp_message_to_openai(
            spec_echo_message(t, task_id, id),
        ),
{
}

/// Every tool result of the new turn whose tool has a chat form is among
/// the messages sent to the model, as a `tool` message for its call that
/// carries the result's text.
pub proof fn law_new_tool_results_are_shown(
    req: SpecRequest,
    k: int,
    t: SpecToolCallResult,
    r: SpecToolResult,
)
    requires
        req.user_inputs is Some,
        0 <= k < req.user_inputs->Some_0.len(),
        req.user_inputs->Some_0[k] == Some(SpecUserInput::ToolCallResult(t)),
        t.result == Some(r),
        r !is Other,
    ensures
        spec_tool_result_content(r) is Some,
        spec_openai_messages(req).contains(
            SpecChatMessage {
                role: "tool"@,
                content: spec_tool_result_content(r),
                tool_calls: None,
                tool_call_id: Some(t.tool_call_id),
            },
        ),
{
    let ins = req.user_inputs->Some_0;
    let f = |i: Option<SpecUserInput>| spec_input_message(i);
    lemma_filter_map_keeps(ins, f, k);
    let inputs = ins.filter_map(f);
    let m = f(ins[k])->Some_0;
    let i = choose|i: int| 0 <= i < inputs.len() && inputs[i] == m;
    let all = spec_openai_messages(req);
    let head = seq![crate::translate::spec_system_message()] + crate::translate::spec_history_messages(
        req.tasks,
    );
    assert(all == head + inputs);
    assert(all[head.len() + i] == m);
}

/// Message `k` of the root task's history, if there is one.
pub open spec fn history_message_at(req: SpecRequest, k: int) -> Option<SpecMessage> {
    match req.tasks {
        Some(ts) => if ts.len() > 0 && 0 <= k < ts[0].messages.len() {
            Some(ts[0].messages[k])
        } else {
            None
        },
        None => None,
    }
}

/// The conversation so far reaches the model: every message of the root
/// task's history is sent in the chat form it has (a user query as a `user`
/// message with its text, non-empty agent output as an `assistant` message
/// with its text, a tool result as a `tool` message with the result's text),
/// and every user query of the new turn is sent as a `user` message.
pub proof fn law_conversation_reaches_the_model(req: SpecRequest, k: int)
    ensures
        history_message_at(req, k) matches Some(m) ==> (spec_warp_message_to_openai(m) matches Some(
            c,
        ) ==> spec_openai_messages(req).contains(c)),
        history_message_at(req, k) matches Some(m) ==> (m.message matches Some(
            SpecMessageBody::UserQuery(q),
        ) ==> spec_openai_messages(req).contains(
            SpecChatMessage { role: "user"@, content: Some(q), tool_calls: None, tool_call_id: None },
        )),
        history_message_at(req, k) matches Some(m) ==> (m.message matches Some(
            SpecMessageBody::AgentOutput(t),
        ) ==> (t.len() > 0 ==> spec_openai_messages(req).contains(
            SpecChatMessage {
                role: "assistant"@,
                content: Some(t),
                tool_calls: None,
                tool_call_id: None,
            },
        ))),
        history_message_at(req, k) matches Some(m) ==> (m.message matches Some(
            SpecMessageBody::ToolCallResult(r),
        ) ==> (r.result matches Some(res) ==> (res !is Other ==> spec_openai_messages(
            req,
        ).contains(
            SpecChatMessage {
                role: "tool"@,
                content: spec_tool_result_content(res),
                tool_calls: None,
                tool_call_id: Some(r.tool_call_id),
            },
        )))),
        req.user_inputs matches Some(ins) ==> (0 <= k < ins.len() ==> (ins[k] matches Some(
            SpecUserInput::UserQuery(q),
        ) ==> spec_openai_messages(req).contains(
            SpecChatMessage { role: "user"@, content: Some(q), tool_calls: None, tool_call_id: None },
        ))),
{
    let all = spec_openai_messages(req);
    let hist = crate::translate::spec_history_messages(req.tasks);
    let inputs = crate::translate::spec_input_messages(req.user_inputs);
    let sys = seq![crate::translate::spec_system_message()];
    assert(all == sys + hist + inputs);
    if req.tasks is Some {
        let ts = req.tasks->Some_0;
        if ts.len() > 0 && 0 <= k < ts[0].messages.len() {
            let m = ts[0].messages[k];
            if spec_warp_message_to_openai(m) is Some {
                let f = |x: SpecMessage| spec_warp_message_to_openai(x);
                lemma_filter_map_keeps(ts[0].messages, f, k);
                let i = choose|i: int| 0 <= i < hist.len() && hist[i] == f(m)->Some_0;
                assert(all[1 + i] == hist[i]);
            }
        }
    }
    if req.user_inputs is Some {
        let ins = req.user_inputs->Some_0;
        if 0 <= k < ins.len() && ins[k] matches Some(SpecUserInput::UserQuery(q)) {
            let f = |x: Option<SpecUserInput>| spec_input_message(x);
            lemma_filter_map_keeps(ins, f, k);
            let i = choose|i: int| 0 <= i < inputs.len() && inputs[i] == f(ins[k])->Some_0;
            assert(all[1 + hist.len() + i] == inputs[i]);
        }
    }
}

// ── How file contents are shown ─────────────────────────────────────────────

/// Whether `a` occurs in `b` starting at position `off`.
pub open spec fn occurs_at(a: Seq<char>, b: Seq<char>, off: int) -> bool {
    0 <= off && off + a.len() <= b.len() && b.subrange(off, off + a.len()) == a
}

/// Whether `a` occurs in `b` as a contiguous run.
pub open spec fn is_infix(a: Seq<char>, b: Seq<char>) -> bool {
    exists|off: int| #[trigger] occurs_at(a, b, off)
}

/// Each part occurs, whole, in the parts joined by a separator.
pub proof fn lemma_join_keeps_parts(parts: Seq<Seq<char>>, sep: Seq<char>, k: int)
    requires
        0 <= k < parts.len(),
    ensures
        is_infix(parts[k], spec_join(parts, sep)),
    decreases parts.len(),
{
    let j = spec_join(parts, sep);
    if parts.len() == 1 {
        assert(j.subrange(0, parts[0].len() as int) =~= parts[0]);
        assert(occurs_at(parts[k], j, 0));
    } else {
        let front = spec_join(parts.drop_last(), sep);
        assert(j == front + sep + parts.last());
        if k == parts.len() - 1 {
            let off: int = (front.len() + sep.len()) as int;
            assert(j.subrange(off, off + parts[k].len()) =~= parts[k]);
            assert(occurs_at(parts[k], j, off));
        } else {
            lemma_join_keeps_parts(parts.drop_last(), sep, k);
            assert(parts.drop_last()[k] == parts[k]);
            let off = choose|off: int| #[trigger] occurs_at(parts[k], front, off);
            assert(j.subrange(off, off + parts[k].len()) =~= front.subrange(
                off,
                off + parts[k].len(),
            ));
            assert(occurs_at(parts[k], j, off));
        }
    }
}

/// A successful codebase search is shown as read files are: every file's
/// block `=== path ===` followed by its content occurs in the text, and the
/// text is the one a read of the same files would show.
pub proof fn law_search_results_show_every_file(files: Seq<(Seq<char>, Seq<char>)>, k: int)
    requires
        0 <= k < files.len(),
    ensures
        is_infix(
            "=== "@ + files[k].0 + " ===\n"@ + files[k].1,
            spec_format_search_codebase_result(Some(SpecSearchCodebaseOutcome::Success { files })),
        ),
        is_infix(
            "=== "@ + files[k].0 + " ===\n"@ + files[k].1,
            spec_format_read_files_result(
                Some(SpecReadFilesOutcome::TextFilesSuccess { files }),
            ),
        ),
        spec_format_search_codebase_result(Some(SpecSearchCodebaseOutcome::Success { files }))
            == spec_format_read_files_result(
            Some(SpecReadFilesOutcome::TextFilesSuccess { files }),
        ),
{
    let parts = files.map_values(|f: (Seq<char>, Seq<char>)| crate::translate::spec_file_block(f));
    lemma_join_keeps_parts(parts, "\n\n"@, k);
}

proof fn lemma_infix_self(a: Seq<char>)
    ensures
        is_infix(a, a),
{
    assert(a.subrange(0, a.len() as int) =~= a);
    assert(occurs_at(a, a, 0));
}

/// What occurs in `b` occurs in `b` with text added on either side.
proof fn lemma_infix_extend(a: Seq<char>, b: Seq<char>, c: Seq<char>)
    requires
        is_infix(a, b),
    ensures
        is_infix(a, b + c),
        is_infix(a, c + b),
{
    let off = choose|off: int| #[trigger] occurs_at(a, b, off);
    assert((b + c).subrange(off, off + a.len()) =~= b.subrange(off, off + a.len()));
    assert(occurs_at(a, b + c, off));
    let off2: int = off + c.len();
    assert((c + b).subrange(off2, off2 + a.len()) =~= b.subrange(off, off + a.len()));
    assert(occurs_at(a, c + b, off2));
}

proof fn lemma_infix_trans(a: Seq<char>, b: Seq<char>, c: Seq<char>)
    requires
        is_infix(a, b),
        is_infix(b, c),
    ensures
        is_infix(a, c),
{
    let o1 = choose|off: int| #[trigger] occurs_at(a, b, off);
    let o2 = choose|off: int| #[trigger] occurs_at(b, c, off);
    assert(c.subrange(o2 + o1, o2 + o1 + a.len()) =~= b.subrange(o1, o1 + a.len()));
    assert(occurs_at(a, c, o2 + o1));
}

/// A shell result shows the command, and the output and exit code it has.
pub proof fn law_shell_result_shows_command_and_output(r: SpecRunShellCommandResult)
    ensures
        is_infix(r.command, spec_format_shell_result(r)),
        r.result matches Some(SpecShellOutcome::CommandFinished { exit_code, output }) ==> is_infix(
            output,
            spec_format_shell_result(r),
        ) && is_infix(spec_decimal(exit_code as int), spec_format_shell_result(r)),
        r.result matches Some(SpecShellOutcome::LongRunningCommandSnapshot { output }) ==> is_infix(
            output,
            spec_format_shell_result(r),
        ),
{
    let c = r.command;
    lemma_infix_self(c);
    lemma_infix_extend(c, c, "Command: "@);
    match r.result {
        Some(SpecShellOutcome::CommandFinished { exit_code, output }) => {
            let d = spec_decimal(exit_code as int);
            let t1 = "Command: "@ + c + "\nExit code: "@;
            lemma_infix_extend(c, "Command: "@ + c, "\nExit code: "@);
            lemma_infix_extend(c, t1, d);
            lemma_infix_extend(c, t1 + d, "\n"@);
            lemma_infix_extend(c, t1 + d + "\n"@, output);
            lemma_infix_self(d);
            lemma_infix_extend(d, d, t1);
            lemma_infix_extend(d, t1 + d, "\n"@);
            lemma_infix_extend(d, t1 + d + "\n"@, output);
            lemma_infix_self(output);
            lemma_infix_extend(output, output, t1 + d + "\n"@);
        },
        Some(SpecShellOutcome::LongRunningCommandSnapshot { output }) => {
            let t1 = "Command: "@ + c + " (still running)\n"@;
            lemma_infix_extend(c, "Command: "@ + c, " (still running)\n"@);
            lemma_infix_extend(c, t1, output);
            lemma_infix_self(output);
            lemma_infix_extend(output, output, t1);
        },
        Some(SpecShellOutcome::PermissionDenied) => {
            lemma_infix_extend(c, c, "Command denied: "@);
        },
        None => {
            lemma_infix_extend(c, "Command: "@ + c, " (no result)"@);
        },
    }
}

/// A grep result shows, for every matched file, its path followed by
/// `: lines ` and each of its matched line numbers.
pub proof fn law_grep_result_shows_every_match(
    matched: Seq<(Seq<char>, Seq<u32>)>,
    k: int,
    l: int,
)
    requires
        0 <= k < matched.len(),
    ensures
        is_infix(
            matched[k].0 + ": lines "@,
            spec_format_grep_result(Some(SpecGrepOutcome::Success { matched_files: matched })),
        ),
        0 <= l < matched[k].1.len() ==> is_infix(
            spec_digits(matched[k].1[l] as nat),
            spec_format_grep_result(Some(SpecGrepOutcome::Success { matched_files: matched })),
        ),
{
    let text = spec_format_grep_result(Some(SpecGrepOutcome::Success { matched_files: matched }));
    let lines = matched.map_values(|m: (Seq<char>, Seq<u32>)| crate::translate::spec_grep_line(m));
    lemma_join_keeps_parts(lines, "\n"@, k);
    let line = lines[k];
    let head = matched[k].0 + ": lines "@;
    let nums = matched[k].1.map_values(|n: u32| spec_digits(n as nat));
    let tail = spec_join(nums, ", "@);
    assert(line == head + tail);
    lemma_infix_self(head);
    lemma_infix_extend(head, head, tail);
    lemma_infix_trans(head, line, text);
    if 0 <= l < matched[k].1.len() {
        lemma_join_keeps_parts(nums, ", "@, l);
        lemma_infix_extend(nums[l], tail, head);
        lemma_infix_trans(nums[l], line, text);
    }
}

/// A file-glob result shows every matched file.
pub proof fn law_glob_result_shows_every_file(files: Seq<Seq<char>>, k: int)
    requires
        0 <= k < files.len(),
    ensures
        is_infix(
            files[k],
            spec_format_file_glob_v2_result(
                Some(SpecFileGlobV2Outcome::Success { matched_files: files }),
            ),
        ),
{
    lemma_join_keeps_parts(files, "\n"@, k);
}

/// An apply-diffs success shows every updated file that has a path.
pub proof fn law_apply_result_shows_every_updated_file(
    updated: Seq<Option<Seq<char>>>,
    k: int,
    path: Seq<char>,
)
    requires
        0 <= k < updated.len(),
        updated[k] == Some(path),
    ensures
        is_infix(
            path,
            spec_format_apply_diffs_result(
                Some(SpecApplyFileDiffsOutcome::Success { updated_files: updated }),
            ),
        ),
{
    let f = |u: Option<Seq<char>>| u;
    crate::laws::lemma_filter_map_keeps(updated, f, k);
    let kept = updated.filter_map(f);
    let i = choose|i: int| 0 <= i < kept.len() && kept[i] == path;
    lemma_join_keeps_parts(kept, ", "@, i);
    lemma_infix_extend(path, spec_join(kept, ", "@), "Successfully updated: "@);
}

/// Every error result shows its message.
pub proof fn law_error_results_show_message(message: Seq<char>)
    ensures
        is_infix(
            message,
            spec_format_read_files_result(Some(SpecReadFilesOutcome::Error { message })),
        ),
        is_infix(
            message,
            spec_format_apply_diffs_result(Some(SpecApplyFileDiffsOutcome::Error { message })),
        ),
        is_infix(message, spec_format_grep_result(Some(SpecGrepOutcome::Error { message }))),
        is_infix(
            message,
            spec_format_file_glob_v2_result(Some(SpecFileGlobV2Outcome::Error { message })),
        ),
        is_infix(
            message,
            spec_format_search_codebase_result(Some(SpecSearchCodebaseOutcome::Error { message })),
        ),
{
    lemma_infix_self(message);
    lemma_infix_extend(message, message, "Error reading files: "@);
    lemma_infix_extend(message, message, "Error applying diffs: "@);
    lemma_infix_extend(message, message, "Grep error: "@);
    lemma_infix_extend(message, message, "Glob error: "@);
    lemma_infix_extend(message, message, "Search error: "@);
}

} // verus!
