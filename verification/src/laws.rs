//! Properties that relate several operations of the library.

use vstd::prelude::*;

use crate::ids::is_uuid_v4_text;
use crate::json::{spec_lookup, spec_str_items, spec_str_of, SpecJson};
use crate::openai::SpecCompletionMessage;
use crate::proto::{
    FinishReason, SpecClientAction, SpecFileDiff, SpecFileToRead, SpecMessage, SpecNewFile,
    SpecResponseEvent, SpecTool, SpecToolCallResult, ToolType,
};
use crate::providers::{
    first_index_of, last_index_of, lemma_first_index_of, lemma_first_index_of_bounds,
    lemma_last_index_of_bounds, model_ids, provider_ids, refreshed_models, spec_endpoint_url,
    spec_known_config_key, spec_remove, spec_upsert, SpecDirectProvider, SpecDirectProviderModel,
};
use crate::proxy::{
    action_event, echoes, spec_echo_message, spec_root_task, spec_turn_events, SpecResponseIds,
    SpecTurnState,
};
use crate::text::spec_trim_end_char;
use crate::tool_defs::{spec_defined_tool_types, spec_tool_definition, spec_tool_definitions_for};
use crate::translate::{
    js, js_strings, spec_deleted_file_from_json, spec_diff_from_json, spec_file_to_read_from_json,
    spec_new_file_from_json, spec_tool_from_args, spec_tool_name_args, spec_tool_result_message,
    spec_warp_message_to_openai,
};

verus! {

/// Looking up a key finds the first member with that key.
pub proof fn lemma_lookup_first(members: Seq<(Seq<char>, SpecJson)>, key: Seq<char>, i: int)
    requires
        0 <= i < members.len(),
        members[i].0 == key,
        forall|j: int| 0 <= j < i ==> members[j].0 != key,
    ensures
        spec_lookup(members, key) == Some(members[i].1),
    decreases i,
{
    if i > 0 {
        lemma_lookup_first(members.drop_first(), key, i - 1);
    }
}

/// Looking up a key no member has finds nothing.
pub proof fn lemma_lookup_absent(members: Seq<(Seq<char>, SpecJson)>, key: Seq<char>)
    requires
        forall|j: int| 0 <= j < members.len() ==> members[j].0 != key,
    ensures
        spec_lookup(members, key) is None,
    decreases members.len(),
{
    if members.len() > 0 {
        lemma_lookup_absent(members.drop_first(), key);
    }
}

/// Mapping a sequence and then keeping what an inverse gives back returns
/// the sequence.
pub proof fn lemma_filter_map_inverts_map<A, B>(
    s: Seq<A>,
    g: spec_fn(A) -> B,
    h: spec_fn(B) -> Option<A>,
)
    requires
        forall|i: int| 0 <= i < s.len() ==> h(g(s[i])) == Some(s[i]),
    ensures
        s.map_values(g).filter_map(h) == s,
    decreases s.len(),
{
    if s.len() > 0 {
        lemma_filter_map_inverts_map(s.drop_last(), g, h);
        assert(s.map_values(g).drop_last() =~= s.drop_last().map_values(g));
        assert(s =~= s.drop_last().push(s.last()));
    } else {
        assert(s.map_values(g) =~= Seq::<B>::empty());
    }
}

/// Whether the chat form of a tool carries all of it: line ranges of files
/// to read, deleted files, a minimum glob depth and a codebase path have no
/// chat counterpart.
pub open spec fn tool_carried_whole(t: SpecTool) -> bool {
    match t {
        SpecTool::ReadFiles(rf) => forall|i: int|
            0 <= i < rf.files.len() ==> (#[trigger] rf.files[i]).line_ranges.len() == 0,
        SpecTool::ApplyFileDiffs(ad) => ad.deleted_files.len() == 0,
        SpecTool::FileGlobV2(fg) => fg.min_depth == 0,
        SpecTool::SearchCodebase(sc) => sc.codebase_path.len() == 0,
        SpecTool::Other => false,
        _ => true,
    }
}

/// Sending a tool call to the model and reading the model's tool call back
/// gives the same tool: the function name and JSON arguments a protocol tool
/// is sent as translate back to that tool, whenever the chat form carries
/// all of it.
pub proof fn law_tool_round_trip(t: SpecTool)
    requires
        tool_carried_whole(t),
    ensures
        spec_tool_name_args(t) matches Some((name, args)) && spec_tool_from_args(name, args)
            == Some(t),
{
    reveal_strlit("run_shell_command");
    reveal_strlit("read_files");
    reveal_strlit("apply_file_diffs");
    reveal_strlit("grep");
    reveal_strlit("file_glob_v2");
    reveal_strlit("search_codebase");
    reveal_strlit("command");
    reveal_strlit("is_read_only");
    reveal_strlit("uses_pager");
    reveal_strlit("files");
    reveal_strlit("name");
    reveal_strlit("diffs");
    reveal_strlit("new_files");
    reveal_strlit("deleted_files");
    reveal_strlit("summary");
    reveal_strlit("file_path");
    reveal_strlit("replace");
    reveal_strlit("search");
    reveal_strlit("content");
    reveal_strlit("path");
    reveal_strlit("queries");
    reveal_strlit("max_depth");
    reveal_strlit("max_matches");
    reveal_strlit("patterns");
    reveal_strlit("search_dir");
    reveal_strlit("path_filters");
    reveal_strlit("query");
    reveal_strlit("codebase_path");
    assert("run_shell_command"@.len() == 17 && "read_files"@.len() == 10
        && "apply_file_diffs"@.len() == 16 && "grep"@.len() == 4 && "file_glob_v2"@.len() == 12
        && "search_codebase"@.len() == 15);
    assert("content"@.len() == 7 && "file_path"@.len() == 9);
    assert("path"@.len() == 4 && "queries"@.len() == 7);
    assert("max_depth"@.len() == 9 && "max_matches"@.len() == 11 && "patterns"@.len() == 8
        && "search_dir"@.len() == 10);
    assert("path_filters"@.len() == 12 && "query"@.len() == 5 && "codebase_path"@.len() == 13);
    match t {
        SpecTool::RunShellCommand(r) => {
            let m = spec_tool_name_args(t)->Some_0.1->Object_0;
            assert("command"@.len() == 7 && "is_read_only"@.len() == 12);
            lemma_lookup_first(m, "command"@, 0);
            lemma_lookup_first(m, "is_read_only"@, 1);
            lemma_lookup_first(m, "uses_pager"@, 2);
        },
        SpecTool::ReadFiles(rf) => {
            let m = spec_tool_name_args(t)->Some_0.1->Object_0;
            lemma_lookup_first(m, "files"@, 0);
            let g = |f: SpecFileToRead| SpecJson::Object(seq![("name"@, js(f.name))]);
            let h = |f: SpecJson| spec_file_to_read_from_json(f);
            assert forall|i: int| 0 <= i < rf.files.len() implies h(g(rf.files[i])) == Some(
                rf.files[i],
            ) by {
                lemma_lookup_first(seq![("name"@, js(rf.files[i].name))], "name"@, 0);
                assert(rf.files[i].line_ranges =~= Seq::empty());
            }
            lemma_filter_map_inverts_map(rf.files, g, h);
        },
        SpecTool::ApplyFileDiffs(ad) => {
            let m = spec_tool_name_args(t)->Some_0.1->Object_0;
            assert("diffs"@.len() == 5 && "new_files"@.len() == 9 && "summary"@.len() == 7);
            lemma_lookup_first(m, "diffs"@, 0);
            lemma_lookup_first(m, "new_files"@, 1);
            lemma_lookup_first(m, "summary"@, 2);
            lemma_lookup_absent(m, "deleted_files"@);
            let gd = |d: SpecFileDiff|
                SpecJson::Object(
                    seq![
                        ("file_path"@, js(d.file_path)),
                        ("replace"@, js(d.replace)),
                        ("search"@, js(d.search)),
                    ],
                );
            let hd = |d: SpecJson| spec_diff_from_json(d);
            assert forall|i: int| 0 <= i < ad.diffs.len() implies hd(gd(ad.diffs[i])) == Some(
                ad.diffs[i],
            ) by {
                let dm = gd(ad.diffs[i])->Object_0;
                assert("file_path"@.len() == 9 && "replace"@.len() == 7 && "search"@.len() == 6);
                lemma_lookup_first(dm, "file_path"@, 0);
                lemma_lookup_first(dm, "replace"@, 1);
                lemma_lookup_first(dm, "search"@, 2);
            }
            lemma_filter_map_inverts_map(ad.diffs, gd, hd);
            let gn = |f: SpecNewFile|
                SpecJson::Object(seq![("content"@, js(f.content)), ("file_path"@, js(f.file_path))]);
            let hn = |f: SpecJson| spec_new_file_from_json(f);
            assert forall|i: int| 0 <= i < ad.new_files.len() implies hn(gn(ad.new_files[i]))
                == Some(ad.new_files[i]) by {
                let nm = gn(ad.new_files[i])->Object_0;
                lemma_lookup_first(nm, "content"@, 0);
                lemma_lookup_first(nm, "file_path"@, 1);
            }
            lemma_filter_map_inverts_map(ad.new_files, gn, hn);
            assert(ad.deleted_files =~= Seq::empty());
            assert(Seq::<SpecJson>::empty().filter_map(|f: SpecJson| spec_deleted_file_from_json(f))
                =~= Seq::empty());
        },
        SpecTool::Grep(g) => {
            let m = spec_tool_name_args(t)->Some_0.1->Object_0;
            lemma_lookup_first(m, "path"@, 0);
            lemma_lookup_first(m, "queries"@, 1);
            lemma_strings_round_trip(g.queries);
        },
        SpecTool::FileGlobV2(fg) => {
            let m = spec_tool_name_args(t)->Some_0.1->Object_0;
            lemma_lookup_first(m, "max_depth"@, 0);
            lemma_lookup_first(m, "max_matches"@, 1);
            lemma_lookup_first(m, "patterns"@, 2);
            lemma_lookup_first(m, "search_dir"@, 3);
            lemma_strings_round_trip(fg.patterns);
        },
        SpecTool::SearchCodebase(sc) => {
            let m = spec_tool_name_args(t)->Some_0.1->Object_0;
            lemma_lookup_first(m, "path_filters"@, 0);
            lemma_lookup_first(m, "query"@, 1);
            lemma_lookup_absent(m, "codebase_path"@);
            lemma_strings_round_trip(sc.path_filters);
            assert(sc.codebase_path =~= Seq::empty());
        },
        SpecTool::Other => {},
    }
}

/// A list of strings sent as a JSON array reads back as the same list.
pub proof fn lemma_strings_round_trip(items: Seq<Seq<char>>)
    ensures
        spec_str_items(js_strings(items)->Array_0) == items,
{
    let g = |s: Seq<char>| SpecJson::Str(s);
    let h = |j: SpecJson| spec_str_of(j);
    lemma_filter_map_inverts_map(items, g, h);
}

// ── Provider list ───────────────────────────────────────────────────────────

/// Whether no two items of `s` are equal.
pub open spec fn all_distinct(s: Seq<Seq<char>>) -> bool {
    forall|i: int, j: int| 0 <= i < j < s.len() ==> s[i] != s[j]
}

/// After a provider is upserted, looking it up by its id finds it.
pub proof fn law_upsert_then_find(ps: Seq<SpecDirectProvider>, p: SpecDirectProvider)
    ensures
        first_index_of(provider_ids(spec_upsert(ps, p)), p.id) matches Some(i) && spec_upsert(
            ps,
            p,
        )[i] == p,
{
    let ids = provider_ids(ps);
    let r = spec_upsert(ps, p);
    lemma_first_index_of_bounds(ids, p.id);
    match first_index_of(ids, p.id) {
        Some(i) => {
            assert(provider_ids(r) =~= ids.update(i, p.id));
            lemma_first_index_of(provider_ids(r), p.id, i);
        },
        None => {
            assert(provider_ids(r) =~= ids.push(p.id));
            lemma_first_index_of(provider_ids(r), p.id, ps.len() as int);
        },
    }
}

/// Upserting the same provider twice is the same as upserting it once.
pub proof fn law_upsert_idempotent(ps: Seq<SpecDirectProvider>, p: SpecDirectProvider)
    ensures
        spec_upsert(spec_upsert(ps, p), p) == spec_upsert(ps, p),
{
    law_upsert_then_find(ps, p);
    let r = spec_upsert(ps, p);
    lemma_first_index_of_bounds(provider_ids(r), p.id);
    let i = first_index_of(provider_ids(r), p.id)->Some_0;
    assert(0 <= i < r.len());
    assert(r.update(i, p) =~= r);
}

/// Upserting keeps the provider ids distinct, replaces in place when the id
/// is known (same length) and appends otherwise (one more provider).
pub proof fn law_upsert_keeps_ids_distinct(ps: Seq<SpecDirectProvider>, p: SpecDirectProvider)
    requires
        all_distinct(provider_ids(ps)),
    ensures
        all_distinct(provider_ids(spec_upsert(ps, p))),
        provider_ids(ps).contains(p.id) ==> spec_upsert(ps, p).len() == ps.len(),
        !provider_ids(ps).contains(p.id) ==> spec_upsert(ps, p).len() == ps.len() + 1,
{
    let ids = provider_ids(ps);
    let r = spec_upsert(ps, p);
    lemma_first_index_of_bounds(ids, p.id);
    match first_index_of(ids, p.id) {
        Some(i) => {
            assert(provider_ids(r) =~= ids.update(i, p.id));
            assert(provider_ids(r) =~= ids);
        },
        None => {
            assert(provider_ids(r) =~= ids.push(p.id));
            assert(!ids.contains(p.id)) by {
                if ids.contains(p.id) {
                    let k = choose|k: int| 0 <= k < ids.len() && ids[k] == p.id;
                    assert(ids[k] != p.id);
                }
            }
        },
    }
    if ids.contains(p.id) {
        let k = choose|k: int| 0 <= k < ids.len() && ids[k] == p.id;
        assert(ids[k] == p.id);
    }
}

/// Removing by id leaves no provider with that id and keeps the others, in
/// order; removing an id no provider has changes nothing.
pub proof fn law_remove_leaves_no_id(ps: Seq<SpecDirectProvider>, id: Seq<char>)
    ensures
        !provider_ids(spec_remove(ps, id)).contains(id),
        !provider_ids(ps).contains(id) ==> spec_remove(ps, id) == ps,
    decreases ps.len(),
{
    if ps.len() > 0 {
        law_remove_leaves_no_id(ps.drop_last(), id);
        let rest = spec_remove(ps.drop_last(), id);
        assert(provider_ids(ps.drop_last()) =~= provider_ids(ps).drop_last());
        if ps.last().id == id {
            assert(spec_remove(ps, id) == rest);
        } else {
            assert(spec_remove(ps, id) == rest + seq![ps.last()]);
            assert(provider_ids(rest + seq![ps.last()]) =~= provider_ids(rest).push(ps.last().id));
            if !provider_ids(ps).contains(id) {
                assert(!provider_ids(ps.drop_last()).contains(id)) by {
                    if provider_ids(ps.drop_last()).contains(id) {
                        let k = choose|k: int|
                            0 <= k < provider_ids(ps.drop_last()).len() && provider_ids(
                                ps.drop_last(),
                            )[k] == id;
                        assert(provider_ids(ps)[k] == id);
                    }
                }
                assert(ps.drop_last() + seq![ps.last()] =~= ps);
            }
        }
        if !provider_ids(ps).contains(id) {
            assert(provider_ids(ps)[ps.len() - 1] == ps.last().id);
        }
    } else {
        assert(spec_remove(ps, id) =~= ps);
    }
}

/// Adding a provider with a new id and then removing that id gives back
/// the providers as they were.
pub proof fn law_remove_undoes_add(ps: Seq<SpecDirectProvider>, p: SpecDirectProvider)
    requires
        !provider_ids(ps).contains(p.id),
    ensures
        spec_remove(spec_upsert(ps, p), p.id) == ps,
{
    let ids = provider_ids(ps);
    lemma_first_index_of_bounds(ids, p.id);
    if first_index_of(ids, p.id) is Some {
        let i = first_index_of(ids, p.id)->Some_0;
        assert(ids[i] == p.id);
    }
    let r = spec_upsert(ps, p);
    assert(r == ps.push(p));
    assert(r.drop_last() =~= ps);
    law_remove_leaves_no_id(ps, p.id);
}

/// A refresh keeps the config key of every listed model that was already
/// known, when the known models have distinct ids: stored model selections
/// stay valid.
pub proof fn law_refresh_keeps_known_keys(
    old_models: Seq<SpecDirectProviderModel>,
    ids: Seq<Seq<char>>,
    new_models: Seq<SpecDirectProviderModel>,
    j: int,
    k: int,
)
    requires
        refreshed_models(old_models, ids, new_models),
        all_distinct(model_ids(old_models)),
        0 <= j < old_models.len(),
        0 <= k < ids.len(),
        old_models[j].id == ids[k],
    ensures
        new_models[k].id == old_models[j].id,
        new_models[k].config_key == old_models[j].config_key,
{
    let keys = model_ids(old_models);
    lemma_last_index_of_bounds(keys, ids[k]);
    assert(keys[j] == ids[k]);
    assert(new_models[k].id == ids[k]);
    match last_index_of(keys, ids[k]) {
        Some(i) => {
            assert(keys[i] == ids[k]);
            assert(i == j);
            assert(spec_known_config_key(old_models, ids[k]) == Some(old_models[j].config_key));
        },
        None => {
            assert(keys[j] != ids[k]);
        },
    }
}

/// Refreshing a provider's models with the ids it already has changes
/// nothing, when those ids are distinct.
pub proof fn law_refresh_same_ids_unchanged(
    old_models: Seq<SpecDirectProviderModel>,
    new_models: Seq<SpecDirectProviderModel>,
)
    requires
        refreshed_models(old_models, model_ids(old_models), new_models),
        all_distinct(model_ids(old_models)),
    ensures
        new_models == old_models,
{
    assert forall|k: int| 0 <= k < old_models.len() implies new_models[k] == old_models[k] by {
        law_refresh_keeps_known_keys(old_models, model_ids(old_models), new_models, k, k);
    }
    assert(new_models =~= old_models);
}

// ── Endpoint URLs ───────────────────────────────────────────────────────────

/// Trailing slashes on a base URL do not change the endpoint URLs built
/// from it.
pub proof fn law_endpoint_ignores_trailing_slashes(
    base_url: Seq<char>,
    slashes: Seq<char>,
    path: Seq<char>,
)
    requires
        forall|k: int| 0 <= k < slashes.len() ==> slashes[k] == '/',
    ensures
        spec_endpoint_url(base_url + slashes, path) == spec_endpoint_url(base_url, path),
    decreases slashes.len(),
{
    if slashes.len() > 0 {
        assert((base_url + slashes).drop_last() =~= base_url + slashes.drop_last());
        assert((base_url + slashes).last() == '/');
        law_endpoint_ignores_trailing_slashes(base_url, slashes.drop_last(), path);
    } else {
        assert(base_url + slashes =~= base_url);
    }
}

/// The endpoint URL is the base URL up to its trailing slashes, followed by
/// the path: the part before the path never ends with a slash.
pub proof fn law_endpoint_no_doubled_slash(base_url: Seq<char>, path: Seq<char>)
    ensures
        spec_endpoint_url(base_url, path) == spec_trim_end_char(base_url, '/') + path,
        spec_trim_end_char(base_url, '/').len() == 0 || spec_trim_end_char(base_url, '/').last()
            != '/',
        spec_trim_end_char(base_url, '/').len() <= base_url.len(),
        spec_trim_end_char(base_url, '/') =~= base_url.take(
            spec_trim_end_char(base_url, '/').len() as int,
        ),
    decreases base_url.len(),
{
    let t = spec_trim_end_char(base_url, '/');
    if base_url.len() > 0 && base_url.last() == '/' {
        law_endpoint_no_doubled_slash(base_url.drop_last(), path);
        assert(base_url.drop_last().take(t.len() as int) =~= base_url.take(t.len() as int));
    } else {
        assert(base_url.take(base_url.len() as int) =~= base_url);
    }
}

// ── Turns ───────────────────────────────────────────────────────────────────

/// A tool result of the new turn, as the client records it in the task,
/// replays on later turns as the very chat message the model was shown on
/// this turn: the client's task state stays consistent with what the model
/// sees.
pub proof fn law_echo_replays_as_shown(t: SpecToolCallResult, task_id: Seq<char>, id: Seq<char>)
    ensures
        spec_warp_message_to_openai(spec_echo_message(t, task_id, id)) == spec_tool_result_message(
            t,
        ),
{
}

/// The echo of all the tool results of a turn replays as the chat messages
/// the model was shown for them, in the same order.
pub proof fn law_echoes_replay_as_shown(
    msgs: Seq<SpecMessage>,
    results: Seq<SpecToolCallResult>,
    task_id: Seq<char>,
)
    requires
        echoes(msgs, results, task_id),
    ensures
        msgs.filter_map(|m: SpecMessage| spec_warp_message_to_openai(m)) == results.filter_map(
            |t: SpecToolCallResult| spec_tool_result_message(t),
        ),
    decreases msgs.len(),
{
    if msgs.len() > 0 {
        let n = msgs.len() - 1;
        assert(msgs[n] == spec_echo_message(results[n], task_id, msgs[n].id));
        law_echo_replays_as_shown(results[n], task_id, msgs[n].id);
        assert forall|k: int| 0 <= k < msgs.drop_last().len() implies is_uuid_v4_text(
            (#[trigger] msgs.drop_last()[k]).id,
        ) && msgs.drop_last()[k] == spec_echo_message(
            results.drop_last()[k],
            task_id,
            msgs.drop_last()[k].id,
        ) by {
            assert(msgs.drop_last()[k] == msgs[k]);
        }
        law_echoes_replay_as_shown(msgs.drop_last(), results.drop_last(), task_id);
    } else {
        assert(results.len() == 0);
    }
}

/// Every turn's response stream opens with the stream init for the
/// conversation, creates the root task first thing exactly on the first
/// turn, opens a transaction before the model's answer, and ends by
/// committing the transaction and finishing the stream.
pub proof fn law_turn_framing(
    state: SpecTurnState,
    choices: Seq<SpecCompletionMessage>,
    args: Seq<Option<SpecJson>>,
    ids: SpecResponseIds,
)
    ensures
        ({
            let ev = spec_turn_events(state, choices, args, ids);
            let b = (if state.needs_create_task { 1int } else { 0int }) + (if state.input_tool_results.len()
                > 0 { 1int } else { 0int }) + 1;
            &&& ev.len() >= 4
            &&& ev[0] == SpecResponseEvent::Init {
                conversation_id: state.conversation_id,
                request_id: ids.request_id,
                run_id: ids.run_id,
            }
            &&& (ev[1] == action_event(
                SpecClientAction::CreateTask { task: spec_root_task(state.root_task_id) },
            )) == state.needs_create_task
            &&& ev[b] == action_event(SpecClientAction::BeginTransaction)
            &&& ev[ev.len() - 2] == action_event(SpecClientAction::CommitTransaction)
            &&& ev[ev.len() - 1] == SpecResponseEvent::Finished { reason: Some(FinishReason::Done) }
        }),
{
    let ev = spec_turn_events(state, choices, args, ids);
    let begin = action_event(SpecClientAction::BeginTransaction);
    let create = action_event(
        SpecClientAction::CreateTask { task: spec_root_task(state.root_task_id) },
    );
    if !state.needs_create_task {
        if state.input_tool_results.len() > 0 {
            assert(ev[1] == action_event(
                SpecClientAction::AddMessagesToTask {
                    task_id: state.root_task_id,
                    messages: state.input_tool_results,
                },
            ));
            assert(ev[1]->actions[0] != create->actions[0]);
        } else {
            assert(ev[1] == begin);
            assert(begin->actions[0] != create->actions[0]);
        }
    }
}

/// A tool call that the model made and that was read as a protocol tool is
/// sent back to the model on later turns under the same function name.
pub proof fn law_parsed_call_keeps_name(name: Seq<char>, args: SpecJson)
    requires
        spec_tool_from_args(name, args) is Some,
    ensures
        spec_tool_name_args(spec_tool_from_args(name, args)->Some_0) matches Some((n, a)) && n
            == name,
{
}

// ── Tool definitions ────────────────────────────────────────────────────────

/// The protocol tool type of a tool.
pub open spec fn tool_type_of(t: SpecTool) -> ToolType {
    match t {
        SpecTool::RunShellCommand(_) => ToolType::RunShellCommand,
        SpecTool::ReadFiles(_) => ToolType::ReadFiles,
        SpecTool::ApplyFileDiffs(_) => ToolType::ApplyFileDiffs,
        SpecTool::Grep(_) => ToolType::Grep,
        SpecTool::FileGlobV2(_) => ToolType::FileGlobV2,
        SpecTool::SearchCodebase(_) => ToolType::SearchCodebase,
        SpecTool::Other => ToolType::Unsupported,
    }
}

/// An item that a function keeps is in the result of `filter_map`.
pub proof fn lemma_filter_map_keeps<A, B>(s: Seq<A>, f: spec_fn(A) -> Option<B>, k: int)
    requires
        0 <= k < s.len(),
        f(s[k]) is Some,
    ensures
        s.filter_map(f).contains(f(s[k])->Some_0),
    decreases s.len(),
{
    let r = s.filter_map(f);
    if k == s.len() - 1 {
        assert(r == s.drop_last().filter_map(f) + seq![f(s[k])->Some_0]);
        assert(r[r.len() - 1] == f(s[k])->Some_0);
    } else {
        lemma_filter_map_keeps(s.drop_last(), f, k);
        assert(s.drop_last()[k] == s[k]);
        let rest = s.drop_last().filter_map(f);
        let i = choose|i: int| 0 <= i < rest.len() && rest[i] == f(s[k])->Some_0;
        match f(s.last()) {
            Some(b) => {
                assert(r == rest + seq![b]);
                assert(r[i] == rest[i]);
            },
            None => {},
        }
    }
}

/// The model is offered the definition of a tool that has a chat form
/// exactly when the client supports that tool.
pub proof fn law_offered_iff_supported(supported: Seq<ToolType>, tt: ToolType)
    requires
        tt != ToolType::Unsupported,
    ensures
        spec_tool_definitions_for(supported).contains(spec_tool_definition(tt))
            <==> supported.contains(tt),
{
    reveal_strlit("run_shell_command");
    reveal_strlit("read_files");
    reveal_strlit("apply_file_diffs");
    reveal_strlit("grep");
    reveal_strlit("file_glob_v2");
    reveal_strlit("search_codebase");
    assert("run_shell_command"@.len() == 17 && "read_files"@.len() == 10
        && "apply_file_diffs"@.len() == 16 && "grep"@.len() == 4 && "file_glob_v2"@.len() == 12
        && "search_codebase"@.len() == 15);
    let defined = spec_defined_tool_types();
    let f = |t: ToolType|
        if supported.contains(t) {
            Some(spec_tool_definition(t))
        } else {
            None
        };
    let k: int = match tt {
        ToolType::RunShellCommand => 0,
        ToolType::ReadFiles => 1,
        ToolType::ApplyFileDiffs => 2,
        ToolType::Grep => 3,
        ToolType::FileGlobV2 => 4,
        _ => 5,
    };
    assert(defined[k] == tt);
    if supported.contains(tt) {
        lemma_filter_map_keeps(defined, f, k);
    }
    if defined.filter_map(f).contains(spec_tool_definition(tt)) {
        defined.lemma_filter_map_contains(f, spec_tool_definition(tt));
        let t2 = choose|t2: ToolType| defined.contains(t2) && f(t2) == Some(spec_tool_definition(tt));
        assert(spec_tool_definition(t2).name == spec_tool_definition(tt).name);
        assert(t2 != ToolType::Unsupported) by {
            let i = choose|i: int| 0 <= i < defined.len() && defined[i] == t2;
        }
        assert(t2 == tt);
    }
}

/// Each tool is sent to the model, and read back from it, under the
/// function name of the definition the model is offered for its type.
pub proof fn law_calls_use_definition_names(t: SpecTool)
    requires
        t !is Other,
    ensures
        spec_tool_name_args(t) matches Some((n, a)) && n == spec_tool_definition(
            tool_type_of(t),
        ).name,
{
}

/// Whether `a` is `b` with some items left out, the rest kept in order.
pub open spec fn is_subsequence<A>(a: Seq<A>, b: Seq<A>) -> bool
    decreases b.len(),
{
    if a.len() == 0 {
        true
    } else if b.len() == 0 {
        false
    } else if a.last() == b.last() {
        is_subsequence(a.drop_last(), b.drop_last())
    } else {
        is_subsequence(a, b.drop_last())
    }
}

proof fn lemma_subsequence_push<A>(a: Seq<A>, b: Seq<A>, x: A)
    requires
        is_subsequence(a, b),
    ensures
        is_subsequence(a, b.push(x)),
    decreases b.len(), 1nat,
{
    assert(b.push(x).drop_last() =~= b);
    if a.len() > 0 && a.last() == x {
        lemma_subsequence_drop_last(a, b);
    }
}

proof fn lemma_subsequence_drop_last<A>(a: Seq<A>, b: Seq<A>)
    requires
        is_subsequence(a, b),
        a.len() > 0,
    ensures
        is_subsequence(a.drop_last(), b),
    decreases b.len(), 0nat,
{
    assert(b.drop_last().push(b.last()) =~= b);
    if a.last() == b.last() {
        lemma_subsequence_push(a.drop_last(), b.drop_last(), b.last());
    } else {
        lemma_subsequence_drop_last(a, b.drop_last());
        lemma_subsequence_push(a.drop_last(), b.drop_last(), b.last());
    }
}

/// Keeping fewer items with `filter_map` gives a subsequence.
pub proof fn lemma_filter_map_subsequence<A, B>(
    s: Seq<A>,
    g: spec_fn(A) -> Option<B>,
    f: spec_fn(A) -> Option<B>,
)
    requires
        forall|x: A| #[trigger] g(x) is Some ==> f(x) == g(x),
    ensures
        is_subsequence(s.filter_map(g), s.filter_map(f)),
    decreases s.len(),
{
    if s.len() > 0 {
        let a = s.drop_last().filter_map(g);
        let b = s.drop_last().filter_map(f);
        lemma_filter_map_subsequence(s.drop_last(), g, f);
        match g(s.last()) {
            Some(v) => {
                assert(s.filter_map(g) =~= a.push(v));
                assert(s.filter_map(f) =~= b.push(v));
                assert(a.push(v).drop_last() =~= a);
                assert(b.push(v).drop_last() =~= b);
            },
            None => match f(s.last()) {
                Some(w) => {
                    assert(s.filter_map(f) =~= b.push(w));
                    lemma_subsequence_push(a, b, w);
                },
                None => {},
            },
        }
    }
}

/// The definitions offered depend only on which tools are supported: two
/// lists with the same tools, in any order and with any repetition, give the
/// same definitions; and no supported tool gives no definition.
pub proof fn law_definitions_depend_on_tool_set(s1: Seq<ToolType>, s2: Seq<ToolType>)
    requires
        forall|t: ToolType| s1.contains(t) <==> s2.contains(t),
    ensures
        spec_tool_definitions_for(s1) == spec_tool_definitions_for(s2),
        spec_tool_definitions_for(Seq::empty()).len() == 0,
{
    let f1 = |t: ToolType|
        if s1.contains(t) {
            Some(spec_tool_definition(t))
        } else {
            None
        };
    let f2 = |t: ToolType|
        if s2.contains(t) {
            Some(spec_tool_definition(t))
        } else {
            None
        };
    assert(f1 =~= f2);
    let f0 = |t: ToolType|
        if Seq::<ToolType>::empty().contains(t) {
            Some(spec_tool_definition(t))
        } else {
            None
        };
    let none = |t: ToolType| None::<crate::openai::SpecToolDefinition>;
    assert(f0 =~= none);
    assert(spec_defined_tool_types().filter_map(none) =~= Seq::empty()) by {
        reveal_with_fuel(Seq::filter_map, 7);
    }
}

/// Supporting more tools only adds definitions: the definitions for a
/// subset of the tools are a subsequence of those for the whole set.
pub proof fn law_definitions_grow_with_tools(s1: Seq<ToolType>, s3: Seq<ToolType>)
    requires
        forall|t: ToolType| s1.contains(t) ==> s3.contains(t),
    ensures
        is_subsequence(spec_tool_definitions_for(s1), spec_tool_definitions_for(s3)),
{
    let f1 = |t: ToolType|
        if s1.contains(t) {
            Some(spec_tool_definition(t))
        } else {
            None
        };
    let f3 = |t: ToolType|
        if s3.contains(t) {
            Some(spec_tool_definition(t))
        } else {
            None
        };
    lemma_filter_map_subsequence(spec_defined_tool_types(), f1, f3);
}

} // verus!
